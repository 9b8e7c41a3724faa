//! The names of files, read off a path. A path is read with `/` as the
//! separator, whatever the machine.

use crate::seqs::{last_index, lemma_last_index};
use crate::text::{chars_of, opt_text, rfind_char_between, text_of};
use vstd::prelude::*;
use vstd::string::*;

verus! {

/// Whether `s` is `.`: the directory itself.
pub open spec fn is_dot(s: Seq<char>) -> bool {
    s.len() == 1 && s[0] == '.'
}

/// Whether `s` is `..`: the parent directory.
pub open spec fn is_dot_dot(s: Seq<char>) -> bool {
    s.len() == 2 && s[0] == '.' && s[1] == '.'
}

/// Where the last component of `path` begins: after its last `/`.
pub open spec fn last_component_start(path: Seq<char>) -> int {
    match last_index(path, '/') {
        Some(i) => i + 1,
        None => 0,
    }
}

/// The name of the file that `path` leads to: its last component, not
/// counting empty components and `.`. A path without such a component, or
/// whose last such component is `..`, leads to no file.
pub open spec fn file_name(path: Seq<char>) -> Option<Seq<char>>
    decreases path.len(),
    via file_name_decreases
{
    let start = last_component_start(path);
    let last = path.skip(start);
    if last.len() == 0 || is_dot(last) {
        if start == 0 {
            None
        } else {
            file_name(path.take(start - 1))
        }
    } else if is_dot_dot(last) {
        None
    } else {
        Some(last)
    }
}

#[via_fn]
proof fn file_name_decreases(path: Seq<char>) {
    lemma_last_index(path, '/');
}

/// The stem of a file name: the name up to its last `.`; all of it where it
/// has no `.`, or none but the one that it begins with.
pub open spec fn stem_of(name: Seq<char>) -> Seq<char> {
    match last_index(name, '.') {
        Some(i) => if i == 0 {
            name
        } else {
            name.take(i)
        },
        None => name,
    }
}

/// The stem of the file that `path` leads to.
pub open spec fn file_stem(path: Seq<char>) -> Option<Seq<char>> {
    match file_name(path) {
        Some(name) => Some(stem_of(name)),
        None => None,
    }
}

/// The bounds of the file name in `chars`: the pair `(a, b)` with
/// `chars[a..b]` the name.
fn file_name_bounds(chars: &Vec<char>) -> (r: Option<(usize, usize)>)
    ensures
        match r {
            Some((a, b)) => a <= b <= chars.len() && file_name(chars@) == Some(
                chars@.subrange(a as int, b as int),
            ),
            None => file_name(chars@).is_none(),
        },
{
    let mut end: usize = chars.len();
    assert(chars@.take(end as int) =~= chars@);
    loop
        invariant
            end <= chars.len(),
            file_name(chars@) == file_name(chars@.take(end as int)),
        decreases end,
    {
        let ghost path = chars@.take(end as int);
        assert(path =~= chars@.subrange(0, end as int));
        let start = match rfind_char_between(chars, '/', 0, end) {
            Some(i) => i + 1,
            None => 0,
        };
        proof {
            assert(start == last_component_start(path));
            assert(path.skip(start as int) =~= chars@.subrange(start as int, end as int));
        }
        let len = end - start;
        if len == 0 || (len == 1 && chars[start] == '.') {
            if start == 0 {
                return None;
            }
            assert(path.take(start - 1) =~= chars@.take(start - 1));
            end = start - 1;
        } else if len == 2 && chars[start] == '.' && chars[start + 1] == '.' {
            return None;
        } else {
            return Some((start, end));
        }
    }
}

/// The stem of the file that `path` leads to: `lib` for `src/lib.rs`.
pub fn extract_file_stem(path: &str) -> (r: Option<String>)
    ensures
        opt_text(r) == file_stem(path@),
{
    let chars = chars_of(path);
    match file_name_bounds(&chars) {
        Some((a, b)) => {
            let ghost name = chars@.subrange(a as int, b as int);
            match rfind_char_between(&chars, '.', a, b) {
                Some(i) => {
                    if i == a {
                        Some(text_of(&chars, a, b))
                    } else {
                        assert(name.take(i - a) =~= chars@.subrange(a as int, i as int));
                        Some(text_of(&chars, a, i))
                    }
                },
                None => Some(text_of(&chars, a, b)),
            }
        },
        None => None,
    }
}

} // verus!
