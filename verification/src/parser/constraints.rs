//! The constraints of a field, read off the text between the delimiters of
//! its `#[account(...)]` attributes.

use crate::model::account::{Constraint, ConstraintView};
use crate::seqs::{first_index, last_index};
use crate::text::{
    chars_of, find_char, find_char_between, rfind_char, text_of, trim_bounds, trimmed,
};
use vstd::prelude::*;
use vstd::string::*;

verus! {

/// Whether `c` opens a pair of delimiters.
pub open spec fn is_opener(c: char) -> bool {
    c == '(' || c == '[' || c == '{'
}

/// Whether `c` closes a pair of delimiters.
pub open spec fn is_closer(c: char) -> bool {
    c == ')' || c == ']' || c == '}'
}

/// How deep in delimiters the end of `s` lies: the openers of `s` less its
/// closers.
pub open spec fn depth(s: Seq<char>) -> int
    decreases s.len(),
{
    if s.len() == 0 {
        0
    } else {
        depth(s.drop_last()) + if is_opener(s.last()) {
            1int
        } else if is_closer(s.last()) {
            -1int
        } else {
            0int
        }
    }
}

/// Whether the character of `s` at `i` separates two constraints: a comma
/// outside all delimiters.
pub open spec fn is_separator(s: Seq<char>, i: int) -> bool {
    0 <= i < s.len() && s[i] == ',' && depth(s.take(i)) == 0
}

/// The indices of the first `n` characters of `s` that separate two
/// constraints, in rising order.
pub open spec fn separators(s: Seq<char>, n: int) -> Seq<int> {
    Seq::new(n as nat, |i: int| i).filter(|i: int| is_separator(s, i))
}

/// The piece of `s` of number `k`, where `seps` are the separators of `s`:
/// what stands between the separator before it and the separator after it,
/// the two ends of `s` counting as separators.
pub open spec fn piece(s: Seq<char>, seps: Seq<int>, k: int) -> Seq<char> {
    s.subrange(
        if k == 0 {
            0
        } else {
            seps[k - 1] + 1
        },
        if k == seps.len() {
            s.len() as int
        } else {
            seps[k]
        },
    )
}

/// The pieces into which its separators cut `s`, in order.
pub open spec fn pieces(s: Seq<char>) -> Seq<Seq<char>> {
    let seps = separators(s, s.len() as int);
    Seq::new(seps.len() + 1, |k: int| piece(s, seps, k))
}

/// The constraint that the text `segment` states: what stands before its
/// first `=` is the name and what stands behind it is the value, each
/// without the white space at its ends; without `=` all of it is the name.
/// A `=` inside the value is not looked at: the first one splits.
pub open spec fn parsed_constraint(segment: Seq<char>) -> ConstraintView {
    match first_index(segment, '=') {
        Some(i) => ConstraintView {
            constraint_type: trimmed(segment.take(i)),
            value: Some(trimmed(segment.skip(i + 1))),
        },
        None => ConstraintView { constraint_type: segment, value: None },
    }
}

/// The segments of `content`: its pieces without the white space at their
/// ends, those that are empty left out.
pub open spec fn segments(content: Seq<char>) -> Seq<Seq<char>> {
    pieces(content).map_values(|p: Seq<char>| trimmed(p)).filter(|p: Seq<char>| p.len() > 0)
}

/// The constraints that `content` states, in order.
pub open spec fn parsed_constraints(content: Seq<char>) -> Seq<ConstraintView> {
    segments(content).map_values(|p: Seq<char>| parsed_constraint(p))
}

/// What stands between the first `(` and the last `)` of the token text of
/// an attribute; nothing where one of the two is missing or the first `(`
/// stands behind the last `)`.
pub open spec fn attribute_arguments(tokens: Seq<char>) -> Option<Seq<char>> {
    match (first_index(tokens, '('), last_index(tokens, ')')) {
        (Some(a), Some(b)) => if a < b {
            Some(tokens.subrange(a + 1, b))
        } else {
            None
        },
        _ => None,
    }
}

/// The separators of `s` are indices of `s`, in rising order.
pub proof fn lemma_separators(s: Seq<char>, n: int)
    requires
        0 <= n <= s.len(),
    ensures
        separators(s, n).len() <= n,
        forall|k: int|
            0 <= k < separators(s, n).len() ==> 0 <= #[trigger] separators(s, n)[k] < n
                && is_separator(s, separators(s, n)[k]),
        forall|j: int, k: int|
            0 <= j < k < separators(s, n).len() ==> separators(s, n)[j] < separators(s, n)[k],
        forall|m: int| 0 <= m <= n ==> separators(s, m).len() <= separators(s, n).len(),
        forall|m: int, k: int|
            0 <= m <= n && 0 <= k < separators(s, m).len() ==> separators(s, m)[k] == separators(
                s,
                n,
            )[k],
    decreases n,
{
    reveal(Seq::filter);
    if n > 0 {
        lemma_separators(s, n - 1);
        let indices = Seq::new(n as nat, |i: int| i);
        assert(indices.drop_last() =~= Seq::new((n - 1) as nat, |i: int| i));
        assert(indices.last() == n - 1);
        assert forall|m: int| 0 <= m <= n implies separators(s, m).len() <= separators(
            s,
            n,
        ).len() by {
            if m < n {
                assert(separators(s, m).len() <= separators(s, n - 1).len());
            }
        }
        assert forall|m: int, k: int|
            0 <= m <= n && 0 <= k < separators(s, m).len() implies separators(s, m)[k]
            == separators(s, n)[k] by {
            if m < n {
                assert(separators(s, m)[k] == separators(s, n - 1)[k]);
            }
        }
    } else {
        assert(Seq::new(0, |i: int| i) =~= Seq::<int>::empty());
    }
}

/// The separators among the first `n + 1` characters are those among the
/// first `n`, and `n` where the character at `n` separates.
pub proof fn lemma_separators_step(s: Seq<char>, n: int)
    requires
        0 <= n < s.len(),
    ensures
        separators(s, n + 1) == if is_separator(s, n) {
            separators(s, n).push(n)
        } else {
            separators(s, n)
        },
{
    reveal(Seq::filter);
    let indices = Seq::new((n + 1) as nat, |i: int| i);
    assert(indices.drop_last() =~= Seq::new(n as nat, |i: int| i));
    assert(indices.last() == n);
}

/// The depth after one more character.
pub proof fn lemma_depth_step(s: Seq<char>, n: int)
    requires
        0 <= n < s.len(),
    ensures
        depth(s.take(n + 1)) == depth(s.take(n)) + if is_opener(s[n]) {
            1int
        } else if is_closer(s[n]) {
            -1int
        } else {
            0int
        },
        -n <= depth(s.take(n)) <= n,
    decreases n,
{
    assert(s.take(n + 1).drop_last() =~= s.take(n));
    assert(s.take(n + 1).last() == s[n]);
    if n > 0 {
        lemma_depth_step(s, n - 1);
    } else {
        assert(s.take(0).len() == 0);
    }
}

/// The bounds of the pieces of `chars`: for each piece the pair `(a, b)`
/// with `chars[a..b]` the piece.
fn piece_bounds(chars: &Vec<char>) -> (bounds: Vec<(usize, usize)>)
    ensures
        bounds@.len() == pieces(chars@).len(),
        forall|k: int|
            0 <= k < bounds@.len() ==> (#[trigger] bounds@[k]).0 <= bounds@[k].1 <= chars.len()
                && chars@.subrange(bounds@[k].0 as int, bounds@[k].1 as int) == pieces(chars@)[k],
{
    let ghost s = chars@;
    let mut bounds: Vec<(usize, usize)> = Vec::new();
    let mut start: usize = 0;
    let mut level: i128 = 0;
    let mut i: usize = 0;
    proof {
        lemma_separators(s, 0);
        assert(s.take(0) =~= Seq::<char>::empty());
    }
    while i < chars.len()
        invariant
            i <= chars.len(),
            s == chars@,
            level == depth(s.take(i as int)),
            -i <= level <= i,
            bounds@.len() == separators(s, i as int).len(),
            start <= i,
            start == if bounds@.len() == 0 {
                0
            } else {
                separators(s, i as int)[bounds@.len() - 1] + 1
            },
            forall|k: int|
                0 <= k < bounds@.len() ==> (#[trigger] bounds@[k]).0 <= bounds@[k].1 <= i
                    && bounds@[k].0 == (if k == 0 {
                    0
                } else {
                    separators(s, i as int)[k - 1] + 1
                }) && bounds@[k].1 == separators(s, i as int)[k],
        decreases chars.len() - i,
    {
        let c = chars[i];
        proof {
            lemma_depth_step(s, i as int);
            lemma_separators_step(s, i as int);
            lemma_separators(s, i as int);
            lemma_separators(s, i + 1);
            if i + 1 < s.len() {
                lemma_depth_step(s, i + 1);
            }
        }
        if c == '(' || c == '[' || c == '{' {
            level = level + 1;
        } else if c == ')' || c == ']' || c == '}' {
            level = level - 1;
        } else if c == ',' && level == 0 {
            bounds.push((start, i));
            start = i + 1;
        }
        i += 1;
    }
    proof {
        lemma_separators(s, s.len() as int);
    }
    bounds.push((start, chars.len()));
    assert forall|k: int| 0 <= k < bounds@.len() implies chars@.subrange(
        (#[trigger] bounds@[k]).0 as int,
        bounds@[k].1 as int,
    ) == pieces(chars@)[k] by {}
    bounds
}

/// The constraint that `chars[from..to]` states.
fn parse_constraint(chars: &Vec<char>, from: usize, to: usize) -> (r: Constraint)
    requires
        from <= to <= chars.len(),
    ensures
        r@ == parsed_constraint(chars@.subrange(from as int, to as int)),
{
    let ghost segment = chars@.subrange(from as int, to as int);
    match find_char_between(chars, '=', from, to) {
        Some(i) => {
            let (a, b) = trim_bounds(chars, from, i);
            let (c, d) = trim_bounds(chars, i + 1, to);
            proof {
                assert(segment.take(i - from) =~= chars@.subrange(from as int, i as int));
                assert(segment.skip(i - from + 1) =~= chars@.subrange(i + 1, to as int));
            }
            Constraint {
                constraint_type: text_of(chars, a, b),
                value: Some(text_of(chars, c, d)),
            }
        },
        None => Constraint { constraint_type: text_of(chars, from, to), value: None },
    }
}

/// The views of constraints.
pub open spec fn constraint_views(constraints: Seq<Constraint>) -> Seq<ConstraintView> {
    constraints.map_values(|c: Constraint| c@)
}

/// The texts of segments.
pub open spec fn segment_texts(segments: Seq<Vec<char>>) -> Seq<Seq<char>> {
    segments.map_values(|p: Vec<char>| p@)
}

/// The segments of `chars[from..to]`, in order: the text is cut at the
/// commas outside all delimiters, the white space at the ends of each piece
/// is removed, and the pieces that are then empty are left out.
pub(crate) fn split_segments(chars: &Vec<char>, from: usize, to: usize) -> (r: Vec<Vec<char>>)
    requires
        from <= to <= chars.len(),
    ensures
        segment_texts(r@) == segments(chars@.subrange(from as int, to as int)),
{
    let content = slice_of(chars, from, to);
    let ghost s = content@;
    let bounds = piece_bounds(&content);
    let ghost all = pieces(s);
    let ghost trim = |p: Seq<char>| trimmed(p);
    let ghost keep = |p: Seq<char>| p.len() > 0;
    let mut found: Vec<Vec<char>> = Vec::new();
    let mut k: usize = 0;
    proof {
        reveal(Seq::filter);
        assert(all.take(0) =~= Seq::<Seq<char>>::empty());
        assert(segment_texts(found@) =~= all.take(0).map_values(trim).filter(keep));
    }
    while k < bounds.len()
        invariant
            k <= bounds.len(),
            s == content@,
            all == pieces(s),
            trim == |p: Seq<char>| trimmed(p),
            keep == |p: Seq<char>| p.len() > 0,
            bounds@.len() == all.len(),
            forall|q: int|
                0 <= q < bounds@.len() ==> (#[trigger] bounds@[q]).0 <= bounds@[q].1
                    <= content.len() && content@.subrange(
                    bounds@[q].0 as int,
                    bounds@[q].1 as int,
                ) == all[q],
            segment_texts(found@) == all.take(k as int).map_values(trim).filter(keep),
        decreases bounds.len() - k,
    {
        let (a, b) = bounds[k];
        let (c, d) = trim_bounds(&content, a, b);
        let ghost before = segment_texts(found@);
        let ghost segment = trimmed(all[k as int]);
        proof {
            assert(content@.subrange(c as int, d as int) == segment);
            assert(all.take(k + 1) =~= all.take(k as int).push(all[k as int]));
            assert(all.take(k + 1).map_values(trim) =~= all.take(k as int).map_values(trim).push(
                segment,
            ));
            all.take(k as int).map_values(trim).lemma_filter_push(segment, keep);
        }
        if d > c {
            let piece = slice_of(&content, c, d);
            found.push(piece);
            assert(segment_texts(found@) =~= before.push(segment));
        }
        k += 1;
    }
    assert(all.take(k as int) =~= all);
    found
}

/// The constraints that `content` states, in order: `content` is cut at the
/// commas outside all delimiters, and each piece that is not empty states
/// one constraint.
pub fn parse_constraints(content: &str) -> (r: Vec<Constraint>)
    ensures
        constraint_views(r@) == parsed_constraints(content@),
{
    let chars = chars_of(content);
    assert(chars@.subrange(0, chars.len() as int) =~= content@);
    parse_constraints_between(&chars, 0, chars.len())
}

/// The constraints that `chars[from..to]` states, in order.
pub(crate) fn parse_constraints_between(chars: &Vec<char>, from: usize, to: usize) -> (r: Vec<Constraint>)
    requires
        from <= to <= chars.len(),
    ensures
        constraint_views(r@) == parsed_constraints(chars@.subrange(from as int, to as int)),
{
    let found = split_segments(chars, from, to);
    let ghost all = segment_texts(found@);
    let mut constraints: Vec<Constraint> = Vec::new();
    let mut k: usize = 0;
    assert(constraint_views(constraints@) =~= all.take(0).map_values(
        |p: Seq<char>| parsed_constraint(p),
    ));
    while k < found.len()
        invariant
            k <= found.len(),
            all == segment_texts(found@),
            constraint_views(constraints@) == all.take(k as int).map_values(
                |p: Seq<char>| parsed_constraint(p),
            ),
        decreases found.len() - k,
    {
        let segment = &found[k];
        let ghost before = constraint_views(constraints@);
        assert(segment@.subrange(0, segment.len() as int) =~= segment@);
        let constraint = parse_constraint(segment, 0, segment.len());
        constraints.push(constraint);
        proof {
            assert(all[k as int] == segment@);
            all.lemma_map_take_succ(|p: Seq<char>| parsed_constraint(p), k as int);
            assert(constraint_views(constraints@) =~= before.push(constraint@));
        }
        k += 1;
    }
    assert(all.take(k as int) =~= all);
    constraints
}

/// A copy of `chars[from..to]`.
fn slice_of(chars: &Vec<char>, from: usize, to: usize) -> (r: Vec<char>)
    requires
        from <= to <= chars.len(),
    ensures
        r@ == chars@.subrange(from as int, to as int),
{
    let mut r: Vec<char> = Vec::new();
    let mut i: usize = from;
    while i < to
        invariant
            from <= i <= to <= chars.len(),
            r@ == chars@.subrange(from as int, i as int),
        decreases to - i,
    {
        r.push(chars[i]);
        i += 1;
    }
    r
}

/// The bounds of the arguments in the token text of an attribute: the pair
/// `(a, b)` with `chars[a..b]` what stands between the first `(` and the
/// last `)`.
pub fn argument_bounds(chars: &Vec<char>) -> (r: Option<(usize, usize)>)
    ensures
        match r {
            Some((a, b)) => a <= b <= chars.len() && attribute_arguments(chars@) == Some(
                chars@.subrange(a as int, b as int),
            ),
            None => attribute_arguments(chars@).is_none(),
        },
{
    match find_char(chars, '(') {
        Some(a) => match rfind_char(chars, ')') {
            Some(b) => if a < b {
                Some((a + 1, b))
            } else {
                None
            },
            None => None,
        },
        None => None,
    }
}

} // verus!
