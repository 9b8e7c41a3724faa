//! The canonical text of a type: its token text with the white space
//! normalized, so that two spacings of one type give one text.

use crate::text::{char_is_space, chars_of, is_space};
use vstd::prelude::*;
use vstd::string::*;

verus! {

/// Whether `c` is a punctuation mark that takes no white space beside it:
/// one of `< > ( ) [ ] ,` and `:`.
pub open spec fn is_tight(c: char) -> bool {
    c == '<' || c == '>' || c == '(' || c == ')' || c == '[' || c == ']' || c == ',' || c == ':'
}

/// The first character of `s` from index `i` on that is no white space.
pub open spec fn next_word_char(s: Seq<char>, i: int) -> Option<char>
    decreases s.len() - i,
{
    if i < 0 || i >= s.len() {
        None
    } else if !is_space(s[i]) {
        Some(s[i])
    } else {
        next_word_char(s, i + 1)
    }
}

/// Whether the white space of `s` that begins at `i` stays as one space: it
/// stands between two characters that are no white space, neither of which
/// is a tight punctuation mark.
pub open spec fn run_becomes_space(s: Seq<char>, i: int) -> bool {
    &&& 0 < i < s.len()
    &&& !is_space(s[i - 1])
    &&& !is_tight(s[i - 1])
    &&& match next_word_char(s, i) {
        Some(c) => !is_tight(c),
        None => false,
    }
}

/// What the character of `s` at `i` leaves in the canonical text: itself,
/// where it is no white space; one space, where a stretch of white space
/// that stays begins with it; else nothing.
pub open spec fn kept(s: Seq<char>, i: int) -> Seq<char> {
    if !is_space(s[i]) {
        seq![s[i]]
    } else if run_becomes_space(s, i) {
        seq![' ']
    } else {
        Seq::empty()
    }
}

/// What the first `n` characters of `s` leave in the canonical text of `s`.
pub open spec fn canonical_prefix(s: Seq<char>, n: int) -> Seq<char>
    decreases n,
{
    if n <= 0 {
        Seq::empty()
    } else {
        canonical_prefix(s, n - 1) + kept(s, n - 1)
    }
}

/// The canonical text of the token text `s`: no white space beside
/// `< > ( ) [ ] ,` and `:`, none at the two ends, and one space for any other
/// stretch of white space.
pub open spec fn canonical(s: Seq<char>) -> Seq<char> {
    canonical_prefix(s, s.len() as int)
}

/// Whether `c` is a tight punctuation mark.
fn char_is_tight(c: char) -> (r: bool)
    ensures
        r == is_tight(c),
{
    c == '<' || c == '>' || c == '(' || c == ')' || c == '[' || c == ']' || c == ',' || c == ':'
}

/// Across a stretch of white space, the next character that is none stays
/// the same.
proof fn lemma_next_word_char_skips(s: Seq<char>, i: int, j: int)
    requires
        0 <= i <= j <= s.len(),
        forall|k: int| i <= k < j ==> is_space(#[trigger] s[k]),
    ensures
        next_word_char(s, i) == next_word_char(s, j),
    decreases j - i,
{
    if i < j {
        lemma_next_word_char_skips(s, i + 1, j);
    }
}

/// The canonical text of a type, from its token text.
pub fn canonical_type_text(tokens: &str) -> (r: String)
    ensures
        r@ == canonical(tokens@),
{
    let chars = chars_of(tokens);
    let ghost s = chars@;
    let n = chars.len();
    let mut out = String::new();
    let mut i: usize = 0;
    while i < n
        invariant
            i <= n,
            n == chars.len(),
            s == chars@,
            out@ == canonical_prefix(s, i as int),
            i == 0 || i == n || !is_space(s[i - 1]) || !is_space(s[i as int]),
        decreases n - i,
    {
        if !char_is_space(chars[i]) {
            out.push(chars[i]);
            assert(out@ =~= canonical_prefix(s, i + 1));
            i += 1;
        } else {
            let mut j: usize = i + 1;
            assert(canonical_prefix(s, i + 1) == canonical_prefix(s, i as int) + kept(s, i as int));
            while j < n && char_is_space(chars[j])
                invariant
                    i < j <= n,
                    n == chars.len(),
                    s == chars@,
                    forall|k: int| i <= k < j ==> is_space(#[trigger] s[k]),
                    canonical_prefix(s, j as int) == canonical_prefix(s, i as int) + kept(
                        s,
                        i as int,
                    ),
                decreases n - j,
            {
                proof {
                    assert(is_space(s[j - 1]));
                    assert(kept(s, j as int) =~= Seq::<char>::empty());
                    assert(canonical_prefix(s, j + 1) =~= canonical_prefix(s, j as int));
                }
                j += 1;
            }
            proof {
                lemma_next_word_char_skips(s, i as int, j as int);
            }
            if i > 0 && j < n && !char_is_tight(chars[i - 1]) && !char_is_tight(chars[j]) {
                out.push(' ');
                assert(out@ =~= canonical_prefix(s, j as int));
            } else {
                assert(out@ =~= canonical_prefix(s, j as int));
            }
            i = j;
        }
    }
    out
}

/// The words of `s`: its longest stretches of characters that are no white
/// space, in order.
pub open spec fn words(s: Seq<char>) -> Seq<Seq<char>>
    decreases s.len(),
{
    if s.len() == 0 {
        Seq::empty()
    } else if is_space(s.last()) {
        words(s.drop_last())
    } else if s.len() >= 2 && !is_space(s[s.len() - 2]) {
        let before = words(s.drop_last());
        before.drop_last().push(before.last().push(s.last()))
    } else {
        words(s.drop_last()).push(seq![s.last()])
    }
}

/// What stands between two words that follow each other in a canonical
/// text: nothing where the first ends or the second begins with a tight
/// punctuation mark, one space else.
pub open spec fn gap(before: Seq<char>, after: Seq<char>) -> Seq<char> {
    if is_tight(before.last()) || is_tight(after[0]) {
        Seq::empty()
    } else {
        seq![' ']
    }
}

/// The words `ws`, one after the other, with what stands between them in a
/// canonical text.
pub open spec fn joined(ws: Seq<Seq<char>>) -> Seq<char>
    decreases ws.len(),
{
    if ws.len() == 0 {
        Seq::empty()
    } else if ws.len() == 1 {
        ws[0]
    } else {
        joined(ws.drop_last()) + gap(ws[ws.len() - 2], ws.last()) + ws.last()
    }
}

/// Where the stretch of white space begins that ends before `n`; `n` itself
/// where no white space stands before `n`.
spec fn run_start(s: Seq<char>, n: int) -> int
    decreases n,
{
    if 0 < n <= s.len() && is_space(s[n - 1]) {
        run_start(s, n - 1)
    } else {
        n
    }
}

/// The space that the stretch of white space before `n` leaves in the
/// canonical text.
spec fn pending(s: Seq<char>, n: int) -> Seq<char> {
    if run_start(s, n) < n && run_becomes_space(s, run_start(s, n)) {
        seq![' ']
    } else {
        Seq::empty()
    }
}

/// The stretch of white space before `n` begins within the first `n`
/// characters, holds white space only, and has none in front of it.
proof fn lemma_run_start(s: Seq<char>, n: int)
    requires
        0 <= n <= s.len(),
    ensures
        0 <= run_start(s, n) <= n,
        forall|k: int| run_start(s, n) <= k < n ==> is_space(#[trigger] s[k]),
        run_start(s, n) == 0 || !is_space(s[run_start(s, n) - 1]),
    decreases n,
{
    if 0 < n && is_space(s[n - 1]) {
        lemma_run_start(s, n - 1);
    }
}

/// The last word of a text that ends with a character that is no white
/// space ends with that character.
proof fn lemma_last_word(s: Seq<char>, n: int)
    requires
        0 < n <= s.len(),
        !is_space(s[n - 1]),
    ensures
        words(s.take(n)).len() > 0,
        words(s.take(n)).last().len() > 0,
        words(s.take(n)).last().last() == s[n - 1],
    decreases n,
{
    let t = s.take(n);
    assert(t.last() == s[n - 1]);
    assert(t.drop_last() =~= s.take(n - 1));
    if n >= 2 && !is_space(s[n - 2]) {
        assert(t[t.len() - 2] == s[n - 2]);
        lemma_last_word(s, n - 1);
    }
}

/// The words of a text do not change with the white space at its end.
proof fn lemma_words_skip_run(s: Seq<char>, n: int)
    requires
        0 <= n <= s.len(),
    ensures
        words(s.take(n)) == words(s.take(run_start(s, n))),
    decreases n,
{
    if 0 < n && is_space(s[n - 1]) {
        lemma_words_skip_run(s, n - 1);
        assert(s.take(n).last() == s[n - 1]);
        assert(s.take(n).drop_last() =~= s.take(n - 1));
    }
}

/// What the first `n` characters of `s` leave in its canonical text: the
/// words before the white space that ends at `n`, joined, and the space that
/// this white space leaves.
proof fn lemma_canonical_prefix(s: Seq<char>, n: int)
    requires
        0 <= n <= s.len(),
    ensures
        canonical_prefix(s, n) == joined(words(s.take(run_start(s, n)))) + pending(s, n),
    decreases n,
{
    if n == 0 {
        assert(s.take(0) =~= Seq::<char>::empty());
        assert(canonical_prefix(s, 0) =~= joined(words(s.take(0))) + pending(s, 0));
    } else {
        let m = n - 1;
        lemma_canonical_prefix(s, m);
        lemma_run_start(s, m);
        lemma_run_start(s, n);
        let r = run_start(s, m);
        let before = joined(words(s.take(r)));
        assert(canonical_prefix(s, n) == canonical_prefix(s, m) + kept(s, m));
        if is_space(s[m]) {
            assert(run_start(s, n) == r);
            if r == m {
                assert(pending(s, m) =~= Seq::<char>::empty());
                assert(kept(s, m) == pending(s, n));
                assert(canonical_prefix(s, n) =~= before + pending(s, n));
            } else {
                assert(is_space(s[m - 1]));
                assert(kept(s, m) =~= Seq::<char>::empty());
                assert(pending(s, n) == pending(s, m));
                assert(canonical_prefix(s, n) =~= before + pending(s, n));
            }
        } else {
            let c = s[m];
            let t = s.take(n);
            assert(run_start(s, n) == n);
            assert(pending(s, n) =~= Seq::<char>::empty());
            assert(kept(s, m) == seq![c]);
            assert(t.last() == c);
            assert(t.drop_last() =~= s.take(m));
            lemma_last_word(s, n);
            if r == m {
                assert(pending(s, m) =~= Seq::<char>::empty());
                if m == 0 {
                    assert(s.take(0) =~= Seq::<char>::empty());
                    assert(words(t) =~= seq![seq![c]]);
                    assert(joined(words(t)) =~= before + seq![c]);
                } else {
                    assert(!is_space(s[m - 1]));
                    assert(t[t.len() - 2] == s[m - 1]);
                    lemma_last_word(s, m);
                    let ws = words(s.take(m));
                    let longer = ws.drop_last().push(ws.last().push(c));
                    assert(words(t) == longer);
                    lemma_joined_longer(ws, c);
                }
                assert(canonical_prefix(s, n) =~= joined(words(t)) + pending(s, n));
            } else {
                assert(is_space(s[m - 1]));
                assert(t[t.len() - 2] == s[m - 1]);
                lemma_words_skip_run(s, m);
                let ws = words(s.take(r));
                assert(words(t) == ws.push(seq![c]));
                lemma_next_word_char_skips(s, r, m);
                assert(next_word_char(s, r) == Some(c));
                if r == 0 {
                    assert(s.take(0) =~= Seq::<char>::empty());
                    assert(ws =~= Seq::<Seq<char>>::empty());
                    assert(pending(s, m) =~= Seq::<char>::empty());
                    assert(joined(ws.push(seq![c])) =~= seq![c]);
                    assert(canonical_prefix(s, n) =~= joined(words(t)) + pending(s, n));
                } else {
                    lemma_last_word(s, r);
                    let more = ws.push(seq![c]);
                    assert(more.drop_last() =~= ws);
                    assert(more[more.len() - 2] == ws.last());
                    assert(more.last() == seq![c]);
                    assert(gap(ws.last(), seq![c]) == pending(s, m));
                    assert(joined(more) == joined(ws) + pending(s, m) + seq![c]);
                    assert(canonical_prefix(s, n) =~= joined(words(t)) + pending(s, n));
                }
            }
        }
    }
}

/// One more character at the end of the last word is one more character at
/// the end of the joined words.
proof fn lemma_joined_longer(ws: Seq<Seq<char>>, c: char)
    requires
        ws.len() > 0,
        ws.last().len() > 0,
    ensures
        joined(ws.drop_last().push(ws.last().push(c))) == joined(ws) + seq![c],
{
    let longer = ws.drop_last().push(ws.last().push(c));
    if ws.len() == 1 {
        assert(joined(longer) =~= joined(ws) + seq![c]);
    } else {
        assert(longer.drop_last() =~= ws.drop_last());
        assert(longer[longer.len() - 2] == ws[ws.len() - 2]);
        assert(longer.last()[0] == ws.last()[0]);
        assert(joined(longer) =~= joined(ws) + seq![c]);
    }
}

/// The canonical text of a token text is its words, joined: two words have
/// one space between them, and none where the first ends or the second
/// begins with a tight punctuation mark.
pub proof fn lemma_canonical_joins_words(s: Seq<char>)
    ensures
        canonical(s) == joined(words(s)),
{
    let n = s.len() as int;
    lemma_canonical_prefix(s, n);
    lemma_run_start(s, n);
    lemma_words_skip_run(s, n);
    assert(s.take(n) =~= s);
    let r = run_start(s, n);
    if r < n {
        lemma_next_word_char_skips(s, r, n);
        assert(!run_becomes_space(s, r));
    }
    assert(pending(s, n) =~= Seq::<char>::empty());
    assert(canonical(s) =~= joined(words(s)));
}

/// Two spacings of one type have one canonical text: token texts with the
/// same words, whatever white space stands between them, have the same
/// canonical text.
pub proof fn lemma_spacing_does_not_matter(s: Seq<char>, t: Seq<char>)
    requires
        words(s) == words(t),
    ensures
        canonical(s) == canonical(t),
{
    lemma_canonical_joins_words(s);
    lemma_canonical_joins_words(t);
}

} // verus!
