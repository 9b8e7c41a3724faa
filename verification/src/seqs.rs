//! Searching in sequences.

use vstd::prelude::*;

verus! {

/// The least index at which `x` stands in `s`.
pub open spec fn first_index<A>(s: Seq<A>, x: A) -> Option<int>
    decreases s.len(),
{
    if s.len() == 0 {
        None
    } else if s[0] == x {
        Some(0)
    } else {
        match first_index(s.drop_first(), x) {
            Some(i) => Some(i + 1),
            None => None,
        }
    }
}

/// What `first_index` returns: an index of `x` with no `x` before it, or
/// nothing where `x` does not occur.
pub proof fn lemma_first_index<A>(s: Seq<A>, x: A)
    ensures
        match first_index(s, x) {
            Some(i) => 0 <= i < s.len() && s[i] == x && forall|j: int|
                0 <= j < i ==> #[trigger] s[j] != x,
            None => forall|j: int| 0 <= j < s.len() ==> #[trigger] s[j] != x,
        },
    decreases s.len(),
{
    if s.len() > 0 && s[0] != x {
        let rest = s.drop_first();
        lemma_first_index(rest, x);
        match first_index(rest, x) {
            Some(i) => {
                assert forall|j: int| 0 <= j < i + 1 implies #[trigger] s[j] != x by {
                    if j > 0 {
                        assert(s[j] == rest[j - 1]);
                    }
                }
            },
            None => {
                assert forall|j: int| 0 <= j < s.len() implies #[trigger] s[j] != x by {
                    if j > 0 {
                        assert(s[j] == rest[j - 1]);
                    }
                }
            },
        }
    }
}

/// The greatest index at which `x` stands in `s`.
pub open spec fn last_index<A>(s: Seq<A>, x: A) -> Option<int>
    decreases s.len(),
{
    if s.len() == 0 {
        None
    } else if s.last() == x {
        Some(s.len() - 1)
    } else {
        last_index(s.drop_last(), x)
    }
}

/// What `last_index` returns: an index of `x` with no `x` after it, or
/// nothing where `x` does not occur.
pub proof fn lemma_last_index<A>(s: Seq<A>, x: A)
    ensures
        match last_index(s, x) {
            Some(i) => 0 <= i < s.len() && s[i] == x && forall|j: int|
                i < j < s.len() ==> #[trigger] s[j] != x,
            None => forall|j: int| 0 <= j < s.len() ==> #[trigger] s[j] != x,
        },
    decreases s.len(),
{
    if s.len() > 0 && s.last() != x {
        let rest = s.drop_last();
        lemma_last_index(rest, x);
        match last_index(rest, x) {
            Some(i) => {
                assert forall|j: int| i < j < s.len() implies #[trigger] s[j] != x by {
                    if j < s.len() - 1 {
                        assert(s[j] == rest[j]);
                    }
                }
            },
            None => {
                assert forall|j: int| 0 <= j < s.len() implies #[trigger] s[j] != x by {
                    if j < s.len() - 1 {
                        assert(s[j] == rest[j]);
                    }
                }
            },
        }
    }
}


/// The first index of `x` after `y` has been appended to `s`: the one in
/// `s` where there is one; else the new index, where `y` is `x`.
pub proof fn lemma_first_index_push<A>(s: Seq<A>, y: A, x: A)
    ensures
        first_index(s.push(y), x) == match first_index(s, x) {
            Some(i) => Some(i),
            None => if y == x {
                Some(s.len() as int)
            } else {
                None
            },
        },
{
    let t = s.push(y);
    lemma_first_index(s, x);
    lemma_first_index(t, x);
    match first_index(s, x) {
        Some(i) => {
            assert(t[i] == x);
            let r = first_index(t, x).unwrap();
            if r < i {
                assert(s[r] == t[r]);
            }
        },
        None => {
            if y == x {
                assert(t[s.len() as int] == x);
                let r = first_index(t, x).unwrap();
                if r < s.len() {
                    assert(s[r] == t[r]);
                }
            } else {
                assert forall|j: int| 0 <= j < t.len() implies #[trigger] t[j] != x by {
                    if j < s.len() {
                        assert(s[j] == t[j]);
                    }
                }
            }
        },
    }
}

} // verus!
