//! First-match search over sequences, the notion behind key lookup in JSON
//! objects, namespace lookup and character search in strings.

use vstd::prelude::*;

verus! {

/// Position of the first element of `s` satisfying `p`, or `s.len()` when
/// none does.
pub open spec fn first_match<A>(s: Seq<A>, p: spec_fn(A) -> bool) -> int
    decreases s.len(),
{
    if s.len() == 0 {
        0
    } else if p(s[0]) {
        0
    } else {
        1 + first_match(s.drop_first(), p)
    }
}

/// `first_match` is the least position satisfying `p`, or the length.
pub proof fn lemma_first_match<A>(s: Seq<A>, p: spec_fn(A) -> bool)
    ensures
        0 <= first_match(s, p) <= s.len(),
        forall|k: int| 0 <= k < first_match(s, p) ==> !p(#[trigger] s[k]),
        first_match(s, p) < s.len() ==> p(s[first_match(s, p)]),
    decreases s.len(),
{
    if s.len() > 0 && !p(s[0]) {
        lemma_first_match(s.drop_first(), p);
        assert forall|k: int| 0 <= k < first_match(s, p) implies !p(#[trigger] s[k]) by {
            if k > 0 {
                assert(s[k] == s.drop_first()[k - 1]);
            }
        }
    }
}

/// A position is the first match exactly when everything before it fails
/// `p` and it satisfies `p` or is the end.
pub proof fn lemma_first_match_unique<A>(s: Seq<A>, p: spec_fn(A) -> bool, i: int)
    requires
        0 <= i <= s.len(),
        forall|k: int| 0 <= k < i ==> !p(#[trigger] s[k]),
        i < s.len() ==> p(s[i]),
    ensures
        first_match(s, p) == i,
{
    lemma_first_match(s, p);
    let f = first_match(s, p);
    if f < i {
        assert(!p(s[f]));
    }
    if i < f {
        assert(!p(s[i]));
    }
}

/// Replacing an element by one that `p` judges alike keeps the first match.
pub proof fn lemma_first_match_update<A>(s: Seq<A>, p: spec_fn(A) -> bool, i: int, x: A)
    requires
        0 <= i < s.len(),
        p(x) == p(s[i]),
    ensures
        first_match(s.update(i, x), p) == first_match(s, p),
{
    lemma_first_match(s, p);
    let f = first_match(s, p);
    let t = s.update(i, x);
    assert forall|k: int| 0 <= k < f implies !p(#[trigger] t[k]) by {
        if k != i {
            assert(t[k] == s[k]);
        }
        assert(!p(s[k]));
    }
    if f < s.len() {
        if f != i {
            assert(t[f] == s[f]);
        }
    }
    lemma_first_match_unique(t, p, f);
}

/// Appending an element: the first match stays, or is the new element when
/// it matches, or is past the end.
pub proof fn lemma_first_match_push<A>(s: Seq<A>, p: spec_fn(A) -> bool, x: A)
    ensures
        first_match(s.push(x), p) == if first_match(s, p) < s.len() {
            first_match(s, p)
        } else if p(x) {
            s.len() as int
        } else {
            s.len() + 1 as int
        },
{
    lemma_first_match(s, p);
    let f = first_match(s, p);
    let t = s.push(x);
    assert forall|k: int| 0 <= k < f implies !p(#[trigger] t[k]) by {
        assert(t[k] == s[k]);
    }
    if f < s.len() {
        assert(t[f] == s[f]);
        lemma_first_match_unique(t, p, f);
    } else if p(x) {
        lemma_first_match_unique(t, p, f);
    } else {
        assert forall|k: int| 0 <= k < s.len() + 1 implies !p(#[trigger] t[k]) by {
            if k < s.len() {
                assert(t[k] == s[k]);
            }
        }
        lemma_first_match_unique(t, p, s.len() + 1 as int);
    }
}

} // verus!
