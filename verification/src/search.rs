//! The first position of a sequence at which a condition holds.
use vstd::prelude::*;

verus! {

/// The first position, from `i` on, at which `p` holds.
pub open spec fn first_from<T>(s: Seq<T>, p: spec_fn(T) -> bool, i: int) -> Option<int>
    decreases s.len() - i,
{
    if i < 0 || i >= s.len() {
        None
    } else if p(s[i]) {
        Some(i)
    } else {
        first_from(s, p, i + 1)
    }
}

/// The first position at which `p` holds.
pub open spec fn first_where<T>(s: Seq<T>, p: spec_fn(T) -> bool) -> Option<int> {
    first_from(s, p, 0)
}

/// What the first position found from `i` on is: a position where `p`
/// holds, with no such position between `i` and it; or none at all.
pub proof fn lemma_first_from<T>(s: Seq<T>, p: spec_fn(T) -> bool, i: int)
    requires
        0 <= i,
    ensures
        match first_from(s, p, i) {
            Some(k) => i <= k < s.len() && p(s[k]) && forall|j: int| i <= j < k ==> !p(s[j]),
            None => forall|j: int| i <= j < s.len() ==> !p(s[j]),
        },
    decreases s.len() - i,
{
    if i < s.len() {
        lemma_first_from(s, p, i + 1);
    }
}

/// What the first position is: one where `p` holds, with none before it.
pub proof fn lemma_first_where<T>(s: Seq<T>, p: spec_fn(T) -> bool)
    ensures
        match first_where(s, p) {
            Some(k) => 0 <= k < s.len() && p(s[k]) && forall|j: int| 0 <= j < k ==> !p(s[j]),
            None => forall|j: int| 0 <= j < s.len() ==> !p(s[j]),
        },
{
    lemma_first_from(s, p, 0);
}

/// When `p` holds nowhere before `i`, searching from the start and from `i` agree.
pub proof fn lemma_first_skip<T>(s: Seq<T>, p: spec_fn(T) -> bool, i: int)
    requires
        0 <= i <= s.len(),
        forall|j: int| 0 <= j < i ==> !p(s[j]),
    ensures
        first_where(s, p) == first_from(s, p, i),
    decreases i,
{
    if i > 0 {
        lemma_first_skip(s, p, i - 1);
    }
}

/// When `p` holds at `k` and nowhere before it, the first position is `k`.
pub proof fn lemma_first_is<T>(s: Seq<T>, p: spec_fn(T) -> bool, k: int)
    requires
        0 <= k < s.len(),
        p(s[k]),
        forall|j: int| 0 <= j < k ==> !p(s[j]),
    ensures
        first_where(s, p) == Some(k),
{
    lemma_first_skip(s, p, k);
}

/// Appending an element after every position changes no first position
/// that existed, and makes the new last position first when there was none.
pub proof fn lemma_first_push<T>(s: Seq<T>, p: spec_fn(T) -> bool, x: T)
    ensures
        first_where(s, p) is Some ==> first_where(s.push(x), p) == first_where(s, p),
        first_where(s, p) is None && p(x) ==> first_where(s.push(x), p) == Some(s.len() as int),
        first_where(s, p) is None && !p(x) ==> first_where(s.push(x), p) is None,
{
    lemma_first_where(s, p);
    lemma_first_where(s.push(x), p);
    match first_where(s, p) {
        Some(k) => {
            assert(s.push(x)[k] == s[k]);
            assert forall|j: int| 0 <= j < k implies !p(s.push(x)[j]) by {
                assert(s.push(x)[j] == s[j]);
            }
            lemma_first_is(s.push(x), p, k);
        },
        None => {
            assert forall|j: int| 0 <= j < s.len() implies !p(s.push(x)[j]) by {
                assert(s.push(x)[j] == s[j]);
            }
            if p(x) {
                assert(s.push(x)[s.len() as int] == x);
                lemma_first_is(s.push(x), p, s.len() as int);
            }
        },
    }
}

} // verus!
