//! Which row of a list a lookup finds: the first or the last one that matches.

use vstd::prelude::*;

verus! {

/// The index of the last element of `s` that satisfies `p`.
pub open spec fn last_where<T>(s: Seq<T>, p: spec_fn(T) -> bool) -> Option<int>
    decreases s.len(),
{
    if s.len() == 0 {
        None
    } else if p(s.last()) {
        Some(s.len() - 1)
    } else {
        last_where(s.drop_last(), p)
    }
}

/// The index of the first element of `s` that satisfies `p`.
pub open spec fn first_where<T>(s: Seq<T>, p: spec_fn(T) -> bool) -> Option<int>
    decreases s.len(),
{
    if s.len() == 0 {
        None
    } else {
        match first_where(s.drop_last(), p) {
            Some(i) => Some(i),
            None => if p(s.last()) {
                Some(s.len() - 1)
            } else {
                None
            },
        }
    }
}

/// `last_where` finds the last match, and finds none only when nothing matches.
pub proof fn lemma_last_where<T>(s: Seq<T>, p: spec_fn(T) -> bool)
    ensures
        match last_where(s, p) {
            Some(i) => 0 <= i < s.len() && p(s[i]) && forall|j: int| i < j < s.len() ==> !p(#[trigger] s[j]),
            None => forall|j: int| 0 <= j < s.len() ==> !p(#[trigger] s[j]),
        },
    decreases s.len(),
{
    if s.len() > 0 {
        lemma_last_where(s.drop_last(), p);
        assert forall|j: int| 0 <= j < s.len() - 1 implies s.drop_last()[j] == s[j] by {}
    }
}

/// `first_where` finds the first match, and finds none only when nothing matches.
pub proof fn lemma_first_where<T>(s: Seq<T>, p: spec_fn(T) -> bool)
    ensures
        match first_where(s, p) {
            Some(i) => 0 <= i < s.len() && p(s[i]) && forall|j: int| 0 <= j < i ==> !p(#[trigger] s[j]),
            None => forall|j: int| 0 <= j < s.len() ==> !p(#[trigger] s[j]),
        },
    decreases s.len(),
{
    if s.len() > 0 {
        lemma_first_where(s.drop_last(), p);
        assert forall|j: int| 0 <= j < s.len() - 1 implies s.drop_last()[j] == s[j] by {}
    }
}

/// A match found in a prefix is the first match of the whole sequence.
pub proof fn lemma_first_where_prefix<T>(s: Seq<T>, p: spec_fn(T) -> bool, k: int, i: int)
    requires
        0 <= k <= s.len(),
        first_where(s.take(k), p) == Some(i),
    ensures
        first_where(s, p) == Some(i),
    decreases s.len() - k,
{
    if k < s.len() {
        assert(s.take(k + 1).drop_last() =~= s.take(k));
        lemma_first_where_prefix(s, p, k + 1, i);
    } else {
        assert(s.take(k) =~= s);
    }
}

} // verus!
