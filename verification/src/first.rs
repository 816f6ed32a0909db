//! The first element of a sequence that meets a condition.
//!
//! Tags are searched for the first one keyed `"Name"`, instances for the first
//! one with a given name, and records for the first one that lacks a field.
//! All three are the same question, asked here once.

use vstd::prelude::*;

verus! {

/// `k` is the position of the first element of `s` that meets `p`.
pub open spec fn is_first_where<A>(s: Seq<A>, p: spec_fn(A) -> bool, k: int) -> bool {
    &&& 0 <= k < s.len()
    &&& p(s[k])
    &&& forall|j: int| 0 <= j < k ==> !p(#[trigger] s[j])
}

/// The position of the first element of `s` that meets `p`, if there is one.
pub open spec fn first_where<A>(s: Seq<A>, p: spec_fn(A) -> bool) -> Option<int> {
    if exists|k: int| is_first_where(s, p, k) {
        Some(choose|k: int| is_first_where(s, p, k))
    } else {
        None
    }
}

/// At most one position is the first.
pub proof fn lemma_first_where_unique<A>(s: Seq<A>, p: spec_fn(A) -> bool, a: int, b: int)
    requires
        is_first_where(s, p, a),
        is_first_where(s, p, b),
    ensures
        a == b,
{
}

/// A position that meets `p` with none before it is what `first_where` gives.
pub proof fn lemma_first_where_found<A>(s: Seq<A>, p: spec_fn(A) -> bool, k: int)
    requires
        is_first_where(s, p, k),
    ensures
        first_where(s, p) == Some(k),
{
    let c = choose|c: int| is_first_where(s, p, c);
    lemma_first_where_unique(s, p, c, k);
}

/// Where something meets `p` at position `k`, a first such position exists at or before `k`.
pub proof fn lemma_first_where_exists<A>(s: Seq<A>, p: spec_fn(A) -> bool, k: int)
    requires
        0 <= k < s.len(),
        p(s[k]),
    ensures
        first_where(s, p) matches Some(f) && is_first_where(s, p, f) && f <= k,
    decreases k,
{
    if forall|j: int| 0 <= j < k ==> !p(#[trigger] s[j]) {
        lemma_first_where_found(s, p, k);
    } else {
        let j = choose|j: int| 0 <= j < k && p(#[trigger] s[j]);
        lemma_first_where_exists(s, p, j);
    }
}

/// `first_where` finds nothing exactly when nothing meets `p`.
pub proof fn lemma_first_where_none<A>(s: Seq<A>, p: spec_fn(A) -> bool)
    ensures
        first_where(s, p) is None <==> forall|j: int| 0 <= j < s.len() ==> !p(#[trigger] s[j]),
{
    if first_where(s, p) is None {
        assert forall|j: int| 0 <= j < s.len() implies !p(#[trigger] s[j]) by {
            if p(s[j]) {
                lemma_first_where_exists(s, p, j);
            }
        }
    }
}

} // verus!
