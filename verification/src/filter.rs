//! The filter predicate and the derived view: which catalog indices match a
//! query, and in what order.
use vstd::prelude::*;
use crate::catalog::{EntryView, entry_haystack};
use crate::text::{lower_seq, is_substring, contains_at};

verus! {

/// The filter predicate: an entry matches a query iff the query is empty or
/// the lowercased query is a contiguous substring of the entry's lowercased
/// haystack (category, command and description joined by spaces).
pub open spec fn query_matches(q: Seq<char>, e: EntryView) -> bool {
    q.len() == 0 || is_substring(lower_seq(q), entry_haystack(e))
}

/// The ordered sequence of indices of the catalog entries that match `q`:
/// a stable subsequence selection that preserves catalog order.
pub open spec fn matching_indices(catalog: Seq<EntryView>, q: Seq<char>) -> Seq<usize>
    decreases catalog.len(),
{
    if catalog.len() == 0 {
        Seq::empty()
    } else {
        matching_indices(catalog.drop_last(), q) + (if query_matches(q, catalog.last()) {
            seq![(catalog.len() - 1) as usize]
        } else {
            Seq::empty()
        })
    }
}

/// Order preservation: the filtered view is a subsequence of the catalog's
/// index range in strictly increasing order — filtering never reorders.
pub proof fn lemma_matching_indices_increasing(catalog: Seq<EntryView>, q: Seq<char>)
    requires
        catalog.len() <= usize::MAX,
    ensures
        forall|j: int|
            0 <= j < matching_indices(catalog, q).len() ==> (matching_indices(catalog, q)[j]
                as int) < catalog.len(),
        forall|a: int, b: int|
            0 <= a < b < matching_indices(catalog, q).len() ==> (matching_indices(catalog, q)[a]
                as int) < (matching_indices(catalog, q)[b] as int),
    decreases catalog.len(),
{
    if catalog.len() == 0 {
    } else {
        lemma_matching_indices_increasing(catalog.drop_last(), q);
        let f0 = matching_indices(catalog.drop_last(), q);
        let f = matching_indices(catalog, q);
        assert(forall|j: int| 0 <= j < f0.len() ==> f[j] == f0[j]);
        if query_matches(q, catalog.last()) {
            assert(f[f0.len() as int] as int == catalog.len() - 1);
        }
    }
}

/// Filter correctness: an index is in the filtered view iff it is a valid
/// catalog index and its entry matches the query.
pub proof fn lemma_matching_indices_membership(catalog: Seq<EntryView>, q: Seq<char>, idx: usize)
    requires
        catalog.len() <= usize::MAX,
    ensures
        matching_indices(catalog, q).contains(idx) <==> ((idx as int) < catalog.len()
            && query_matches(q, catalog[idx as int])),
    decreases catalog.len(),
{
    if catalog.len() == 0 {
    } else {
        lemma_matching_indices_membership(catalog.drop_last(), q, idx);
        let f0 = matching_indices(catalog.drop_last(), q);
        let f = matching_indices(catalog, q);
        assert(forall|j: int| 0 <= j < f0.len() ==> f[j] == f0[j]);
        if f0.contains(idx) {
            let j = choose|j: int| 0 <= j < f0.len() && f0[j] == idx;
            assert(f[j] == idx);
            assert(f.contains(idx));
        }
        if (idx as int) < catalog.len() - 1 {
            assert(catalog.drop_last()[idx as int] == catalog[idx as int]);
        }
        if (idx as int) == catalog.len() - 1 && query_matches(q, catalog.last()) {
            assert(f[f0.len() as int] == idx);
            assert(f.contains(idx));
        }
        if f.contains(idx) {
            let j = choose|j: int| 0 <= j < f.len() && f[j] == idx;
            if j < f0.len() {
                assert(f0[j] == idx);
                assert(f0.contains(idx));
            } else {
                assert(query_matches(q, catalog.last()));
                assert(idx as int == catalog.len() - 1);
            }
        }
    }
}

/// A non-empty query that matches an entry still matches after its last
/// character is removed: any prefix of a substring is a substring.
pub proof fn lemma_query_matches_prefix(q: Seq<char>, e: EntryView)
    requires
        q.len() > 0,
        query_matches(q, e),
    ensures
        query_matches(q.drop_last(), e),
{
    let q2 = q.drop_last();
    if q2.len() > 0 {
        assert(lower_seq(q2) =~= lower_seq(q).take(q.len() - 1));
        let h = entry_haystack(e);
        let i = choose|i: int| contains_at(h, lower_seq(q), i);
        assert(contains_at(h, lower_seq(q2), i));
    }
}

/// Removing the last character of a non-empty query can only widen the
/// filtered view: the new view is at least as long.
pub proof fn lemma_matching_indices_pop_len(catalog: Seq<EntryView>, q: Seq<char>)
    requires
        q.len() > 0,
    ensures
        matching_indices(catalog, q).len() <= matching_indices(catalog, q.drop_last()).len(),
    decreases catalog.len(),
{
    if catalog.len() == 0 {
    } else {
        lemma_matching_indices_pop_len(catalog.drop_last(), q);
        if query_matches(q, catalog.last()) {
            lemma_query_matches_prefix(q, catalog.last());
        }
    }
}

} // verus!
