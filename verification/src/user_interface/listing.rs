//! Identifiers in the order in which a page lists them.

use itertools::Itertools;
use std::collections::HashMap;
use vstd::prelude::*;
use vstd::std_specs::hash::{group_hash_axioms, spec_keys_iter};
use vstd::std_specs::iter::IteratorSpec;

verus! {

/// No identifier is followed by a smaller one.
pub open spec fn ascending(ids: Seq<u32>) -> bool {
    forall|i: int, j: int| 0 <= i <= j < ids.len() ==> ids[i] <= ids[j]
}

/// `sorted` holds what `ids` holds, each identifier as often, in ascending
/// order.
pub open spec fn sorted_from(sorted: Seq<u32>, ids: Seq<u32>) -> bool {
    ascending(sorted) && sorted.to_multiset() == ids.to_multiset()
}

/// `itertools::Itertools::sorted`, on identifiers: the result holds the
/// identifiers that were given, each as often as it was given, and none of
/// them is followed by a smaller one.
#[verifier::external_body]
pub(crate) fn sorted_ids(ids: Vec<u32>) -> (sorted: Vec<u32>)
    ensures
        sorted_from(sorted@, ids@),
{
    ids.into_iter().sorted().collect()
}

/// The keys of a table, each once, in no particular order.
pub fn keys_of<V>(table: &HashMap<u32, V>) -> (keys: Vec<u32>)
    ensures
        keys@.no_duplicates(),
        keys@.to_set() == table@.dom(),
{
    broadcast use group_hash_axioms;

    let mut keys: Vec<u32> = Vec::new();
    for key in walk: table.keys()
        invariant
            walk.seq() == spec_keys_iter(table).remaining(),
            keys@.len() == walk.index(),
            forall|i: int| 0 <= i < keys@.len() ==> keys@[i] == *walk.seq()[i],
    {
        keys.push(*key);
    }
    proof {
        let all = spec_keys_iter(table).remaining();
        assert(keys@ =~= all.unref());
        assert(all.unref().no_duplicates());
    }
    keys
}

/// A sorted list mentions what the list it was sorted from mentions.
pub proof fn lemma_sorted_same_members(sorted: Seq<u32>, ids: Seq<u32>)
    requires
        sorted_from(sorted, ids),
    ensures
        sorted.len() == ids.len(),
        forall|id: u32| sorted.contains(id) <==> ids.contains(id),
        sorted.to_set() == ids.to_set(),
        ids.no_duplicates() ==> sorted.no_duplicates(),
{
    sorted.to_multiset_ensures();
    ids.to_multiset_ensures();
    assert forall|id: u32| sorted.contains(id) <==> ids.contains(id) by {
        assert(sorted.to_multiset().count(id) == ids.to_multiset().count(id));
    }
    assert(sorted.to_set() =~= ids.to_set());
    if ids.no_duplicates() {
        ids.lemma_multiset_has_no_duplicates();
        sorted.lemma_multiset_has_no_duplicates_conv();
    }
}

/// The keys of a table in ascending order.
pub fn sorted_keys<V>(table: &HashMap<u32, V>) -> (keys: Vec<u32>)
    ensures
        ascending(keys@),
        keys@.no_duplicates(),
        keys@.to_set() == table@.dom(),
{
    let unordered = keys_of(table);
    let ghost given = unordered@;
    let keys = sorted_ids(unordered);
    proof {
        lemma_sorted_same_members(keys@, given);
    }
    keys
}

/// There is one way only to sort a list.
pub proof fn lemma_sorted_is_unique(first: Seq<u32>, second: Seq<u32>, ids: Seq<u32>)
    requires
        sorted_from(first, ids),
        sorted_from(second, ids),
    ensures
        first == second,
{
    let leq = |a: u32, b: u32| a <= b;
    assert(vstd::relations::total_ordering(leq));
    assert(vstd::relations::sorted_by(first, leq));
    assert(vstd::relations::sorted_by(second, leq));
    vstd::seq_lib::lemma_sorted_unique(first, second, leq);
}

/// There is one way only to list a set of identifiers in ascending order.
pub proof fn lemma_ascending_is_unique(first: Seq<u32>, second: Seq<u32>)
    requires
        ascending(first),
        ascending(second),
        first.no_duplicates(),
        second.no_duplicates(),
        first.to_set() == second.to_set(),
    ensures
        first == second,
{
    first.to_multiset_ensures();
    second.to_multiset_ensures();
    first.lemma_multiset_has_no_duplicates();
    second.lemma_multiset_has_no_duplicates();
    assert forall|id: u32| first.to_multiset().count(id) == second.to_multiset().count(id) by {
        assert(first.contains(id) <==> first.to_set().contains(id));
        assert(second.contains(id) <==> second.to_set().contains(id));
        if first.contains(id) {
            assert(first.to_multiset().contains(id));
            assert(second.to_multiset().contains(id));
        }
    }
    assert(first.to_multiset() =~= second.to_multiset());
    lemma_sorted_is_unique(first, second, second);
}

} // verus!
