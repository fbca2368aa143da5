//! Association-list record stores with finite-map views.
//!
//! Each storage index of the registry is a vector of key/value entries
//! with pairwise distinct keys. The spec-level view of such a vector is
//! the finite `Map` it represents; the lemmas here relate the exec
//! operations (linear search, append, in-place replacement) to `Map`
//! insertions.

use vstd::prelude::*;
use crate::types::{LocId, CollectionItemId};

verus! {

/// The finite map represented by an association list; a later entry
/// overrides an earlier one with the same key.
pub open spec fn assoc_map<K, V>(entries: Seq<(K, V)>) -> Map<K, V>
    decreases entries.len(),
{
    if entries.len() == 0 {
        Map::empty()
    } else {
        assoc_map(entries.drop_last()).insert(entries.last().0, entries.last().1)
    }
}

/// The same view for an index whose values are vectors, abstracted to
/// sequences.
pub open spec fn assoc_map_seqs<K, V>(entries: Seq<(K, Vec<V>)>) -> Map<K, Seq<V>>
    decreases entries.len(),
{
    if entries.len() == 0 {
        Map::empty()
    } else {
        assoc_map_seqs(entries.drop_last()).insert(entries.last().0, entries.last().1@)
    }
}

/// Some entry of the list carries the given key.
pub open spec fn assoc_has_key<K, V>(entries: Seq<(K, V)>, key: K) -> bool {
    exists|i: int| 0 <= i < entries.len() && entries[i].0 == key
}

/// No two entries of the list share a key.
pub open spec fn distinct_keys<K, V>(entries: Seq<(K, V)>) -> bool {
    forall|i: int, j: int| 0 <= i < j < entries.len() ==> entries[i].0 != entries[j].0
}

pub proof fn lemma_assoc_map_contains<K, V>(entries: Seq<(K, V)>, key: K)
    ensures
        assoc_map(entries).contains_key(key) <==> assoc_has_key(entries, key),
    decreases entries.len(),
{
    if entries.len() > 0 {
        lemma_assoc_map_contains(entries.drop_last(), key);
        if entries.last().0 == key {
            assert(entries[entries.len() - 1].0 == key);
        } else {
            if assoc_has_key(entries, key) {
                let i = choose|i: int| 0 <= i < entries.len() && entries[i].0 == key;
                assert(i < entries.len() - 1);
                assert(entries.drop_last()[i].0 == key);
            }
            if assoc_has_key(entries.drop_last(), key) {
                let i = choose|i: int|
                    0 <= i < entries.drop_last().len() && entries.drop_last()[i].0 == key;
                assert(entries[i].0 == key);
            }
        }
    }
}

pub proof fn lemma_assoc_map_seqs_contains<K, V>(entries: Seq<(K, Vec<V>)>, key: K)
    ensures
        assoc_map_seqs(entries).contains_key(key) <==> assoc_has_key(entries, key),
    decreases entries.len(),
{
    if entries.len() > 0 {
        lemma_assoc_map_seqs_contains(entries.drop_last(), key);
        if entries.last().0 == key {
            assert(entries[entries.len() - 1].0 == key);
        } else {
            if assoc_has_key(entries, key) {
                let i = choose|i: int| 0 <= i < entries.len() && entries[i].0 == key;
                assert(i < entries.len() - 1);
                assert(entries.drop_last()[i].0 == key);
            }
            if assoc_has_key(entries.drop_last(), key) {
                let i = choose|i: int|
                    0 <= i < entries.drop_last().len() && entries.drop_last()[i].0 == key;
                assert(entries[i].0 == key);
            }
        }
    }
}

pub proof fn lemma_assoc_map_index<K, V>(entries: Seq<(K, V)>, i: int)
    requires
        distinct_keys(entries),
        0 <= i < entries.len(),
    ensures
        assoc_map(entries).contains_key(entries[i].0),
        assoc_map(entries)[entries[i].0] == entries[i].1,
    decreases entries.len(),
{
    if i < entries.len() - 1 {
        assert(distinct_keys(entries.drop_last())) by {
            assert(forall|p: int, q: int|
                0 <= p < q < entries.drop_last().len() ==> entries.drop_last()[p]
                    == entries[p] && entries.drop_last()[q] == entries[q]);
        }
        lemma_assoc_map_index(entries.drop_last(), i);
        assert(entries.drop_last()[i] == entries[i]);
        assert(entries.last().0 != entries[i].0);
    }
}

pub proof fn lemma_assoc_map_seqs_index<K, V>(entries: Seq<(K, Vec<V>)>, i: int)
    requires
        distinct_keys(entries),
        0 <= i < entries.len(),
    ensures
        assoc_map_seqs(entries).contains_key(entries[i].0),
        assoc_map_seqs(entries)[entries[i].0] == entries[i].1@,
    decreases entries.len(),
{
    if i < entries.len() - 1 {
        assert(distinct_keys(entries.drop_last())) by {
            assert(forall|p: int, q: int|
                0 <= p < q < entries.drop_last().len() ==> entries.drop_last()[p]
                    == entries[p] && entries.drop_last()[q] == entries[q]);
        }
        lemma_assoc_map_seqs_index(entries.drop_last(), i);
        assert(entries.drop_last()[i] == entries[i]);
        assert(entries.last().0 != entries[i].0);
    }
}

pub proof fn lemma_assoc_map_push<K, V>(entries: Seq<(K, V)>, key: K, value: V)
    ensures
        assoc_map(entries.push((key, value))) == assoc_map(entries).insert(key, value),
        distinct_keys(entries) && !assoc_has_key(entries, key) ==> distinct_keys(
            entries.push((key, value)),
        ),
{
    assert(entries.push((key, value)).drop_last() =~= entries);
    if distinct_keys(entries) && !assoc_has_key(entries, key) {
        let pushed = entries.push((key, value));
        assert forall|i: int, j: int| 0 <= i < j < pushed.len() implies pushed[i].0
            != pushed[j].0 by {
            if j < entries.len() {
            } else {
                assert(pushed[i] == entries[i]);
            }
        }
    }
}

pub proof fn lemma_assoc_map_seqs_push<K, V>(entries: Seq<(K, Vec<V>)>, key: K, value: Vec<V>)
    ensures
        assoc_map_seqs(entries.push((key, value))) == assoc_map_seqs(entries).insert(key, value@),
        distinct_keys(entries) && !assoc_has_key(entries, key) ==> distinct_keys(
            entries.push((key, value)),
        ),
{
    assert(entries.push((key, value)).drop_last() =~= entries);
    if distinct_keys(entries) && !assoc_has_key(entries, key) {
        let pushed = entries.push((key, value));
        assert forall|i: int, j: int| 0 <= i < j < pushed.len() implies pushed[i].0
            != pushed[j].0 by {
            if j < entries.len() {
            } else {
                assert(pushed[i] == entries[i]);
            }
        }
    }
}

pub proof fn lemma_assoc_map_update<K, V>(entries: Seq<(K, V)>, i: int, value: V)
    requires
        distinct_keys(entries),
        0 <= i < entries.len(),
    ensures
        assoc_map(entries.update(i, (entries[i].0, value))) == assoc_map(entries).insert(
            entries[i].0,
            value,
        ),
        distinct_keys(entries.update(i, (entries[i].0, value))),
    decreases entries.len(),
{
    let key = entries[i].0;
    let updated = entries.update(i, (key, value));
    assert(distinct_keys(updated)) by {
        assert(forall|p: int| 0 <= p < entries.len() ==> updated[p].0 == entries[p].0);
    }
    if i == entries.len() - 1 {
        assert(updated.drop_last() =~= entries.drop_last());
        assert(assoc_map(updated) == assoc_map(entries.drop_last()).insert(key, value));
        assert(assoc_map(entries).insert(key, value) =~= assoc_map(entries.drop_last()).insert(
            key,
            value,
        ));
    } else {
        assert(distinct_keys(entries.drop_last())) by {
            assert(forall|p: int, q: int|
                0 <= p < q < entries.drop_last().len() ==> entries.drop_last()[p]
                    == entries[p] && entries.drop_last()[q] == entries[q]);
        }
        lemma_assoc_map_update(entries.drop_last(), i, value);
        assert(updated.drop_last() =~= entries.drop_last().update(i, (key, value)));
        assert(entries.last().0 != key);
        assert(assoc_map(updated) =~= assoc_map(entries).insert(key, value));
    }
}

pub proof fn lemma_assoc_map_seqs_update<K, V>(entries: Seq<(K, Vec<V>)>, i: int, value: Vec<V>)
    requires
        distinct_keys(entries),
        0 <= i < entries.len(),
    ensures
        assoc_map_seqs(entries.update(i, (entries[i].0, value))) == assoc_map_seqs(
            entries,
        ).insert(entries[i].0, value@),
        distinct_keys(entries.update(i, (entries[i].0, value))),
    decreases entries.len(),
{
    let key = entries[i].0;
    let updated = entries.update(i, (key, value));
    assert(distinct_keys(updated)) by {
        assert(forall|p: int| 0 <= p < entries.len() ==> updated[p].0 == entries[p].0);
    }
    if i == entries.len() - 1 {
        assert(updated.drop_last() =~= entries.drop_last());
        assert(assoc_map_seqs(updated) == assoc_map_seqs(entries.drop_last()).insert(key, value@));
        assert(assoc_map_seqs(entries).insert(key, value@) =~= assoc_map_seqs(
            entries.drop_last(),
        ).insert(key, value@));
    } else {
        assert(distinct_keys(entries.drop_last())) by {
            assert(forall|p: int, q: int|
                0 <= p < q < entries.drop_last().len() ==> entries.drop_last()[p]
                    == entries[p] && entries.drop_last()[q] == entries[q]);
        }
        lemma_assoc_map_seqs_update(entries.drop_last(), i, value);
        assert(updated.drop_last() =~= entries.drop_last().update(i, (key, value)));
        assert(entries.last().0 != key);
        assert(assoc_map_seqs(updated) =~= assoc_map_seqs(entries).insert(key, value@));
    }
}

/// Removing an entry and re-inserting one at the same position is an
/// update of the underlying sequence.
pub proof fn lemma_remove_insert_is_update<A>(s: Seq<A>, i: int, v: A)
    requires
        0 <= i < s.len(),
    ensures
        s.remove(i).insert(i, v) =~= s.update(i, v),
{
}

/// Linear search of an index keyed by a LOC or account identifier.
pub fn find_entry<V>(entries: &Vec<(u64, V)>, key: u64) -> (r: Option<usize>)
    ensures
        match r {
            Some(i) => i < entries@.len() && entries@[i as int].0 == key,
            None => !assoc_has_key(entries@, key),
        },
{
    let mut i: usize = 0;
    while i < entries.len()
        invariant
            i <= entries@.len(),
            forall|j: int| 0 <= j < i ==> entries@[j].0 != key,
        decreases entries@.len() - i,
    {
        if entries[i].0 == key {
            return Some(i);
        }
        i = i + 1;
    }
    None
}

/// Linear search of the collection-item index, keyed by the pair of a
/// collection LOC identifier and an item identifier.
pub fn find_item_entry<V>(
    entries: &Vec<((LocId, CollectionItemId), V)>,
    loc_id: LocId,
    item_id: CollectionItemId,
) -> (r: Option<usize>)
    ensures
        match r {
            Some(i) => i < entries@.len() && entries@[i as int].0 == (loc_id, item_id),
            None => !assoc_has_key(entries@, (loc_id, item_id)),
        },
{
    let mut i: usize = 0;
    while i < entries.len()
        invariant
            i <= entries@.len(),
            forall|j: int| 0 <= j < i ==> entries@[j].0 != (loc_id, item_id),
        decreases entries@.len() - i,
    {
        if entries[i].0.0 == loc_id && entries[i].0.1 == item_id {
            return Some(i);
        }
        i = i + 1;
    }
    None
}

} // verus!
