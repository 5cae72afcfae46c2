use vstd::prelude::*;

verus! {

/// Whether some entry of `entries` stands under `key`.
pub open spec fn has_key<K, V>(entries: Seq<(K, V)>, key: K) -> bool {
    exists|i: int| 0 <= i < entries.len() && (#[trigger] entries[i]).0 == key
}

/// The place of an entry under `key`.
pub open spec fn place_of<K, V>(entries: Seq<(K, V)>, key: K) -> int {
    choose|i: int| 0 <= i < entries.len() && (#[trigger] entries[i]).0 == key
}

/// No two entries stand under the same key.
pub open spec fn distinct_keys<K, V>(entries: Seq<(K, V)>) -> bool {
    forall|i: int, j: int|
        0 <= i < j < entries.len() ==> (#[trigger] entries[i]).0 != (#[trigger] entries[j]).0
}

/// The map that a list of keyed entries stands for.
pub open spec fn to_map<K, V>(entries: Seq<(K, V)>) -> Map<K, V> {
    Map::new(|key: K| has_key(entries, key), |key: K| entries[place_of(entries, key)].1)
}

/// In a list without doubles each entry is found under its key.
pub proof fn lemma_entry<K, V>(entries: Seq<(K, V)>, i: int)
    requires
        distinct_keys(entries),
        0 <= i < entries.len(),
    ensures
        has_key(entries, entries[i].0),
        place_of(entries, entries[i].0) == i,
        to_map(entries).dom().contains(entries[i].0),
        to_map(entries)[entries[i].0] == entries[i].1,
{
    let key = entries[i].0;
    assert(has_key(entries, key));
    let k = place_of(entries, key);
    if k < i {
        assert(entries[k].0 != entries[i].0);
    } else if i < k {
        assert(entries[i].0 != entries[k].0);
    }
}

/// A key that no entry stands under is not in the map.
pub proof fn lemma_absent<K, V>(entries: Seq<(K, V)>, key: K)
    requires
        forall|i: int| 0 <= i < entries.len() ==> (#[trigger] entries[i]).0 != key,
    ensures
        !has_key(entries, key),
        !to_map(entries).dom().contains(key),
{
}

/// Replacing the value of entry `i` is an insertion under its key.
pub proof fn lemma_update<K, V>(entries: Seq<(K, V)>, i: int, value: V)
    requires
        distinct_keys(entries),
        0 <= i < entries.len(),
    ensures
        distinct_keys(entries.update(i, (entries[i].0, value))),
        to_map(entries.update(i, (entries[i].0, value))) == to_map(entries).insert(
            entries[i].0,
            value,
        ),
{
    let key = entries[i].0;
    let after = entries.update(i, (key, value));
    assert forall|a: int, b: int| 0 <= a < b < after.len() implies (#[trigger] after[a]).0 != (
    #[trigger] after[b]).0 by {
        assert(entries[a].0 != entries[b].0);
    }
    assert forall|k: K| has_key(after, k) == has_key(entries, k) by {
        if has_key(entries, k) {
            let p = place_of(entries, k);
            assert(after[p].0 == k);
        }
        if has_key(after, k) {
            let p = place_of(after, k);
            assert(entries[p].0 == k);
        }
    }
    assert forall|k: K| has_key(after, k) implies #[trigger] to_map(after)[k] == to_map(
        entries,
    ).insert(key, value)[k] by {
        let p = place_of(after, k);
        lemma_entry(after, p);
        lemma_entry(entries, p);
    }
    assert(to_map(after) =~= to_map(entries).insert(key, value));
}

/// Appending an entry under a key not yet used is an insertion.
pub proof fn lemma_push<K, V>(entries: Seq<(K, V)>, key: K, value: V)
    requires
        distinct_keys(entries),
        !has_key(entries, key),
    ensures
        distinct_keys(entries.push((key, value))),
        to_map(entries.push((key, value))) == to_map(entries).insert(key, value),
{
    let after = entries.push((key, value));
    assert forall|a: int, b: int| 0 <= a < b < after.len() implies (#[trigger] after[a]).0 != (
    #[trigger] after[b]).0 by {
        if b < entries.len() {
            assert(entries[a].0 != entries[b].0);
        } else {
            assert(entries[a].0 == after[a].0);
        }
    }
    assert forall|k: K| has_key(after, k) == (has_key(entries, k) || k == key) by {
        if has_key(entries, k) {
            let p = place_of(entries, k);
            assert(after[p].0 == k);
        }
        if k == key {
            assert(after[entries.len() as int].0 == k);
        }
        if has_key(after, k) {
            let p = place_of(after, k);
            if p < entries.len() {
                assert(entries[p].0 == k);
            }
        }
    }
    assert forall|k: K| has_key(after, k) implies #[trigger] to_map(after)[k] == to_map(
        entries,
    ).insert(key, value)[k] by {
        let p = place_of(after, k);
        lemma_entry(after, p);
        if p < entries.len() {
            lemma_entry(entries, p);
        }
    }
    assert(to_map(after) =~= to_map(entries).insert(key, value));
}

/// A list without doubles stands for a finite map with one key for each
/// entry.
pub proof fn lemma_len<K, V>(entries: Seq<(K, V)>)
    requires
        distinct_keys(entries),
    ensures
        to_map(entries).dom().finite(),
        to_map(entries).dom().len() == entries.len(),
    decreases entries.len(),
{
    if entries.len() == 0 {
        assert(to_map(entries).dom() =~= Set::<K>::empty());
    } else {
        let front = entries.drop_last();
        let last = entries.last();
        assert(distinct_keys(front)) by {
            assert forall|a: int, b: int| 0 <= a < b < front.len() implies (#[trigger] front[a]).0
                != (#[trigger] front[b]).0 by {
                assert(entries[a].0 != entries[b].0);
            }
        }
        assert(!has_key(front, last.0)) by {
            if has_key(front, last.0) {
                let p = place_of(front, last.0);
                assert(entries[p].0 != entries[entries.len() - 1].0);
            }
        }
        lemma_len(front);
        lemma_push(front, last.0, last.1);
        assert(front.push((last.0, last.1)) =~= entries);
        assert(to_map(entries).dom() =~= to_map(front).dom().insert(last.0));
    }
}

} // verus!
