//! Association lists: a table kept as a list of entries with distinct
//! keys, and the map that such a list stands for.
use vstd::prelude::*;

verus! {

/// Whether no key occurs twice in the list.
pub open spec fn distinct_keys<K, V>(list: Seq<(K, V)>) -> bool {
    forall|i: int, j: int| 0 <= i < j < list.len() ==> list[i].0 != list[j].0
}

/// Whether some entry of the list has the key.
pub open spec fn has_key<K, V>(list: Seq<(K, V)>, key: K) -> bool {
    exists|i: int| 0 <= i < list.len() && #[trigger] list[i].0 == key
}

/// The map that the list stands for; of two entries with one key the
/// later one counts.
pub open spec fn assoc_map<K, V>(list: Seq<(K, V)>) -> Map<K, V>
    decreases list.len(),
{
    if list.len() == 0 {
        Map::empty()
    } else {
        assoc_map(list.drop_last()).insert(list.last().0, list.last().1)
    }
}

/// The keys of the map are the keys of the entries.
pub proof fn lemma_assoc_keys<K, V>(list: Seq<(K, V)>, key: K)
    ensures
        assoc_map(list).contains_key(key) <==> has_key(list, key),
    decreases list.len(),
{
    if list.len() > 0 {
        let front = list.drop_last();
        lemma_assoc_keys(front, key);
        if has_key(list, key) {
            let i = choose|i: int| 0 <= i < list.len() && #[trigger] list[i].0 == key;
            if i < list.len() - 1 {
                assert(front[i].0 == key);
            }
        }
        if has_key(front, key) {
            let i = choose|i: int| 0 <= i < front.len() && #[trigger] front[i].0 == key;
            assert(list[i].0 == key);
        }
        if list.last().0 == key {
            assert(list[list.len() - 1].0 == key);
        }
    }
}

/// With distinct keys, the map holds under the key of an entry the
/// value of that entry.
pub proof fn lemma_assoc_lookup<K, V>(list: Seq<(K, V)>, i: int)
    requires
        distinct_keys(list),
        0 <= i < list.len(),
    ensures
        assoc_map(list).contains_key(list[i].0),
        assoc_map(list)[list[i].0] == list[i].1,
    decreases list.len(),
{
    let front = list.drop_last();
    if i < list.len() - 1 {
        assert(distinct_keys(front)) by {
            assert forall|a: int, b: int| 0 <= a < b < front.len() implies front[a].0
                != front[b].0 by {
                assert(list[a].0 != list[b].0);
            }
        }
        lemma_assoc_lookup(front, i);
        assert(front[i] == list[i]);
        assert(list[i].0 != list[list.len() - 1].0);
    }
}

/// Adding an entry under a new key adds it to the map and keeps the
/// keys distinct.
pub proof fn lemma_assoc_push<K, V>(list: Seq<(K, V)>, key: K, value: V)
    requires
        distinct_keys(list),
        !has_key(list, key),
    ensures
        distinct_keys(list.push((key, value))),
        assoc_map(list.push((key, value))) == assoc_map(list).insert(key, value),
{
    let longer = list.push((key, value));
    assert(longer.drop_last() == list);
    assert forall|a: int, b: int| 0 <= a < b < longer.len() implies longer[a].0 != longer[b].0 by {
        if b == list.len() {
            assert(list[a].0 != key);
        } else {
            assert(list[a].0 != list[b].0);
        }
    }
}

/// Replacing the value of an entry replaces it in the map and keeps the
/// keys distinct.
pub proof fn lemma_assoc_update<K, V>(list: Seq<(K, V)>, i: int, value: V)
    requires
        distinct_keys(list),
        0 <= i < list.len(),
    ensures
        distinct_keys(list.update(i, (list[i].0, value))),
        assoc_map(list.update(i, (list[i].0, value))) == assoc_map(list).insert(list[i].0, value),
    decreases list.len(),
{
    let key = list[i].0;
    let changed = list.update(i, (key, value));
    assert forall|a: int, b: int| 0 <= a < b < changed.len() implies changed[a].0
        != changed[b].0 by {
        assert(list[a].0 != list[b].0);
    }
    let front = list.drop_last();
    assert(distinct_keys(front)) by {
        assert forall|a: int, b: int| 0 <= a < b < front.len() implies front[a].0 != front[b].0 by {
            assert(list[a].0 != list[b].0);
        }
    }
    if i == list.len() - 1 {
        assert(changed.drop_last() == front);
        assert(assoc_map(changed) == assoc_map(front).insert(key, value));
        assert(assoc_map(list).insert(key, value) == assoc_map(front).insert(key, value));
    } else {
        lemma_assoc_update(front, i, value);
        assert(changed.drop_last() == front.update(i, (key, value)));
        assert(changed.last() == list.last());
        assert(list.last().0 != key) by {
            assert(list[i].0 != list[list.len() - 1].0);
        }
        assert(assoc_map(changed) == assoc_map(front).insert(key, value).insert(
            list.last().0,
            list.last().1,
        ));
        assert(assoc_map(changed) == assoc_map(list).insert(key, value));
    }
}

} // verus!
