//! Association lists read as maps: a later entry overrides an earlier one
//! with the same key.

use vstd::prelude::*;

verus! {

/// The map that a list of key/value pairs stands for.
pub open spec fn assoc_map<K, V>(entries: Seq<(K, V)>) -> Map<K, V>
    decreases entries.len(),
{
    if entries.len() == 0 {
        Map::empty()
    } else {
        assoc_map(entries.drop_last()).insert(entries.last().0, entries.last().1)
    }
}

/// True when `key` occurs at no position from `from` on.
pub open spec fn absent_from<K, V>(entries: Seq<(K, V)>, key: K, from: int) -> bool {
    forall|j: int| from <= j < entries.len() ==> (#[trigger] entries[j]).0 != key
}

/// True when no two entries share a key.
pub open spec fn distinct_keys<K, V>(entries: Seq<(K, V)>) -> bool {
    forall|i: int, j: int|
        0 <= i < j < entries.len() ==> (#[trigger] entries[i]).0 != (#[trigger] entries[j]).0
}

/// A key is in the map exactly when some entry carries it.
pub proof fn lemma_assoc_contains<K, V>(entries: Seq<(K, V)>, key: K)
    ensures
        assoc_map(entries).contains_key(key) <==> !absent_from(entries, key, 0),
    decreases entries.len(),
{
    if entries.len() > 0 {
        let init = entries.drop_last();
        lemma_assoc_contains(init, key);
        if entries.last().0 == key {
            assert(entries[entries.len() - 1].0 == key);
        } else if !absent_from(init, key, 0) {
            let j = choose|j: int| 0 <= j < init.len() && (#[trigger] init[j]).0 == key;
            assert(entries[j].0 == key);
        } else {
            assert forall|j: int| 0 <= j < entries.len() implies (#[trigger] entries[j]).0
                != key by {
                if j < init.len() {
                    assert(init[j].0 != key);
                }
            }
        }
    }
}

/// The map sends a key to the value of its last entry.
pub proof fn lemma_assoc_last<K, V>(entries: Seq<(K, V)>, i: int)
    requires
        0 <= i < entries.len(),
        absent_from(entries, entries[i].0, i + 1),
    ensures
        assoc_map(entries).contains_key(entries[i].0),
        assoc_map(entries)[entries[i].0] == entries[i].1,
    decreases entries.len(),
{
    if i < entries.len() - 1 {
        let init = entries.drop_last();
        assert(entries[entries.len() - 1].0 != entries[i].0);
        assert(init[i] == entries[i]);
        assert forall|j: int| i + 1 <= j < init.len() implies (#[trigger] init[j]).0
            != init[i].0 by {
            assert(init[j] == entries[j]);
        }
        lemma_assoc_last(init, i);
    }
}

/// Appending an entry inserts it into the map.
pub proof fn lemma_assoc_push<K, V>(entries: Seq<(K, V)>, key: K, value: V)
    ensures
        assoc_map(entries.push((key, value))) == assoc_map(entries).insert(key, value),
{
    assert(entries.push((key, value)).drop_last() =~= entries);
}

/// Replacing the value of the last entry of a key inserts the new value.
pub proof fn lemma_assoc_update<K, V>(entries: Seq<(K, V)>, i: int, value: V)
    requires
        0 <= i < entries.len(),
        absent_from(entries, entries[i].0, i + 1),
    ensures
        assoc_map(entries.update(i, (entries[i].0, value))) == assoc_map(entries).insert(
            entries[i].0,
            value,
        ),
    decreases entries.len(),
{
    let key = entries[i].0;
    let updated = entries.update(i, (key, value));
    let init = entries.drop_last();
    if i == entries.len() - 1 {
        assert(updated.drop_last() =~= init);
        assert(assoc_map(updated) =~= assoc_map(entries).insert(key, value));
    } else {
        assert(entries[entries.len() - 1].0 != key);
        assert(init[i] == entries[i]);
        assert forall|j: int| i + 1 <= j < init.len() implies (#[trigger] init[j]).0
            != init[i].0 by {
            assert(init[j] == entries[j]);
        }
        lemma_assoc_update(init, i, value);
        assert(updated.drop_last() =~= init.update(i, (key, value)));
        assert(updated.last() == entries.last());
        assert(assoc_map(updated) =~= assoc_map(entries).insert(key, value));
    }
}

/// The entries that are left when every entry with the key is taken out.
pub open spec fn without_key<K, V>(entries: Seq<(K, V)>, key: K) -> Seq<(K, V)> {
    entries.filter(|e: (K, V)| e.0 != key)
}

/// Taking a key out of a prefix that is one entry longer keeps that entry
/// unless it carries the key.
pub proof fn lemma_without_key_step<K, V>(entries: Seq<(K, V)>, key: K, n: int)
    requires
        0 <= n < entries.len(),
    ensures
        without_key(entries.take(n + 1), key) == if entries[n].0 != key {
            without_key(entries.take(n), key).push(entries[n])
        } else {
            without_key(entries.take(n), key)
        },
{
    reveal(Seq::filter);
    assert(entries.take(n + 1).drop_last() =~= entries.take(n));
}

/// Nothing is left of no entries.
pub proof fn lemma_without_key_empty<K, V>(entries: Seq<(K, V)>, key: K)
    ensures
        without_key(entries.take(0), key) == Seq::<(K, V)>::empty(),
{
    reveal(Seq::filter);
    assert(entries.take(0) =~= Seq::<(K, V)>::empty());
}

/// Taking a key out of the entries removes it from the map, and from the map
/// alone.
pub proof fn lemma_without_key_map<K, V>(entries: Seq<(K, V)>, key: K)
    ensures
        assoc_map(without_key(entries, key)) == assoc_map(entries).remove(key),
    decreases entries.len(),
{
    reveal(Seq::filter);
    if entries.len() == 0 {
        assert(assoc_map(entries).remove(key) =~= assoc_map(entries));
    } else {
        let init = entries.drop_last();
        let last = entries.last();
        lemma_without_key_map(init, key);
        if last.0 != key {
            lemma_assoc_push(without_key(init, key), last.0, last.1);
            assert(assoc_map(init).remove(key).insert(last.0, last.1) =~= assoc_map(
                init,
            ).insert(last.0, last.1).remove(key));
        } else {
            assert(assoc_map(init).remove(key) =~= assoc_map(init).insert(last.0, last.1).remove(
                key,
            ));
        }
    }
}

/// Every entry that is left was there before, at a position that is not
/// smaller.
pub proof fn lemma_without_key_source<K, V>(entries: Seq<(K, V)>, key: K, i: int) -> (j: int)
    requires
        0 <= i < without_key(entries, key).len(),
    ensures
        i <= j < entries.len(),
        entries[j] == without_key(entries, key)[i],
        entries[j].0 != key,
    decreases entries.len(),
{
    reveal(Seq::filter);
    let init = entries.drop_last();
    let last = entries.last();
    if last.0 != key && i == without_key(init, key).len() {
        entries.len() - 1
    } else {
        lemma_without_key_source(init, key, i)
    }
}

/// Taking a key out keeps the keys distinct.
pub proof fn lemma_without_key_distinct<K, V>(entries: Seq<(K, V)>, key: K)
    requires
        distinct_keys(entries),
    ensures
        distinct_keys(without_key(entries, key)),
    decreases entries.len(),
{
    reveal(Seq::filter);
    if entries.len() > 0 {
        let init = entries.drop_last();
        let last = entries.last();
        assert forall|a: int, b: int| 0 <= a < b < init.len() implies (#[trigger] init[a]).0 != (
        #[trigger] init[b]).0 by {
            assert(init[a] == entries[a]);
            assert(init[b] == entries[b]);
        }
        lemma_without_key_distinct(init, key);
        let kept = without_key(init, key);
        if last.0 != key {
            let out = kept.push(last);
            assert forall|a: int, b: int| 0 <= a < b < out.len() implies (#[trigger] out[a]).0 != (
            #[trigger] out[b]).0 by {
                if b == kept.len() {
                    let j = lemma_without_key_source(init, key, a);
                    assert(entries[j] == init[j]);
                    assert(entries[entries.len() - 1] == last);
                } else {
                    assert(kept[a] == out[a]);
                    assert(kept[b] == out[b]);
                }
            }
        }
    }
}

} // verus!
