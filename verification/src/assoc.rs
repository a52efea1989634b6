//! Association lists keyed by strings, as a mathematical model.
//!
//! The tree and its namespaces are stored as vectors of `(key, value)` pairs.
//! This module says which map such a sequence of pairs stands for and proves
//! the facts the executable code relies on.

use vstd::prelude::*;

verus! {

/// A key of the model: the characters of a namespace or property name.
pub type Key = Seq<char>;

/// The map a sequence of pairs stands for: the pairs are entered one after
/// another, so a later pair replaces an earlier one with the same key.
pub open spec fn assoc_map<V>(pairs: Seq<(Key, V)>) -> Map<Key, V>
    decreases pairs.len(),
{
    if pairs.len() == 0 {
        Map::empty()
    } else {
        assoc_map(pairs.drop_last()).insert(pairs.last().0, pairs.last().1)
    }
}

/// No key occurs twice among the pairs.
pub open spec fn distinct_keys<V>(pairs: Seq<(Key, V)>) -> bool {
    forall|i: int, j: int|
        0 <= i < j < pairs.len() ==> (#[trigger] pairs[i]).0 != (#[trigger] pairs[j]).0
}

/// The key occurs among the pairs.
pub open spec fn has_key<V>(pairs: Seq<(Key, V)>, key: Key) -> bool {
    exists|i: int| 0 <= i < pairs.len() && (#[trigger] pairs[i]).0 == key
}

/// Appending a pair enters it into the map.
pub proof fn lemma_assoc_map_push<V>(pairs: Seq<(Key, V)>, key: Key, value: V)
    ensures
        assoc_map(pairs.push((key, value))) == assoc_map(pairs).insert(key, value),
{
    let longer = pairs.push((key, value));
    assert(longer.drop_last() =~= pairs);
}

/// The keys of the map are exactly the keys that occur among the pairs.
pub proof fn lemma_assoc_map_dom<V>(pairs: Seq<(Key, V)>, key: Key)
    ensures
        assoc_map(pairs).contains_key(key) <==> has_key(pairs, key),
    decreases pairs.len(),
{
    if pairs.len() > 0 {
        let front = pairs.drop_last();
        lemma_assoc_map_dom(front, key);
        if has_key(pairs, key) {
            let i = choose|i: int| 0 <= i < pairs.len() && (#[trigger] pairs[i]).0 == key;
            if i < pairs.len() - 1 {
                assert(front[i].0 == key);
            }
        }
    }
}

/// Where no key occurs twice, each pair's key maps to that pair's value.
pub proof fn lemma_assoc_map_index<V>(pairs: Seq<(Key, V)>, i: int)
    requires
        distinct_keys(pairs),
        0 <= i < pairs.len(),
    ensures
        assoc_map(pairs).contains_key(pairs[i].0),
        assoc_map(pairs)[pairs[i].0] == pairs[i].1,
    decreases pairs.len(),
{
    let front = pairs.drop_last();
    if i < pairs.len() - 1 {
        assert(distinct_keys(front));
        lemma_assoc_map_index(front, i);
    }
}

/// Where no key occurs twice, replacing the value of one pair replaces the
/// value of its key in the map.
pub proof fn lemma_assoc_map_update<V>(pairs: Seq<(Key, V)>, i: int, value: V)
    requires
        distinct_keys(pairs),
        0 <= i < pairs.len(),
    ensures
        distinct_keys(pairs.update(i, (pairs[i].0, value))),
        assoc_map(pairs.update(i, (pairs[i].0, value))) == assoc_map(pairs).insert(
            pairs[i].0,
            value,
        ),
    decreases pairs.len(),
{
    let key = pairs[i].0;
    let changed = pairs.update(i, (key, value));
    assert(distinct_keys(changed));
    let front = pairs.drop_last();
    if i == pairs.len() - 1 {
        assert(changed.drop_last() =~= front);
    } else {
        assert(distinct_keys(front));
        lemma_assoc_map_update(front, i, value);
        assert(changed.drop_last() =~= front.update(i, (key, value)));
    }
}

} // verus!
