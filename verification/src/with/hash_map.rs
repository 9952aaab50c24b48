//! The hash map of the standard library as a list of entries: it is walked
//! in the order of its hasher and built by insertion, so that of two
//! entries with one key the later one stays.

use crate::deserialize::DeserializeError;
use crate::table::distinct_keys;
use crate::table::lemma_listings_agree;
use crate::table::lemma_table_keys;
use crate::table::lemma_table_value;
use crate::table::table_of;
use crate::model::models;
use crate::model::Model;
use crate::with::as_map::AsMapConverter;
use crate::with::as_vec::collect_items;
use crate::with::as_vec::gather;
use crate::with::hash_set::hash_lawful;
use crate::with::hash_set::model_injective;
use std::collections::HashMap;
use std::hash::BuildHasher;
use std::hash::Hash;
use vstd::prelude::*;
use vstd::std_specs::iter::IteratorSpec;
use vstd::std_specs::hash::builds_valid_hashers;
use vstd::std_specs::hash::obeys_key_model;

verus! {

/// The key of `map` whose model is `key`.
pub open spec fn key_of<K: Model, V>(map: Map<K, V>, key: K::M) -> K {
    choose|k: K| map.contains_key(k) && k.model() == key
}

/// The models of the entries of a map.
pub open spec fn map_models<K: Model, V: Model>(map: Map<K, V>) -> Map<K::M, V::M> {
    Map::new(
        |key: K::M| exists|k: K| map.contains_key(k) && k.model() == key,
        |key: K::M| map[key_of(map, key)].model(),
    )
}

/// Every entry of the map, once, in the order in which the map is walked.
/// As everywhere with hash collections, this is known only where the keys
/// obey the key model and the hasher is valid.
fn hash_map_entries<K, V, S>(map: &HashMap<K, V, S>) -> (entries: Vec<(&K, &V)>)
    ensures
        obeys_key_model::<K>() && builds_valid_hashers::<S>() ==> {
            &&& forall|i: int, j: int|
                0 <= i < j < entries@.len() ==> *entries@[i].0 != *entries@[j].0
            &&& forall|i: int|
                0 <= i < entries@.len() ==> map@.contains_key(*(#[trigger] entries@[i]).0)
                    && map@[*entries@[i].0] == *entries@[i].1
            &&& forall|key: K| #[trigger]
                map@.contains_key(key) ==> exists|i: int|
                    0 <= i < entries@.len() && *entries@[i].0 == key
        },
{
    broadcast use vstd::std_specs::hash::group_hash_axioms;

    let count: usize = map.len();
    let walk = map.iter();
    let ghost all = walk.remaining();
    let entries = gather(walk, count);
    proof {
        if obeys_key_model::<K>() && builds_valid_hashers::<S>() {
            assert(entries@ =~= all);
            assert forall|i: int| 0 <= i < entries@.len() implies map@.contains_key(
                *(#[trigger] entries@[i]).0,
            ) && map@[*entries@[i].0] == *entries@[i].1 by {
                assert(map@.contains_key(*all[i].0) && map@[*all[i].0] == *all[i].1);
            }
            assert forall|i: int, j: int| 0 <= i < j < entries@.len() implies *entries@[i].0
                != *entries@[j].0 by {
                assert(map@.contains_key(*all[i].0) && map@[*all[i].0] == *all[i].1);
                assert(map@.contains_key(*all[j].0) && map@[*all[j].0] == *all[j].1);
                assert(all[i] != all[j]);
            }
            assert forall|key: K| #[trigger] map@.contains_key(key) implies exists|i: int|
                0 <= i < entries@.len() && *entries@[i].0 == key by {
                assert(all.contains((&key, &map@[key])));
                let i = choose|i: int| 0 <= i < all.len() && all[i] == (&key, &map@[key]);
                assert(*entries@[i].0 == key);
            }
        }
    }
    entries
}

impl<K: Model, V: Model, S> Model for HashMap<K, V, S> {
    type M = Map<K::M, V::M>;

    /// The map of the entries' models, where the map is lawful; where it is
    /// not, nothing is known of it and every map has the model of the empty
    /// one.
    open spec fn model(&self) -> Map<K::M, V::M> {
        if hash_lawful::<K, S>() {
            map_models(self@)
        } else {
            Map::empty()
        }
    }
}

/// A listing of the entries of a lawful map lists the map's model: each key
/// once, with its value.
proof fn lemma_entries_list_model<K: Model, V: Model>(map: Map<K, V>, entries: Seq<(&K, &V)>)
    requires
        model_injective::<K>(),
        forall|i: int, j: int| 0 <= i < j < entries.len() ==> *entries[i].0 != *entries[j].0,
        forall|i: int|
            0 <= i < entries.len() ==> map.contains_key(*(#[trigger] entries[i]).0)
                && map[*entries[i].0] == *entries[i].1,
        forall|key: K| #[trigger]
            map.contains_key(key) ==> exists|i: int| 0 <= i < entries.len() && *entries[i].0 == key,
    ensures
        distinct_keys(models(entries)),
        table_of(models(entries)) == map_models(map),
{
    let listed = models(entries);
    assert forall|i: int, j: int| 0 <= i < j < listed.len() implies listed[i].0
        != listed[j].0 by {
        if listed[i].0 == listed[j].0 {
            assert((*entries[i].0).model() == (*entries[j].0).model());
            assert(*entries[i].0 != *entries[j].0);
        }
    }
    let table = table_of(listed);
    let model = map_models(map);
    assert forall|key: K::M| table.contains_key(key) <==> model.contains_key(key) by {
        lemma_table_keys(listed, key);
        if table.contains_key(key) {
            let i = choose|i: int| 0 <= i < listed.len() && (#[trigger] listed[i]).0 == key;
            assert(map.contains_key(*entries[i].0));
            assert((*entries[i].0).model() == key);
        }
        if model.contains_key(key) {
            let k = choose|k: K| map.contains_key(k) && k.model() == key;
            let i = choose|i: int| 0 <= i < entries.len() && *entries[i].0 == k;
            assert(listed[i].0 == key);
        }
    }
    assert forall|key: K::M| table.contains_key(key) implies table[key] == model[key] by {
        lemma_table_keys(listed, key);
        let i = choose|i: int| 0 <= i < listed.len() && (#[trigger] listed[i]).0 == key;
        lemma_table_value(listed, i);
        assert(map.contains_key(*entries[i].0));
        assert((*entries[i].0).model() == key);
        assert(key_of(map, key).model() == (*entries[i].0).model());
        assert(key_of(map, key) == *entries[i].0);
    }
    assert(table =~= model);
}

/// The model of a lawful map with one more entry is the model of the map
/// with the model of the entry.
proof fn lemma_model_insert<K: Model, V: Model>(map: Map<K, V>, key: K, value: V)
    requires
        model_injective::<K>(),
    ensures
        map_models(map.insert(key, value)) == map_models(map).insert(key.model(), value.model()),
{
    let after = map.insert(key, value);
    let lhs = map_models(after);
    let rhs = map_models(map).insert(key.model(), value.model());
    assert forall|m: K::M| lhs.contains_key(m) <==> rhs.contains_key(m) by {
        if lhs.contains_key(m) {
            let k = choose|k: K| after.contains_key(k) && k.model() == m;
            if k != key {
                assert(map.contains_key(k));
            }
        }
        if rhs.contains_key(m) {
            if m == key.model() {
                assert(after.contains_key(key));
            } else {
                let k = choose|k: K| map.contains_key(k) && k.model() == m;
                assert(after.contains_key(k));
            }
        }
    }
    assert forall|m: K::M| lhs.contains_key(m) implies lhs[m] == rhs[m] by {
        let k = key_of(after, m);
        assert(after.contains_key(k) && k.model() == m);
        if m == key.model() {
            assert(k.model() == key.model());
            assert(k == key);
        } else {
            assert(k != key);
            assert(map.contains_key(k));
            let k2 = key_of(map, m);
            assert(k2.model() == k.model());
            assert(k2 == k);
        }
    }
    assert(lhs =~= rhs);
}

impl<K: Model + Eq + Hash, V: Model, S: BuildHasher + Default> AsMapConverter for HashMap<
    K,
    V,
    S,
> {
    type Key = K;

    type Value = V;

    open spec fn lawful() -> bool {
        hash_lawful::<K, S>()
    }

    open spec fn lists(value: Map<K::M, V::M>, entries: Seq<(K::M, V::M)>) -> bool {
        hash_lawful::<K, S>() ==> distinct_keys(entries) && table_of(entries) == value
    }

    /// Of two entries with one key the later one stays.
    open spec fn built(entries: Seq<(K::M, V::M)>) -> Map<K::M, V::M> {
        if hash_lawful::<K, S>() {
            table_of(entries)
        } else {
            Map::empty()
        }
    }

    fn len(&self) -> (n: usize) {
        let entries = hash_map_entries(self);
        proof {
            if hash_lawful::<K, S>() {
                lemma_entries_list_model::<K, V>(self@, entries@);
                assert forall|other: Seq<(K::M, V::M)>|
                    Self::lists(self.model(), other) implies #[trigger] other.len()
                    == entries.len() by {
                    lemma_listings_agree(models(entries@), other);
                }
            }
        }
        entries.len()
    }

    fn iter(&self) -> (entries: Vec<(&K, &V)>) {
        let entries = hash_map_entries(self);
        proof {
            if hash_lawful::<K, S>() {
                lemma_entries_list_model::<K, V>(self@, entries@);
            }
        }
        entries
    }

    fn from(data: Vec<Result<(K, V), DeserializeError>>) -> (r: Result<Self, DeserializeError>) {
        let entries = match collect_items(data) {
            Ok(entries) => entries,
            Err(e) => { return Err(e); },
        };
        let ghost listed = models(entries@);
        let mut map: HashMap<K, V, S> = HashMap::default();
        proof {
            assert(listed.take(0) =~= Seq::empty());
            assert(map_models(Map::<K, V>::empty()) =~= Map::<K::M, V::M>::empty());
        }
        for entry in it: entries
            invariant
                listed == models(it.seq()),
                hash_lawful::<K, S>() ==> map_models(map@) == table_of(
                    listed.take(it.index() as int),
                ),
        {
            broadcast use vstd::std_specs::hash::group_hash_axioms;

            let ghost before = map@;
            let ghost seen = listed.take(it.index() as int);
            let ghost pair = entry.model();
            let (key, value) = entry;
            proof {
                if hash_lawful::<K, S>() {
                    let next = listed.take(it.index() + 1);
                    assert(next.drop_last() =~= seen);
                    assert(next.last() == pair);
                    lemma_model_insert::<K, V>(before, key, value);
                }
            }
            map.insert(key, value);
        }
        proof {
            assert(listed.take(listed.len() as int) =~= listed);
        }
        Ok(map)
    }

    proof fn lemma_built_from_listing(value: Map<K::M, V::M>, entries: Seq<(K::M, V::M)>) {
    }
}

} // verus!
