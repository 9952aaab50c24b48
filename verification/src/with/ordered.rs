//! Collections of other crates that keep their entries in an order: the
//! index set and the index map, which keep an entry where it first stood,
//! and the linked hash map, which moves an entry that is written again to
//! the back. Numbers stand for their items.

use crate::deserialize::DeserializeError;
use crate::table::distinct_keys;
use crate::model::models;
use crate::model::Model;
use crate::with::as_map::AsMapConverter;
use crate::with::as_vec::collect_items;
use crate::with::as_vec::AsVecConverter;
use hashlink::DefaultHashBuilder;
use hashlink::LinkedHashMap;
use indexmap::IndexMap;
use indexmap::IndexSet;
use std::collections::hash_map::RandomState;
use vstd::prelude::*;

verus! {

#[verifier::external_type_specification]
#[verifier::external_body]
#[verifier::reject_recursive_types(T)]
#[verifier::reject_recursive_types(S)]
pub struct ExIndexSet<T, S>(IndexSet<T, S>);

#[verifier::external_type_specification]
#[verifier::external_body]
#[verifier::reject_recursive_types(K)]
#[verifier::reject_recursive_types(V)]
#[verifier::reject_recursive_types(S)]
pub struct ExIndexMap<K, V, S>(IndexMap<K, V, S>);

#[verifier::external_type_specification]
#[verifier::external_body]
#[verifier::reject_recursive_types(K)]
#[verifier::reject_recursive_types(V)]
#[verifier::reject_recursive_types(S)]
pub struct ExLinkedHashMap<K, V, S>(LinkedHashMap<K, V, S>);

#[verifier::external_type_specification]
#[verifier::external_body]
pub struct ExDefaultHashBuilder(DefaultHashBuilder);

/// The items of an index set, in its order.
pub uninterp spec fn index_set_items(set: IndexSet<u64, RandomState>) -> Seq<u64>;

/// The entries of an index map, in its order.
pub uninterp spec fn index_map_entries(map: IndexMap<u64, u64, RandomState>) -> Seq<(u64, u64)>;

/// The entries of a linked hash map, from front to back.
pub uninterp spec fn linked_map_entries(map: LinkedHashMap<u64, u64, DefaultHashBuilder>) -> Seq<
    (u64, u64),
>;

/// The place of `key` among `entries`, where it has one.
pub open spec fn place_of(entries: Seq<(u64, u64)>, key: u64) -> Option<int> {
    if exists|i: int| 0 <= i < entries.len() && (#[trigger] entries[i]).0 == key {
        Some(choose|i: int| 0 <= i < entries.len() && (#[trigger] entries[i]).0 == key)
    } else {
        None
    }
}

/// The entries after `key` is written with `value`, where a key that is
/// there keeps its place.
pub open spec fn written_in_place(entries: Seq<(u64, u64)>, key: u64, value: u64) -> Seq<
    (u64, u64),
> {
    match place_of(entries, key) {
        Some(i) => entries.update(i, (key, value)),
        None => entries.push((key, value)),
    }
}

/// The entries after `key` is written with `value`, where a key that is
/// there moves to the back.
pub open spec fn written_at_back(entries: Seq<(u64, u64)>, key: u64, value: u64) -> Seq<
    (u64, u64),
> {
    match place_of(entries, key) {
        Some(i) => entries.remove(i).push((key, value)),
        None => entries.push((key, value)),
    }
}

/// The items after `item` is added, where an item that is there stays as
/// it is.
pub open spec fn added_once(items: Seq<u64>, item: u64) -> Seq<u64> {
    if items.contains(item) {
        items
    } else {
        items.push(item)
    }
}

/// The index set that holds the items of `items`, added in their order.
pub open spec fn index_set_of(items: Seq<u64>) -> Seq<u64>
    decreases items.len(),
{
    if items.len() == 0 {
        Seq::empty()
    } else {
        added_once(index_set_of(items.drop_last()), items.last())
    }
}

/// The index map that holds `entries`, written in their order.
pub open spec fn index_map_of(entries: Seq<(u64, u64)>) -> Seq<(u64, u64)>
    decreases entries.len(),
{
    if entries.len() == 0 {
        Seq::empty()
    } else {
        written_in_place(index_map_of(entries.drop_last()), entries.last().0, entries.last().1)
    }
}

/// The linked hash map that holds `entries`, written in their order.
pub open spec fn linked_map_of(entries: Seq<(u64, u64)>) -> Seq<(u64, u64)>
    decreases entries.len(),
{
    if entries.len() == 0 {
        Seq::empty()
    } else {
        written_at_back(linked_map_of(entries.drop_last()), entries.last().0, entries.last().1)
    }
}

/// `IndexSet::default`: a set without items.
#[verifier::external_body]
fn index_set_new() -> (set: IndexSet<u64, RandomState>)
    ensures
        index_set_items(set) == Seq::<u64>::empty(),
{
    IndexSet::default()
}

/// `IndexSet::insert`: a new item goes to the end, one that is there stays
/// where it is.
#[verifier::external_body]
fn index_set_insert(set: &mut IndexSet<u64, RandomState>, item: u64)
    ensures
        index_set_items(*final(set)) == added_once(index_set_items(*old(set)), item),
{
    set.insert(item);
}

/// `IndexSet::iter`, gathered into a `Vec`: the items in the set's order,
/// each once.
#[verifier::external_body]
fn index_set_walk(set: &IndexSet<u64, RandomState>) -> (items: Vec<&u64>)
    ensures
        models(items@) == index_set_items(*set),
        models(items@).no_duplicates(),
{
    set.iter().collect()
}

/// `IndexMap::default`: a map without entries.
#[verifier::external_body]
fn index_map_new() -> (map: IndexMap<u64, u64, RandomState>)
    ensures
        index_map_entries(map) == Seq::<(u64, u64)>::empty(),
{
    IndexMap::default()
}

/// `IndexMap::insert`: a new key goes to the end, one that is there keeps
/// its place and takes the new value.
#[verifier::external_body]
fn index_map_insert(map: &mut IndexMap<u64, u64, RandomState>, key: u64, value: u64)
    ensures
        index_map_entries(*final(map)) == written_in_place(
            index_map_entries(*old(map)),
            key,
            value,
        ),
{
    map.insert(key, value);
}

/// `IndexMap::iter`, gathered into a `Vec`: the entries in the map's
/// order, each key once.
#[verifier::external_body]
fn index_map_walk(map: &IndexMap<u64, u64, RandomState>) -> (entries: Vec<(&u64, &u64)>)
    ensures
        models(entries@) == index_map_entries(*map),
        distinct_keys(models(entries@)),
{
    map.iter().collect()
}

/// `LinkedHashMap::default`: a map without entries.
#[verifier::external_body]
fn linked_map_new() -> (map: LinkedHashMap<u64, u64, DefaultHashBuilder>)
    ensures
        linked_map_entries(map) == Seq::<(u64, u64)>::empty(),
{
    LinkedHashMap::default()
}

/// `LinkedHashMap::insert`: the entry goes to the back, and an entry of
/// the same key that is there leaves its place.
#[verifier::external_body]
fn linked_map_insert(map: &mut LinkedHashMap<u64, u64, DefaultHashBuilder>, key: u64, value: u64)
    ensures
        linked_map_entries(*final(map)) == written_at_back(
            linked_map_entries(*old(map)),
            key,
            value,
        ),
{
    map.insert(key, value);
}

/// `LinkedHashMap::iter`, gathered into a `Vec`: the entries from front
/// to back, each key once.
#[verifier::external_body]
fn linked_map_walk(map: &LinkedHashMap<u64, u64, DefaultHashBuilder>) -> (entries: Vec<
    (&u64, &u64),
>)
    ensures
        models(entries@) == linked_map_entries(*map),
        distinct_keys(models(entries@)),
{
    map.iter().collect()
}

/// Adding items that are all different, in their order, gives the items.
pub proof fn lemma_index_set_of_distinct(items: Seq<u64>)
    requires
        items.no_duplicates(),
    ensures
        index_set_of(items) == items,
    decreases items.len(),
{
    if items.len() > 0 {
        let head = items.drop_last();
        lemma_index_set_of_distinct(head);
        if head.contains(items.last()) {
            let i = choose|i: int| 0 <= i < head.len() && head[i] == items.last();
            assert(items[i] == items[items.len() - 1]);
        }
        assert(head.push(items.last()) =~= items);
    }
}

/// Writing entries whose keys are all different, in their order, gives the
/// entries, whether a key that is there keeps its place or moves to the
/// back.
pub proof fn lemma_written_distinct(entries: Seq<(u64, u64)>)
    requires
        distinct_keys(entries),
    ensures
        index_map_of(entries) == entries,
        linked_map_of(entries) == entries,
    decreases entries.len(),
{
    if entries.len() > 0 {
        let head = entries.drop_last();
        assert forall|a: int, b: int| 0 <= a < b < head.len() implies head[a].0 != head[b].0 by {
            assert(entries[a].0 != entries[b].0);
        }
        lemma_written_distinct(head);
        if exists|i: int| 0 <= i < head.len() && (#[trigger] head[i]).0 == entries.last().0 {
            let i = choose|i: int| 0 <= i < head.len() && (#[trigger] head[i]).0 == entries.last().0;
            assert(entries[i].0 != entries[entries.len() - 1].0);
        }
        assert(head.push(entries.last()) =~= entries);
    }
}

impl Model for IndexSet<u64, RandomState> {
    type M = Seq<u64>;

    open spec fn model(&self) -> Seq<u64> {
        index_set_items(*self)
    }
}

impl AsVecConverter for IndexSet<u64, RandomState> {
    type Item = u64;

    open spec fn lawful() -> bool {
        true
    }

    open spec fn lists(value: Seq<u64>, items: Seq<u64>) -> bool {
        items == value && items.no_duplicates()
    }

    /// An item that occurs again stays where it first stood.
    open spec fn built(items: Seq<u64>) -> Seq<u64> {
        index_set_of(items)
    }

    fn len(&self) -> (n: usize) {
        index_set_walk(self).len()
    }

    fn iter(&self) -> (items: Vec<&u64>) {
        index_set_walk(self)
    }

    fn from(data: Vec<Result<u64, DeserializeError>>) -> (r: Result<Self, DeserializeError>) {
        let items = match collect_items(data) {
            Ok(items) => items,
            Err(e) => { return Err(e); },
        };
        let mut set = index_set_new();
        let mut i: usize = 0;
        assert(models(items@).take(0) =~= Seq::empty());
        while i < items.len()
            invariant
                i <= items.len(),
                index_set_items(set) == index_set_of(models(items@).take(i as int)),
            decreases items.len() - i,
        {
            proof {
                assert(models(items@).take(i + 1).drop_last() =~= models(items@).take(i as int));
            }
            index_set_insert(&mut set, items[i]);
            i += 1;
        }
        assert(models(items@).take(i as int) =~= models(items@));
        Ok(set)
    }

    proof fn lemma_built_from_listing(value: Seq<u64>, items: Seq<u64>) {
        lemma_index_set_of_distinct(items);
    }
}

impl Model for IndexMap<u64, u64, RandomState> {
    type M = Seq<(u64, u64)>;

    open spec fn model(&self) -> Seq<(u64, u64)> {
        index_map_entries(*self)
    }
}

impl AsMapConverter for IndexMap<u64, u64, RandomState> {
    type Key = u64;

    type Value = u64;

    open spec fn lawful() -> bool {
        true
    }

    open spec fn lists(value: Seq<(u64, u64)>, entries: Seq<(u64, u64)>) -> bool {
        entries == value && distinct_keys(entries)
    }

    /// Of two entries with one key the first one's place and the second
    /// one's value stay.
    open spec fn built(entries: Seq<(u64, u64)>) -> Seq<(u64, u64)> {
        index_map_of(entries)
    }

    fn len(&self) -> (n: usize) {
        index_map_walk(self).len()
    }

    fn iter(&self) -> (entries: Vec<(&u64, &u64)>) {
        index_map_walk(self)
    }

    fn from(data: Vec<Result<(u64, u64), DeserializeError>>) -> (r: Result<
        Self,
        DeserializeError,
    >) {
        let entries = match collect_items(data) {
            Ok(entries) => entries,
            Err(e) => { return Err(e); },
        };
        let mut map = index_map_new();
        let mut i: usize = 0;
        assert(models(entries@).take(0) =~= Seq::empty());
        while i < entries.len()
            invariant
                i <= entries.len(),
                index_map_entries(map) == index_map_of(models(entries@).take(i as int)),
            decreases entries.len() - i,
        {
            proof {
                assert(models(entries@).take(i + 1).drop_last() =~= models(entries@).take(
                    i as int,
                ));
            }
            index_map_insert(&mut map, entries[i].0, entries[i].1);
            i += 1;
        }
        assert(models(entries@).take(i as int) =~= models(entries@));
        Ok(map)
    }

    proof fn lemma_built_from_listing(value: Seq<(u64, u64)>, entries: Seq<(u64, u64)>) {
        lemma_written_distinct(entries);
    }
}

impl Model for LinkedHashMap<u64, u64, DefaultHashBuilder> {
    type M = Seq<(u64, u64)>;

    open spec fn model(&self) -> Seq<(u64, u64)> {
        linked_map_entries(*self)
    }
}

impl AsMapConverter for LinkedHashMap<u64, u64, DefaultHashBuilder> {
    type Key = u64;

    type Value = u64;

    open spec fn lawful() -> bool {
        true
    }

    open spec fn lists(value: Seq<(u64, u64)>, entries: Seq<(u64, u64)>) -> bool {
        entries == value && distinct_keys(entries)
    }

    /// Of two entries with one key the second one stays, at its own place.
    open spec fn built(entries: Seq<(u64, u64)>) -> Seq<(u64, u64)> {
        linked_map_of(entries)
    }

    fn len(&self) -> (n: usize) {
        linked_map_walk(self).len()
    }

    fn iter(&self) -> (entries: Vec<(&u64, &u64)>) {
        linked_map_walk(self)
    }

    fn from(data: Vec<Result<(u64, u64), DeserializeError>>) -> (r: Result<
        Self,
        DeserializeError,
    >) {
        let entries = match collect_items(data) {
            Ok(entries) => entries,
            Err(e) => { return Err(e); },
        };
        let mut map = linked_map_new();
        let mut i: usize = 0;
        assert(models(entries@).take(0) =~= Seq::empty());
        while i < entries.len()
            invariant
                i <= entries.len(),
                linked_map_entries(map) == linked_map_of(models(entries@).take(i as int)),
            decreases entries.len() - i,
        {
            proof {
                assert(models(entries@).take(i + 1).drop_last() =~= models(entries@).take(
                    i as int,
                ));
            }
            linked_map_insert(&mut map, entries[i].0, entries[i].1);
            i += 1;
        }
        assert(models(entries@).take(i as int) =~= models(entries@));
        Ok(map)
    }

    proof fn lemma_built_from_listing(value: Seq<(u64, u64)>, entries: Seq<(u64, u64)>) {
        lemma_written_distinct(entries);
    }
}

} // verus!
