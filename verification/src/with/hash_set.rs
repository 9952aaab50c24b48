//! The hash set of the standard library as a sequence: it is walked in the
//! order of its hasher and built by insertion.

use crate::deserialize::DeserializeError;
use crate::model::models;
use crate::model::Model;
use crate::with::as_vec::collect_items;
use crate::with::as_vec::gather;
use crate::with::as_vec::AsVecConverter;
use std::collections::HashSet;
use std::hash::BuildHasher;
use std::hash::Hash;
use vstd::prelude::*;
use vstd::std_specs::hash::builds_valid_hashers;
use vstd::std_specs::hash::obeys_key_model;
use vstd::std_specs::iter::IteratorSpec;

verus! {

/// Whether no two values of `T` have one model.
pub open spec fn model_injective<T: Model>() -> bool {
    forall|a: T, b: T| #[trigger] a.model() == #[trigger] b.model() ==> a == b
}

/// Whether Verus knows how hash collections of keys `K` under hashers `S`
/// behave, and tells any two keys apart by their models.
pub open spec fn hash_lawful<K: Model, S>() -> bool {
    obeys_key_model::<K>() && builds_valid_hashers::<S>() && model_injective::<K>()
}

/// The models of the items of a set.
pub open spec fn set_models<T: Model>(items: Set<T>) -> Set<T::M> {
    items.map(|item: T| item.model())
}

/// Every item of the set, once, in the order in which the set is walked.
/// As everywhere with hash collections, this is known only where the items
/// obey the key model and the hasher is valid.
fn hash_set_items<T, S>(set: &HashSet<T, S>) -> (items: Vec<&T>)
    ensures
        obeys_key_model::<T>() && builds_valid_hashers::<S>() ==> {
            &&& forall|i: int, j: int| 0 <= i < j < items@.len() ==> *items@[i] != *items@[j]
            &&& forall|i: int| 0 <= i < items@.len() ==> set@.contains(*#[trigger] items@[i])
            &&& forall|item: T| #[trigger]
                set@.contains(item) ==> exists|i: int| 0 <= i < items@.len() && *items@[i] == item
        },
{
    broadcast use vstd::std_specs::hash::group_hash_axioms;

    let count: usize = set.len();
    let walk = set.iter();
    let ghost all = walk.remaining();
    let items = gather(walk, count);
    proof {
        if obeys_key_model::<T>() && builds_valid_hashers::<S>() {
            assert(items@ =~= all);
            assert(all.unref().to_set() == set@);
            assert forall|i: int| 0 <= i < items@.len() implies set@.contains(
                *#[trigger] items@[i],
            ) by {
                assert(all.unref()[i] == *items@[i]);
                assert(all.unref().contains(*items@[i]));
            }
            assert forall|item: T| #[trigger] set@.contains(item) implies exists|i: int|
                0 <= i < items@.len() && *items@[i] == item by {
                assert(all.unref().contains(item));
                let i = choose|i: int| 0 <= i < all.unref().len() && all.unref()[i] == item;
                assert(*items@[i] == item);
            }
        }
    }
    items
}

impl<T: Model, S> Model for HashSet<T, S> {
    type M = Set<T::M>;

    /// The set of the items' models, where the set is lawful; where it is
    /// not, nothing is known of it and every set has the model of the empty
    /// one.
    open spec fn model(&self) -> Set<T::M> {
        if hash_lawful::<T, S>() {
            set_models(self@)
        } else {
            Set::empty()
        }
    }
}

/// A listing of the items of a lawful set lists the set's model: each model
/// once.
proof fn lemma_items_list_model<T: Model, S>(set: Set<T>, items: Seq<&T>)
    requires
        model_injective::<T>(),
        forall|i: int, j: int| 0 <= i < j < items.len() ==> *items[i] != *items[j],
        forall|i: int| 0 <= i < items.len() ==> set.contains(*#[trigger] items[i]),
        forall|item: T| #[trigger]
            set.contains(item) ==> exists|i: int| 0 <= i < items.len() && *items[i] == item,
    ensures
        models(items).no_duplicates(),
        models(items).to_set() == set_models(set),
{
    let listed = models(items);
    assert forall|i: int, j: int| 0 <= i < listed.len() && 0 <= j < listed.len() && i
        != j implies listed[i] != listed[j] by {
        if listed[i] == listed[j] {
            assert((*items[i]).model() == (*items[j]).model());
            if i < j {
                assert(*items[i] != *items[j]);
            } else {
                assert(*items[j] != *items[i]);
            }
        }
    }
    assert forall|m: T::M| listed.to_set().contains(m) <==> set_models(set).contains(m) by {
        if listed.to_set().contains(m) {
            let i = choose|i: int| 0 <= i < listed.len() && listed[i] == m;
            assert(set.contains(*items[i]));
            assert((*items[i]).model() == m);
        }
        if set_models(set).contains(m) {
            let item = choose|item: T| set.contains(item) && item.model() == m;
            let i = choose|i: int| 0 <= i < items.len() && *items[i] == item;
            assert(listed[i] == m);
        }
    }
    assert(listed.to_set() =~= set_models(set));
}

impl<T: Model + Eq + Hash, S: BuildHasher + Default> AsVecConverter for HashSet<T, S> {
    type Item = T;

    open spec fn lawful() -> bool {
        hash_lawful::<T, S>()
    }

    open spec fn lists(value: Set<T::M>, items: Seq<T::M>) -> bool {
        hash_lawful::<T, S>() ==> items.no_duplicates() && items.to_set() == value
    }

    /// Items that occur again in the list are in the set once.
    open spec fn built(items: Seq<T::M>) -> Set<T::M> {
        if hash_lawful::<T, S>() {
            items.to_set()
        } else {
            Set::empty()
        }
    }

    fn len(&self) -> (n: usize) {
        let items = hash_set_items(self);
        proof {
            if hash_lawful::<T, S>() {
                lemma_items_list_model::<T, S>(self@, items@);
                models(items@).unique_seq_to_set();
                assert forall|other: Seq<T::M>|
                    Self::lists(self.model(), other) implies #[trigger] other.len()
                    == items.len() by {
                    other.unique_seq_to_set();
                }
            }
        }
        items.len()
    }

    fn iter(&self) -> (items: Vec<&T>) {
        let items = hash_set_items(self);
        proof {
            if hash_lawful::<T, S>() {
                lemma_items_list_model::<T, S>(self@, items@);
            }
        }
        items
    }

    fn from(data: Vec<Result<T, DeserializeError>>) -> (r: Result<Self, DeserializeError>) {
        let items = match collect_items(data) {
            Ok(items) => items,
            Err(e) => { return Err(e); },
        };
        let ghost listed = models(items@);
        let mut set: HashSet<T, S> = HashSet::default();
        proof {
            assert(listed.take(0) =~= Seq::empty());
            assert(set_models(Set::<T>::empty()) =~= Set::<T::M>::empty());
            assert(Seq::<T::M>::empty().to_set() =~= Set::<T::M>::empty());
        }
        for item in it: items
            invariant
                listed == models(it.seq()),
                hash_lawful::<T, S>() ==> set_models(set@) == listed.take(it.index() as int).to_set(),
        {
            broadcast use vstd::std_specs::hash::group_hash_axioms;

            let ghost before = set@;
            let ghost seen = listed.take(it.index() as int);
            set.insert(item);
            proof {
                if hash_lawful::<T, S>() {
                    assert(listed.take(it.index() + 1) =~= seen.push(item.model()));
                    seen.lemma_push_to_set_commute(item.model());
                    before.lemma_set_map_insert_commute(item, |item: T| item.model());
                    assert(set_models(before.insert(item)) =~= set_models(before).insert(
                        item.model(),
                    ));
                }
            }
        }
        proof {
            assert(listed.take(listed.len() as int) =~= listed);
        }
        Ok(set)
    }

    proof fn lemma_built_from_listing(value: Set<T::M>, items: Seq<T::M>) {
    }
}

} // verus!
