//! The registry of validation routines: from table reference to the
//! routine that checks the archived form of the concrete type.

use crate::deserialize::CacheableDeserializer;
use crate::deserialize::Deserialize;
use crate::deserialize::DeserializeError;
use crate::table::build_table;
use crate::table::distinct_keys;
use crate::table::table_of;
use std::collections::HashMap;
use vstd::prelude::*;

verus! {

/// Checks `bytes` as the archived form of a `T`. Any failure is a
/// validation failure.
pub fn default_check_bytes_dyn<T: Deserialize<C>, C>(
    bytes: &[u8],
    deserializer: &CacheableDeserializer<'_, C>,
) -> (r: Result<(), DeserializeError>)
    ensures
        r is Ok <==> T::restores(bytes@, deserializer.ctx()) is Ok,
        r matches Err(e) ==> e is CheckBytesError,
{
    match T::deserialize(bytes, deserializer) {
        Ok(_) => Ok(()),
        Err(_) => Err(DeserializeError::CheckBytesError),
    }
}

/// One registration: archived values of the table `vtable` are checked by
/// `check_bytes_dyn`.
pub struct CheckBytesEntry<F> {
    vtable: usize,
    check_bytes_dyn: F,
}

impl<F> CheckBytesEntry<F> {
    /// The registration as a pair of table reference and routine.
    pub closed spec fn pair(self) -> (usize, F) {
        (self.vtable, self.check_bytes_dyn)
    }

    pub fn new(vtable: usize, check_bytes_dyn: F) -> (entry: Self)
        ensures
            entry.pair() == (vtable, check_bytes_dyn),
    {
        Self { vtable, check_bytes_dyn }
    }
}

/// The registrations of a list of entries, in its order.
pub open spec fn check_registrations<F>(entries: Seq<CheckBytesEntry<F>>) -> Seq<(usize, F)> {
    Seq::new(entries.len(), |i: int| entries[i].pair())
}

/// The registry of routines by table reference.
pub struct CheckBytesRegistry<F> {
    routines: HashMap<usize, F>,
}

impl<F> View for CheckBytesRegistry<F> {
    type V = Map<usize, F>;

    closed spec fn view(&self) -> Map<usize, F> {
        self.routines@
    }
}

impl<F> CheckBytesRegistry<F> {
    /// Builds the registry from all registrations. Two registrations of one
    /// table reference make the list unusable: no registry is built from it.
    pub fn build(entries: Vec<CheckBytesEntry<F>>) -> (registry: Option<Self>)
        ensures
            match registry {
                Some(registry) => distinct_keys(check_registrations(entries@)) && registry@
                    == table_of(check_registrations(entries@)),
                None => !distinct_keys(check_registrations(entries@)),
            },
    {
        broadcast use vstd::std_specs::hash::group_hash_axioms;

        let mut pairs: Vec<(usize, F)> = Vec::new();
        let ghost all = check_registrations(entries@);
        proof {
            assert(all.take(0) =~= pairs@);
        }
        for entry in it: entries
            invariant
                all == check_registrations(it.seq()),
                pairs@ == all.take(it.index() as int),
        {
            pairs.push((entry.vtable, entry.check_bytes_dyn));
            assert(pairs@ =~= all.take(it.index() + 1));
        }
        assert(pairs@ =~= all);
        match build_table(pairs) {
            Some(routines) => Some(CheckBytesRegistry { routines }),
            None => None,
        }
    }

    /// The routine registered for `vtable`, if one is.
    pub fn get(&self, vtable: usize) -> (routine: Option<&F>)
        ensures
            match routine {
                Some(routine) => self@.contains_key(vtable) && *routine == self@[vtable],
                None => !self@.contains_key(vtable),
            },
    {
        broadcast use vstd::std_specs::hash::group_hash_axioms;

        self.routines.get(&vtable)
    }
}

} // verus!
