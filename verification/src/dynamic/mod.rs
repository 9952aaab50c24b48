//! Values that are known only through an interface: the registry that maps
//! the identifier of a concrete type to its table reference, and the header
//! that tags an archived value with that identifier.

pub mod dispatch;
pub mod validation;

use crate::deserialize::DeserializeError;

use crate::table::build_table;
use crate::table::distinct_keys;
use crate::table::table_of;
use std::collections::HashMap;
use vstd::bytes::spec_u64_from_le_bytes;
use vstd::bytes::spec_u64_to_le_bytes;
use vstd::bytes::u64_from_le_bytes;
use vstd::bytes::u64_to_le_bytes;
use vstd::prelude::*;
use vstd::slice::slice_subrange;

pub use dispatch::deserialize_dyn_value;
pub use dispatch::serialize_dyn_value;
pub use dispatch::DeserializeDyn;
pub use dispatch::SerializeDyn;
pub use validation::default_check_bytes_dyn;
pub use validation::CheckBytesEntry;
pub use validation::CheckBytesRegistry;

verus! {

/// One registration: the concrete type `dyn_id` uses the table `vtable`.
pub struct DynEntry {
    dyn_id: u64,
    vtable: usize,
}

impl DynEntry {
    /// The registration as a pair of identifier and table reference.
    pub closed spec fn pair(self) -> (u64, usize) {
        (self.dyn_id, self.vtable)
    }

    pub fn new(dyn_id: u64, vtable: usize) -> (entry: Self)
        ensures
            entry.pair() == (dyn_id, vtable),
    {
        Self { dyn_id, vtable }
    }
}

/// The registrations of a list of entries, in its order.
pub open spec fn registrations(entries: Seq<DynEntry>) -> Seq<(u64, usize)> {
    Seq::new(entries.len(), |i: int| entries[i].pair())
}

/// The registry of concrete types: from type identifier to table reference.
pub struct DynRegistry {
    tables: HashMap<u64, usize>,
}

impl View for DynRegistry {
    type V = Map<u64, usize>;

    closed spec fn view(&self) -> Map<u64, usize> {
        self.tables@
    }
}

impl DynRegistry {
    /// Builds the registry from all registrations. Two registrations of one
    /// identifier make the list unusable: no registry is built from it.
    pub fn build(entries: &Vec<DynEntry>) -> (registry: Option<Self>)
        ensures
            match registry {
                Some(registry) => distinct_keys(registrations(entries@)) && registry@ == table_of(
                    registrations(entries@),
                ),
                None => !distinct_keys(registrations(entries@)),
            },
    {
        broadcast use vstd::std_specs::hash::group_hash_axioms;

        let mut pairs: Vec<(u64, usize)> = Vec::new();
        let mut i: usize = 0;
        while i < entries.len()
            invariant
                i <= entries.len(),
                pairs@ == registrations(entries@).take(i as int),
            decreases entries.len() - i,
        {
            pairs.push((entries[i].dyn_id, entries[i].vtable));
            assert(pairs@ =~= registrations(entries@).take(i + 1));
            i += 1;
        }
        assert(pairs@ =~= registrations(entries@));
        match build_table(pairs) {
            Some(tables) => Some(DynRegistry { tables }),
            None => None,
        }
    }

    /// The table reference registered for `dyn_id`, if one is.
    pub fn get(&self, dyn_id: u64) -> (vtable: Option<usize>)
        ensures
            vtable == (if self@.contains_key(dyn_id) {
                Some(self@[dyn_id])
            } else {
                None
            }),
    {
        broadcast use vstd::std_specs::hash::group_hash_axioms;

        match self.tables.get(&dyn_id) {
            Some(vtable) => Some(*vtable),
            None => None,
        }
    }
}

/// The number of bytes of the header of an archived polymorphic value.
pub const DYN_METADATA_SIZE: usize = 16;

/// The header of an archived polymorphic value: the identifier of the
/// concrete type, and a table reference that a reader may have cached, which
/// a writer leaves at zero.
pub struct ArchivedDynMetadata {
    dyn_id: u64,
    cached_vtable: u64,
}

/// The bytes of a header: the identifier, then the cached table reference,
/// each least significant byte first.
pub open spec fn header_bytes(dyn_id: u64, cached_vtable: u64) -> Seq<u8> {
    spec_u64_to_le_bytes(dyn_id) + spec_u64_to_le_bytes(cached_vtable)
}

/// The identifier that a header of `DYN_METADATA_SIZE` bytes holds.
pub open spec fn header_dyn_id(bytes: Seq<u8>) -> u64 {
    spec_u64_from_le_bytes(bytes.subrange(0, 8))
}

/// The cached table reference that a header of `DYN_METADATA_SIZE` bytes
/// holds.
pub open spec fn header_cached_vtable(bytes: Seq<u8>) -> u64 {
    spec_u64_from_le_bytes(bytes.subrange(8, 16))
}

/// Whether `bytes` pass as a header under `registry`: they have the length
/// of a header, their identifier is registered, and their cached table
/// reference is zero or the one registered for the identifier.
pub open spec fn header_accepted(bytes: Seq<u8>, registry: Map<u64, usize>) -> bool {
    &&& bytes.len() == DYN_METADATA_SIZE
    &&& registry.contains_key(header_dyn_id(bytes))
    &&& (header_cached_vtable(bytes) == 0 || header_cached_vtable(bytes)
        == registry[header_dyn_id(bytes)] as u64)
}

/// The error with which bytes that do not pass as a header are rejected: a
/// header of the right length whose identifier is not registered names an
/// unknown type; every other failure is a validation failure.
pub open spec fn header_rejection(bytes: Seq<u8>, registry: Map<u64, usize>) -> DeserializeError {
    if bytes.len() == DYN_METADATA_SIZE && !registry.contains_key(header_dyn_id(bytes)) {
        DeserializeError::UnknownPolymorphicType
    } else {
        DeserializeError::CheckBytesError
    }
}

impl ArchivedDynMetadata {
    /// The identifier of the concrete type.
    pub closed spec fn id(self) -> u64 {
        self.dyn_id
    }

    /// The cached table reference.
    pub closed spec fn cached(self) -> u64 {
        self.cached_vtable
    }

    /// The header that a writer makes for the concrete type `dyn_id`.
    pub fn emplace(dyn_id: u64) -> (metadata: Self)
        ensures
            metadata.id() == dyn_id,
            metadata.cached() == 0,
    {
        Self { dyn_id, cached_vtable: 0 }
    }

    /// The bytes of the header.
    pub fn to_bytes(&self) -> (bytes: Vec<u8>)
        ensures
            bytes@ == header_bytes(self.id(), self.cached()),
            bytes@.len() == DYN_METADATA_SIZE,
    {
        let mut bytes = u64_to_le_bytes(self.dyn_id);
        let mut cached = u64_to_le_bytes(self.cached_vtable);
        bytes.append(&mut cached);
        bytes
    }

    /// Checks `bytes` as a header under `registry`. Only a header that
    /// passes is handed out. A header whose type is not registered is
    /// rejected as an unknown type; every other buffer that does not pass
    /// is a validation failure.
    pub fn check_bytes(bytes: &[u8], registry: &DynRegistry) -> (r: Result<Self, DeserializeError>)
        ensures
            match r {
                Ok(metadata) => {
                    &&& header_accepted(bytes@, registry@)
                    &&& metadata.id() == header_dyn_id(bytes@)
                    &&& metadata.cached() == header_cached_vtable(bytes@)
                },
                Err(e) => !header_accepted(bytes@, registry@) && e == header_rejection(
                    bytes@,
                    registry@,
                ),
            },
    {
        if bytes.len() != DYN_METADATA_SIZE {
            return Err(DeserializeError::CheckBytesError);
        }
        let dyn_id = u64_from_le_bytes(slice_subrange(bytes, 0, 8));
        let cached_vtable = u64_from_le_bytes(slice_subrange(bytes, 8, 16));
        match registry.get(dyn_id) {
            Some(vtable) => if cached_vtable == 0 || cached_vtable == vtable as u64 {
                Ok(Self { dyn_id, cached_vtable })
            } else {
                Err(DeserializeError::CheckBytesError)
            },
            None => Err(DeserializeError::UnknownPolymorphicType),
        }
    }

    /// The table reference of the concrete type. A type that is not
    /// registered is an unknown type.
    pub fn vtable(&self, registry: &DynRegistry) -> (r: Result<usize, DeserializeError>)
        ensures
            r == (if registry@.contains_key(self.id()) {
                Ok::<usize, DeserializeError>(registry@[self.id()])
            } else {
                Err::<usize, DeserializeError>(DeserializeError::UnknownPolymorphicType)
            }),
    {
        match registry.get(self.dyn_id) {
            Some(vtable) => Ok(vtable),
            None => Err(DeserializeError::UnknownPolymorphicType),
        }
    }
}

/// The header that a writer makes is accepted wherever its type is
/// registered, and is read back as it was made.
pub proof fn lemma_emplaced_header_accepted(dyn_id: u64, registry: Map<u64, usize>)
    requires
        registry.contains_key(dyn_id),
    ensures
        header_accepted(header_bytes(dyn_id, 0), registry),
        header_dyn_id(header_bytes(dyn_id, 0)) == dyn_id,
        header_cached_vtable(header_bytes(dyn_id, 0)) == 0,
{
    vstd::bytes::lemma_auto_spec_u64_to_from_le_bytes();
    let bytes = header_bytes(dyn_id, 0);
    assert(bytes.subrange(0, 8) =~= spec_u64_to_le_bytes(dyn_id));
    assert(bytes.subrange(8, 16) =~= spec_u64_to_le_bytes(0));
}

/// A header whose type is not registered is never accepted, whatever else
/// it holds, and a whole header of such a type is rejected as an unknown
/// type: a polymorphic value of a type that this process does not know is
/// told from a corrupt buffer, and is rejected before any routine sees it.
pub proof fn lemma_unregistered_header_rejected(bytes: Seq<u8>, registry: Map<u64, usize>)
    requires
        !registry.contains_key(header_dyn_id(bytes)),
    ensures
        !header_accepted(bytes, registry),
        bytes.len() == DYN_METADATA_SIZE ==> header_rejection(bytes, registry)
            == DeserializeError::UnknownPolymorphicType,
{
}

} // verus!
