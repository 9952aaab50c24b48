//! Laws of the library that relate several of its parts.

use crate::archive::list_restored;
use crate::deserialize::read_ok;
use crate::deserialize::Deserialize;
use crate::deserialize::DeserializeError;
use crate::table::table_of;
use crate::model::Model;
use crate::serialize::Serialize;
use crate::with::hash_set::hash_lawful;
use crate::with::AsMap;
use crate::with::AsTuple2;
use crate::with::AsVec;
use crate::with::CacheableWith;
use crate::with::DeserializeWith;
use crate::with::SerializeWith;
use crate::with::Unsupported;
use std::collections::hash_map::RandomState;
use std::collections::HashMap;
use std::collections::HashSet;
use vstd::prelude::*;

verus! {

/// Round trip under a strategy: whatever a faithful strategy archives a
/// field as, it rebuilds that field from it under the same context.
pub proof fn theorem_round_trip_with<W: CacheableWith<F, C>, F: Model, C>(
    field: F::M,
    ctx: C,
    bytes: Seq<u8>,
)
    requires
        W::faithful(),
        W::archives(bytes, field, ctx),
    ensures
        W::restores(bytes, ctx) == read_ok(field),
{
    W::lemma_round_trip(bytes, field, ctx);
}

/// Validation gate for numbers: the archived form of a 64-bit number is
/// rejected as a validation failure when it is read as a 32-bit number, and
/// the other way round.
pub proof fn lemma_width_gate<C>(bytes: Seq<u8>, wide: u64, narrow: u32, ctx: C)
    ensures
        <u64 as Serialize<C>>::archives(bytes, wide, ctx) ==> <u32 as Deserialize<C>>::restores(
            bytes,
            ctx,
        ) == Err::<u32, DeserializeError>(DeserializeError::CheckBytesError),
        <u32 as Serialize<C>>::archives(bytes, narrow, ctx) ==> <u64 as Deserialize<C>>::restores(
            bytes,
            ctx,
        ) == Err::<u64, DeserializeError>(DeserializeError::CheckBytesError),
{
    vstd::bytes::lemma_auto_spec_u64_to_from_le_bytes();
    vstd::bytes::lemma_auto_spec_u32_to_from_le_bytes();
}

/// Validation gate for single bytes: the archived form of a byte is
/// rejected as a validation failure when it is read as a wider number, and
/// the archived form of a wider number when it is read as a byte.
pub proof fn lemma_byte_gate<C>(bytes: Seq<u8>, byte: u8, wide: u64, narrow: u32, ctx: C)
    ensures
        <u8 as Serialize<C>>::archives(bytes, byte, ctx) ==> {
            &&& <u64 as Deserialize<C>>::restores(bytes, ctx) == Err::<u64, DeserializeError>(
                DeserializeError::CheckBytesError,
            )
            &&& <u32 as Deserialize<C>>::restores(bytes, ctx) == Err::<u32, DeserializeError>(
                DeserializeError::CheckBytesError,
            )
        },
        <u64 as Serialize<C>>::archives(bytes, wide, ctx) || <u32 as Serialize<C>>::archives(
            bytes,
            narrow,
            ctx,
        ) ==> <u8 as Deserialize<C>>::restores(bytes, ctx) == Err::<u8, DeserializeError>(
            DeserializeError::CheckBytesError,
        ),
{
    vstd::bytes::lemma_auto_spec_u64_to_from_le_bytes();
    vstd::bytes::lemma_auto_spec_u32_to_from_le_bytes();
}

/// Hash collections of numbers under the standard hasher are lawful.
pub proof fn lemma_number_keys_lawful()
    ensures
        hash_lawful::<u64, RandomState>(),
        hash_lawful::<u32, RandomState>(),
        hash_lawful::<usize, RandomState>(),
{
    broadcast use vstd::std_specs::hash::group_hash_axioms;

}

/// Sets come back whatever the order in which they were walked: every
/// archived form of a lawful hash set, made in any order of its items,
/// is rebuilt as that set.
pub proof fn theorem_set_round_trip<A: CacheableWith<u64, C>, C>(
    bytes: Seq<u8>,
    set: Set<u64>,
    ctx: C,
)
    requires
        A::faithful(),
        <AsVec<A> as SerializeWith<HashSet<u64, RandomState>, C>>::archives(bytes, set, ctx),
    ensures
        <AsVec<A> as DeserializeWith<HashSet<u64, RandomState>, C>>::restores(bytes, ctx)
            == read_ok(set),
{
    lemma_number_keys_lawful();
    <AsVec<A> as CacheableWith<HashSet<u64, RandomState>, C>>::lemma_round_trip(bytes, set, ctx);
}

/// Maps come back whatever the order in which they were walked: every
/// archived form of a lawful hash map, made in any order of its entries,
/// is rebuilt as that map.
pub proof fn theorem_map_round_trip<WK: CacheableWith<u64, C>, WV: CacheableWith<V, C>, V: Model, C>(
    bytes: Seq<u8>,
    map: Map<u64, V::M>,
    ctx: C,
)
    requires
        WK::faithful(),
        WV::faithful(),
        <AsMap<WK, WV> as SerializeWith<HashMap<u64, V, RandomState>, C>>::archives(
            bytes,
            map,
            ctx,
        ),
    ensures
        <AsMap<WK, WV> as DeserializeWith<HashMap<u64, V, RandomState>, C>>::restores(bytes, ctx)
            == read_ok(map),
{
    lemma_number_keys_lawful();
    <AsMap<WK, WV> as CacheableWith<HashMap<u64, V, RandomState>, C>>::lemma_round_trip(
        bytes,
        map,
        ctx,
    );
}

/// Last write wins: in the map built from a list of entries, a key has the
/// value of the last entry that holds it.
pub proof fn lemma_last_write_wins<K, V>(entries: Seq<(K, V)>, i: int)
    requires
        0 <= i < entries.len(),
        forall|j: int| i < j < entries.len() ==> entries[j].0 != entries[i].0,
    ensures
        table_of(entries).contains_key(entries[i].0),
        table_of(entries)[entries[i].0] == entries[i].1,
    decreases entries.len(),
{
    if i < entries.len() - 1 {
        let head = entries.drop_last();
        assert forall|j: int| i < j < head.len() implies head[j].0 != head[i].0 by {
            assert(entries[j].0 != entries[i].0);
        }
        lemma_last_write_wins(head, i);
        assert(entries[entries.len() - 1].0 != entries[i].0);
    }
}

/// Unsupported field in a pair: a pair with an unsupported field has no
/// archived form, and no buffer is read as one, whichever of the two
/// fields it is.
pub proof fn lemma_pair_with_unsupported<A, K: Model, V: Model, C>(
    bytes: Seq<u8>,
    field: (K::M, V::M),
    ctx: C,
) where A: SerializeWith<K, C> + DeserializeWith<K, C> + SerializeWith<V, C> + DeserializeWith<V, C>
    ensures
        !<AsTuple2<Unsupported, A> as SerializeWith<(K, V), C>>::archives(bytes, field, ctx),
        !<AsTuple2<A, Unsupported> as SerializeWith<(K, V), C>>::archives(bytes, field, ctx),
        <AsTuple2<Unsupported, A> as DeserializeWith<(K, V), C>>::restores(bytes, ctx) is Err,
        <AsTuple2<A, Unsupported> as DeserializeWith<(K, V), C>>::restores(bytes, ctx) is Err,
{
    let _ = list_restored(bytes);
}

} // verus!
