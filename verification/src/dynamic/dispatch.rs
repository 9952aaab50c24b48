//! Archiving and rebuilding values through an interface: the archived form
//! is the header of the concrete type followed by the concrete value's own
//! archived form.

use crate::archive::archive_list;
use crate::archive::list_archive;
use crate::archive::list_restored;
use crate::archive::restore_list;
use crate::deserialize::read_ok;
use crate::deserialize::CacheableDeserializer;
use crate::deserialize::DeserializeError;
use crate::dynamic::header_accepted;
use crate::dynamic::header_bytes;
use crate::dynamic::header_dyn_id;
use crate::dynamic::header_rejection;
use crate::dynamic::validation::CheckBytesRegistry;
use crate::dynamic::ArchivedDynMetadata;
use crate::dynamic::DynRegistry;
use crate::serialize::padding_for;
use crate::serialize::zeroes;
use crate::serialize::CacheableSerializer;
use crate::serialize::Serialize;
use crate::serialize::SerializeError;
use crate::serialize::ARCHIVE_ALIGNMENT;
use crate::with::as_tuple2::two;
use crate::with::Tuple2;
use vstd::prelude::*;

verus! {

/// A value that can be archived through an interface.
pub trait SerializeDyn<C> {
    /// Whether `bytes` is an archived form of the value under context `ctx`.
    spec fn archives_dyn(&self, bytes: Seq<u8>, ctx: C) -> bool;

    /// Whether the library's own rules refuse to archive the value with
    /// error `e`.
    spec fn refuses_dyn(&self, ctx: C, e: SerializeError) -> bool;

    /// Writes the value to the serializer and returns the position it was
    /// written to. Where the value cannot be archived nothing is written.
    fn serialize_dyn(&self, serializer: &mut CacheableSerializer<'_, C>) -> (r: Result<
        usize,
        SerializeError,
    >)
        ensures
            r matches Ok(pos) ==> {
                &&& pos == old(serializer).bytes().len() + padding_for(
                    old(serializer).bytes().len() as int,
                    ARCHIVE_ALIGNMENT as int,
                )
                &&& pos <= final(serializer).bytes().len()
                &&& final(serializer).bytes().subrange(0, pos as int) == old(serializer).bytes()
                    + zeroes(
                    padding_for(old(serializer).bytes().len() as int, ARCHIVE_ALIGNMENT as int),
                )
                &&& self.archives_dyn(
                    final(serializer).bytes().subrange(
                        pos as int,
                        final(serializer).bytes().len() as int,
                    ),
                    old(serializer).ctx(),
                )
            },
            r matches Err(e) ==> {
                &&& final(serializer).bytes() == old(serializer).bytes()
                &&& self.refuses_dyn(old(serializer).ctx(), e)
            },
            final(serializer).shared() == old(serializer).shared(),
            final(serializer).ctx() == old(serializer).ctx(),
    ;
}

impl<T: Serialize<C>, C> SerializeDyn<C> for T {
    open spec fn archives_dyn(&self, bytes: Seq<u8>, ctx: C) -> bool {
        T::archives(bytes, self.model(), ctx)
    }

    open spec fn refuses_dyn(&self, ctx: C, e: SerializeError) -> bool {
        T::refuses(self.model(), ctx, e)
    }

    fn serialize_dyn(&self, serializer: &mut CacheableSerializer<'_, C>) -> (r: Result<
        usize,
        SerializeError,
    >) {
        serializer.serialize_value(self)
    }
}

/// An archived form that can be rebuilt as the interface value `O`.
pub trait DeserializeDyn<O, C> {
    /// Rebuilds the concrete value from `bytes` and hands it out behind the
    /// interface.
    fn deserialize_dyn(bytes: &[u8], deserializer: &CacheableDeserializer<'_, C>) -> (r: Result<
        O,
        DeserializeError,
    >);
}

/// Whether `bytes` is an archived form of `value` as the concrete type
/// `dyn_id`: the list of the header that a writer makes for the type, and
/// an archived form of the value.
pub open spec fn archives_dyn_value<T: SerializeDyn<C> + ?Sized, C>(
    bytes: Seq<u8>,
    dyn_id: u64,
    value: &T,
    ctx: C,
) -> bool {
    exists|payload: Seq<u8>|
        {
            &&& value.archives_dyn(payload, ctx)
            &&& bytes == list_archive(#[trigger] two(header_bytes(dyn_id, 0), payload))
            &&& list_restored(bytes) == read_ok(two(header_bytes(dyn_id, 0), payload))
        }
}

/// Archives `value`, known through an interface, as the concrete type
/// `dyn_id`. The concrete value is archived in a pass of its own under the
/// same context.
pub fn serialize_dyn_value<T: SerializeDyn<C> + ?Sized, C>(
    dyn_id: u64,
    value: &T,
    serializer: &CacheableSerializer<'_, C>,
) -> (r: Result<Vec<u8>, SerializeError>)
    ensures
        r matches Ok(bytes) ==> archives_dyn_value(bytes@, dyn_id, value, serializer.ctx()),
        r matches Err(e) ==> value.refuses_dyn(serializer.ctx(), e),
{
    let header = ArchivedDynMetadata::emplace(dyn_id).to_bytes();
    let mut nested = CacheableSerializer::new(serializer.context());
    match value.serialize_dyn(&mut nested) {
        Ok(_) => {},
        Err(e) => { return Err(e); },
    }
    proof {
        assert(0int % 16 == 0);
        assert(16int % 16 == 0);
        assert(nested.bytes().subrange(0, nested.bytes().len() as int) =~= nested.bytes());
    }
    let payload = nested.into_bytes();
    let pair = Tuple2 { a: header, b: payload };
    archive_list(&pair.into_parts())
}

/// Whether the routines of `checks` may be called on every buffer.
pub open spec fn checks_callable<F, C>(checks: Map<usize, F>) -> bool where
    F: Fn(&[u8], &CacheableDeserializer<C>) -> Result<(), DeserializeError>,
 {
    forall|vtable: usize, bytes: &[u8], deserializer: &CacheableDeserializer<C>|
        checks.contains_key(vtable) ==> call_requires(checks[vtable], (bytes, deserializer))
}

/// Whether `dispatch` may be called on every table reference and buffer.
pub open spec fn dispatch_callable<O, D, C>(dispatch: D) -> bool where
    D: Fn(usize, &[u8], &CacheableDeserializer<C>) -> Result<O, DeserializeError>,
 {
    forall|vtable: usize, bytes: &[u8], deserializer: &CacheableDeserializer<C>|
        call_requires(dispatch, (vtable, bytes, deserializer))
}

/// Rebuilds a value behind an interface from `bytes`.
///
/// The header is checked first: its type must be registered in `registry`.
/// Then the validation routine that `checks` holds for the type's table
/// reference checks the concrete value's archived form. Only then
/// `dispatch` rebuilds the concrete value, by the table reference. A
/// header whose type is not registered is an unknown type; a buffer that
/// fails any other check is a validation failure.
pub fn deserialize_dyn_value<O, F, D, C>(
    bytes: &[u8],
    registry: &DynRegistry,
    checks: &CheckBytesRegistry<F>,
    dispatch: &D,
    deserializer: &CacheableDeserializer<'_, C>,
) -> (r: Result<O, DeserializeError>) where
    F: Fn(&[u8], &CacheableDeserializer<C>) -> Result<(), DeserializeError>,
    D: Fn(usize, &[u8], &CacheableDeserializer<C>) -> Result<O, DeserializeError>,

    requires
        checks_callable::<F, C>(checks@),
        dispatch_callable::<O, D, C>(*dispatch),
    ensures
        match list_restored(bytes@) {
            Err(e) => r matches Err(f) && f == e,
            Ok(parts) => if parts.len() != 2 {
                r matches Err(e) && e is CheckBytesError
            } else if !header_accepted(parts[0], registry@) {
                r matches Err(e) && e == header_rejection(parts[0], registry@)
            } else if !checks@.contains_key(registry@[header_dyn_id(parts[0])]) {
                r matches Err(e) && e is CheckBytesError
            } else {
                exists|payload: &[u8], checked: Result<(), DeserializeError>|
                    {
                        &&& payload@ == parts[1]
                        &&& #[trigger] call_ensures(
                            checks@[registry@[header_dyn_id(parts[0])]],
                            (payload, deserializer),
                            checked,
                        )
                        &&& match checked {
                            Err(e) => r matches Err(f) && f == e,
                            Ok(_) => call_ensures(
                                *dispatch,
                                (registry@[header_dyn_id(parts[0])], payload, deserializer),
                                r,
                            ),
                        }
                    }
            },
        },
{
    let parts = match restore_list(bytes) {
        Ok(parts) => parts,
        Err(e) => { return Err(e); },
    };
    let pair = match Tuple2::check_bytes(parts) {
        Ok(pair) => pair,
        Err(e) => { return Err(e); },
    };
    proof {
        pair.lemma_parts();
    }
    let metadata = match ArchivedDynMetadata::check_bytes(pair.a.as_slice(), registry) {
        Ok(metadata) => metadata,
        Err(e) => { return Err(e); },
    };
    let vtable = match metadata.vtable(registry) {
        Ok(vtable) => vtable,
        Err(e) => { return Err(e); },
    };
    let check = match checks.get(vtable) {
        Some(check) => check,
        None => { return Err(DeserializeError::CheckBytesError); },
    };
    let payload = pair.b.as_slice();
    let checked = check(payload, deserializer);
    match checked {
        Ok(_) => {},
        Err(e) => { return Err(e); },
    }
    dispatch(vtable, payload, deserializer)
}

} // verus!
