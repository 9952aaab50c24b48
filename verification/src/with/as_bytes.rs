//! The bytes-based strategy: a field that converts to an opaque run of bytes is
//! archived as that run.

use crate::archive::archive_blob;
use crate::archive::restore_blob;
use crate::archive::blob_archive;
use crate::archive::blob_restored;
use crate::deserialize::read_err;
use crate::deserialize::read_ok;
use crate::deserialize::CacheableDeserializer;
use crate::deserialize::DeserializeError;
use crate::model::Model;
use crate::serialize::write_err;
use crate::serialize::write_ok;
use crate::serialize::CacheableSerializer;
use crate::serialize::SerializeError;
use crate::with::CacheableWith;
use crate::with::DeserializeWith;
use crate::with::SerializeWith;
use vstd::prelude::*;

verus! {

/// Archives a field as the bytes that it converts to.
pub struct AsBytes;

/// A type that converts to and from a run of bytes.
pub trait AsBytesConverter: Model + Sized {
    /// The bytes of a value, or the error with which the value has none.
    spec fn bytes_of(value: Self::M) -> Result<Seq<u8>, SerializeError>;

    /// The value that a run of bytes stands for, or the error with which it stands
    /// for none.
    spec fn value_of(blob: Seq<u8>) -> Result<Self::M, DeserializeError>;

    /// Whether the conversion promises that values come back.
    spec fn lawful() -> bool;

    fn to_bytes(&self) -> (r: Result<Vec<u8>, SerializeError>)
        ensures
            r matches Ok(blob) ==> Self::bytes_of(self.model()) == write_ok(blob@),
            r matches Err(e) ==> Self::bytes_of(self.model()) == write_err::<Seq<u8>>(e),
    ;

    fn from_bytes(s: &[u8]) -> (r: Result<Self, DeserializeError>)
        ensures
            r matches Ok(value) ==> Self::value_of(s@) == read_ok(value.model()),
            r matches Err(e) ==> Self::value_of(s@) == read_err::<Self::M>(e),
    ;

    /// The bytes of a value stand for that value.
    proof fn lemma_bytes_round_trip(value: Self::M)
        requires
            Self::lawful(),
        ensures
            Self::bytes_of(value) matches Ok(blob) ==> Self::value_of(blob) == read_ok(value),
    ;
}

impl<T: AsBytesConverter, C> SerializeWith<T, C> for AsBytes {
    open spec fn archives(bytes: Seq<u8>, field: T::M, ctx: C) -> bool {
        T::bytes_of(field) matches Ok(blob) && bytes == blob_archive(blob) && blob_restored(bytes)
            == read_ok(blob)
    }

    open spec fn refuses(field: T::M, ctx: C, e: SerializeError) -> bool {
        T::bytes_of(field) == write_err::<Seq<u8>>(e)
    }

    fn serialize_with(field: &T, serializer: &CacheableSerializer<'_, C>) -> (r: Result<
        Vec<u8>,
        SerializeError,
    >)
        ensures
            match T::bytes_of(field.model()) {
                Ok(blob) => r matches Ok(bytes) && bytes@ == blob_archive(blob),
                Err(e) => r matches Err(f) && f == e,
            },
    {
        let value = match field.to_bytes() {
            Ok(value) => value,
            Err(e) => { return Err(e); },
        };
        archive_blob(&value)
    }
}

impl<T: AsBytesConverter, C> DeserializeWith<T, C> for AsBytes {
    open spec fn restores(bytes: Seq<u8>, ctx: C) -> Result<T::M, DeserializeError> {
        match blob_restored(bytes) {
            Ok(blob) => T::value_of(blob),
            Err(e) => Err(e),
        }
    }

    fn deserialize_with(bytes: &[u8], deserializer: &CacheableDeserializer<'_, C>) -> (r: Result<
        T,
        DeserializeError,
    >) {
        let blob = match restore_blob(bytes) {
            Ok(blob) => blob,
            Err(e) => { return Err(e); },
        };
        T::from_bytes(blob.as_slice())
    }
}

impl<T: AsBytesConverter, C> CacheableWith<T, C> for AsBytes {
    open spec fn faithful() -> bool {
        T::lawful()
    }

    proof fn lemma_round_trip(bytes: Seq<u8>, field: T::M, ctx: C) {
        T::lemma_bytes_round_trip(field);
    }
}

} // verus!
