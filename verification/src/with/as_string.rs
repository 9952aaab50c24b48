//! The string-based strategy: a field that has a canonical text is archived
//! as that text.

use crate::archive::archive_text;
use crate::archive::restore_text;
use crate::archive::text_archive;
use crate::archive::text_restored;
use crate::deserialize::read_err;
use crate::deserialize::read_ok;
use crate::deserialize::CacheableDeserializer;
use crate::deserialize::DeserializeError;
use crate::model::Model;
use crate::serialize::write_err;
use crate::serialize::write_ok;
use crate::serialize::CacheableSerializer;
use crate::serialize::SerializeError;
use crate::with::CacheableWith;
use crate::with::DeserializeWith;
use crate::with::SerializeWith;
use vstd::prelude::*;

verus! {

/// Archives a field as its text.
pub struct AsString;

/// A type with a canonical text.
pub trait AsStringConverter: Model + Sized {
    /// The text of a value, or the error with which the value has none.
    spec fn text_of(value: Self::M) -> Result<Seq<char>, SerializeError>;

    /// The value that a text stands for, or the error with which it stands
    /// for none.
    spec fn value_of(text: Seq<char>) -> Result<Self::M, DeserializeError>;

    /// Whether the conversion promises that values come back.
    spec fn lawful() -> bool;

    fn to_string(&self) -> (r: Result<String, SerializeError>)
        ensures
            r matches Ok(text) ==> Self::text_of(self.model()) == write_ok(text@),
            r matches Err(e) ==> Self::text_of(self.model()) == write_err::<Seq<char>>(e),
    ;

    fn from_str(s: &str) -> (r: Result<Self, DeserializeError>)
        ensures
            r matches Ok(value) ==> Self::value_of(s@) == read_ok(value.model()),
            r matches Err(e) ==> Self::value_of(s@) == read_err::<Self::M>(e),
    ;

    /// The text of a value stands for that value.
    proof fn lemma_text_round_trip(value: Self::M)
        requires
            Self::lawful(),
        ensures
            Self::text_of(value) matches Ok(text) ==> Self::value_of(text) == read_ok(value),
    ;
}

impl<T: AsStringConverter, C> SerializeWith<T, C> for AsString {
    open spec fn archives(bytes: Seq<u8>, field: T::M, ctx: C) -> bool {
        T::text_of(field) matches Ok(text) && bytes == text_archive(text) && text_restored(bytes)
            == read_ok(text)
    }

    open spec fn refuses(field: T::M, ctx: C, e: SerializeError) -> bool {
        T::text_of(field) == write_err::<Seq<char>>(e)
    }

    fn serialize_with(field: &T, serializer: &CacheableSerializer<'_, C>) -> (r: Result<
        Vec<u8>,
        SerializeError,
    >)
        ensures
            match T::text_of(field.model()) {
                Ok(text) => r matches Ok(bytes) && bytes@ == text_archive(text),
                Err(e) => r matches Err(f) && f == e,
            },
    {
        let value = match field.to_string() {
            Ok(value) => value,
            Err(e) => { return Err(e); },
        };
        archive_text(&value)
    }
}

impl<T: AsStringConverter, C> DeserializeWith<T, C> for AsString {
    open spec fn restores(bytes: Seq<u8>, ctx: C) -> Result<T::M, DeserializeError> {
        match text_restored(bytes) {
            Ok(text) => T::value_of(text),
            Err(e) => Err(e),
        }
    }

    fn deserialize_with(bytes: &[u8], deserializer: &CacheableDeserializer<'_, C>) -> (r: Result<
        T,
        DeserializeError,
    >) {
        let text = match restore_text(bytes) {
            Ok(text) => text,
            Err(e) => { return Err(e); },
        };
        T::from_str(text.as_str())
    }
}

impl<T: AsStringConverter, C> CacheableWith<T, C> for AsString {
    open spec fn faithful() -> bool {
        T::lawful()
    }

    proof fn lemma_round_trip(bytes: Seq<u8>, field: T::M, ctx: C) {
        T::lemma_text_round_trip(field);
    }
}

} // verus!
