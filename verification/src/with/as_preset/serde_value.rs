//! The preset for `serde_json::Value`: it is archived as its JSON text.

use crate::archive::archive_text;
use crate::archive::restore_text;
use crate::archive::text_archive;
use crate::archive::text_restored;
use crate::deserialize::read_ok;
use crate::deserialize::CacheableDeserializer;
use crate::deserialize::DeserializeError;
use crate::model::Model;
use crate::serialize::CacheableSerializer;
use crate::serialize::SerializeError;
use crate::with::as_preset::AsPreset;
use crate::with::DeserializeWith;
use crate::with::SerializeWith;
use serde_json::Value;
use vstd::prelude::*;

verus! {

#[verifier::external_type_specification]
#[verifier::external_body]
pub struct ExValue(Value);

/// The JSON text that `serde_json::to_string` makes of a value, if it makes
/// one.
pub uninterp spec fn serde_json_text(value: Value) -> Option<Seq<char>>;

/// The value that `serde_json::from_str` reads from a text, if it reads
/// one.
pub uninterp spec fn serde_json_parsed(text: Seq<char>) -> Option<Value>;

/// `serde_json::to_string`: the JSON text of the value, or nothing where
/// the value has none.
#[verifier::external_body]
fn serde_json_to_string(value: &Value) -> (text: Option<String>)
    ensures
        text.is_some() == serde_json_text(*value).is_some(),
        text matches Some(text) ==> serde_json_text(*value) == Some(text@),
{
    serde_json::to_string(value).ok()
}

/// `serde_json::from_str`: the value that the text stands for, or nothing
/// where the text is no JSON.
#[verifier::external_body]
fn serde_json_from_str(text: &str) -> (value: Option<Value>)
    ensures
        value == serde_json_parsed(text@),
{
    serde_json::from_str(text).ok()
}

/// A JSON value is its own model.
impl Model for Value {
    type M = Value;

    open spec fn model(&self) -> Value {
        *self
    }
}

impl<C> SerializeWith<Value, C> for AsPreset {
    open spec fn archives(bytes: Seq<u8>, field: Value, ctx: C) -> bool {
        serde_json_text(field) matches Some(text) && bytes == text_archive(text) && text_restored(
            bytes,
        ) == read_ok(text)
    }

    open spec fn refuses(field: Value, ctx: C, e: SerializeError) -> bool {
        serde_json_text(field) is None && e == SerializeError::SerializeFailed(
            "serialize serde_json value failed",
        )
    }

    fn serialize_with(field: &Value, serializer: &CacheableSerializer<'_, C>) -> (r: Result<
        Vec<u8>,
        SerializeError,
    >) {
        match serde_json_to_string(field) {
            Some(text) => archive_text(&text),
            None => Err(SerializeError::SerializeFailed("serialize serde_json value failed")),
        }
    }
}

impl<C> DeserializeWith<Value, C> for AsPreset {
    open spec fn restores(bytes: Seq<u8>, ctx: C) -> Result<Value, DeserializeError> {
        match text_restored(bytes) {
            Err(e) => Err(e),
            Ok(text) => match serde_json_parsed(text) {
                Some(value) => Ok(value),
                None => Err(
                    DeserializeError::DeserializeFailed("deserialize serde_json value failed"),
                ),
            },
        }
    }

    fn deserialize_with(bytes: &[u8], deserializer: &CacheableDeserializer<'_, C>) -> (r: Result<
        Value,
        DeserializeError,
    >) {
        let text = match restore_text(bytes) {
            Ok(text) => text,
            Err(e) => { return Err(e); },
        };
        match serde_json_from_str(text.as_str()) {
            Some(value) => Ok(value),
            None => Err(DeserializeError::DeserializeFailed("deserialize serde_json value failed")),
        }
    }
}

} // verus!
