//! The preset for `json::JsonValue`: it is archived as its JSON text.

use crate::archive::archive_text;
use crate::archive::restore_text;
use crate::archive::text_archive;
use crate::archive::text_restored;
use crate::deserialize::read_ok;
use crate::deserialize::CacheableDeserializer;
use crate::deserialize::DeserializeError;
use crate::model::Model;
use crate::serialize::CacheableSerializer;
use crate::serialize::SerializeError;
use crate::with::as_preset::AsPreset;
use crate::with::DeserializeWith;
use crate::with::SerializeWith;
use json::JsonValue;
use vstd::prelude::*;

verus! {

#[verifier::external_type_specification]
#[verifier::external_body]
pub struct ExJsonValue(JsonValue);

/// The JSON text that `json::stringify` makes of a value.
pub uninterp spec fn json_text(value: JsonValue) -> Seq<char>;

/// The value that `json::parse` reads from a text, if it reads one.
pub uninterp spec fn json_parsed(text: Seq<char>) -> Option<JsonValue>;

/// `json::stringify` on a copy of the value: its JSON text.
#[verifier::external_body]
fn json_stringify(value: &JsonValue) -> (text: String)
    ensures
        text@ == json_text(*value),
{
    json::stringify(value.clone())
}

/// `json::parse`: the value that the text stands for, or nothing where the
/// text is no JSON.
#[verifier::external_body]
fn json_parse(text: &str) -> (value: Option<JsonValue>)
    ensures
        value == json_parsed(text@),
{
    json::parse(text).ok()
}

/// A JSON value is its own model.
impl Model for JsonValue {
    type M = JsonValue;

    open spec fn model(&self) -> JsonValue {
        *self
    }
}

impl<C> SerializeWith<JsonValue, C> for AsPreset {
    open spec fn archives(bytes: Seq<u8>, field: JsonValue, ctx: C) -> bool {
        bytes == text_archive(json_text(field)) && text_restored(bytes) == read_ok(
            json_text(field),
        )
    }

    open spec fn refuses(field: JsonValue, ctx: C, e: SerializeError) -> bool {
        false
    }

    fn serialize_with(field: &JsonValue, serializer: &CacheableSerializer<'_, C>) -> (r: Result<
        Vec<u8>,
        SerializeError,
    >) {
        archive_text(&json_stringify(field))
    }
}

impl<C> DeserializeWith<JsonValue, C> for AsPreset {
    open spec fn restores(bytes: Seq<u8>, ctx: C) -> Result<JsonValue, DeserializeError> {
        match text_restored(bytes) {
            Err(e) => Err(e),
            Ok(text) => match json_parsed(text) {
                Some(value) => Ok(value),
                None => Err(DeserializeError::DeserializeFailed("deserialize json value failed")),
            },
        }
    }

    fn deserialize_with(bytes: &[u8], deserializer: &CacheableDeserializer<'_, C>) -> (r: Result<
        JsonValue,
        DeserializeError,
    >) {
        let text = match restore_text(bytes) {
            Ok(text) => text,
            Err(e) => { return Err(e); },
        };
        match json_parse(text.as_str()) {
            Some(value) => Ok(value),
            None => Err(DeserializeError::DeserializeFailed("deserialize json value failed")),
        }
    }
}

} // verus!
