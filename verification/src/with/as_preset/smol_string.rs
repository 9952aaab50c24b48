//! The preset for `SmolStr`: it is archived as its text.

use crate::archive::archive_text;
use crate::archive::restore_text;
use crate::archive::text_archive;
use crate::archive::text_restored;
use crate::deserialize::read_ok;
use crate::deserialize::CacheableDeserializer;
use crate::deserialize::DeserializeError;
use crate::model::Model;
use crate::serialize::CacheableSerializer;
use crate::serialize::SerializeError;
use crate::with::as_preset::AsPreset;
use crate::with::CacheableWith;
use crate::with::DeserializeWith;
use crate::with::SerializeWith;
use smol_str::SmolStr;
use vstd::prelude::*;
use vstd::string::StringExecFns;

verus! {

#[verifier::external_type_specification]
#[verifier::external_body]
pub struct ExSmolStr(SmolStr);

/// The text that a `SmolStr` holds.
pub uninterp spec fn smol_str_text(value: SmolStr) -> Seq<char>;

/// `SmolStr::as_str`: the text that the value holds.
#[verifier::external_body]
fn smol_str_as_str(value: &SmolStr) -> (text: &str)
    ensures
        text@ == smol_str_text(*value),
{
    value.as_str()
}

/// `SmolStr::from` on a text: the value that holds that text.
#[verifier::external_body]
fn smol_str_from_str(text: &str) -> (value: SmolStr)
    ensures
        smol_str_text(value) == text@,
{
    SmolStr::from(text)
}

impl Model for SmolStr {
    type M = Seq<char>;

    open spec fn model(&self) -> Seq<char> {
        smol_str_text(*self)
    }
}

impl<C> SerializeWith<SmolStr, C> for AsPreset {
    open spec fn archives(bytes: Seq<u8>, field: Seq<char>, ctx: C) -> bool {
        bytes == text_archive(field) && text_restored(bytes) == read_ok(field)
    }

    open spec fn refuses(field: Seq<char>, ctx: C, e: SerializeError) -> bool {
        false
    }

    fn serialize_with(field: &SmolStr, serializer: &CacheableSerializer<'_, C>) -> (r: Result<
        Vec<u8>,
        SerializeError,
    >) {
        archive_text(&String::from_str(smol_str_as_str(field)))
    }
}

impl<C> DeserializeWith<SmolStr, C> for AsPreset {
    open spec fn restores(bytes: Seq<u8>, ctx: C) -> Result<Seq<char>, DeserializeError> {
        text_restored(bytes)
    }

    fn deserialize_with(bytes: &[u8], deserializer: &CacheableDeserializer<'_, C>) -> (r: Result<
        SmolStr,
        DeserializeError,
    >) {
        match restore_text(bytes) {
            Ok(text) => Ok(smol_str_from_str(text.as_str())),
            Err(e) => Err(e),
        }
    }
}

impl<C> CacheableWith<SmolStr, C> for AsPreset {
    open spec fn faithful() -> bool {
        true
    }

    proof fn lemma_round_trip(bytes: Seq<u8>, field: Seq<char>, ctx: C) {
    }
}

} // verus!
