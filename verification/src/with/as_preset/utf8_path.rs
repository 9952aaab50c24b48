//! The preset for `Utf8PathBuf`: it is archived as its text.

use crate::archive::archive_text;
use crate::archive::restore_text;
use crate::archive::text_archive;
use crate::archive::text_restored;
use crate::deserialize::read_ok;
use crate::deserialize::CacheableDeserializer;
use crate::deserialize::DeserializeError;
use crate::model::Model;
use crate::serialize::CacheableSerializer;
use crate::serialize::SerializeError;
use crate::with::as_preset::AsPreset;
use crate::with::CacheableWith;
use crate::with::DeserializeWith;
use crate::with::SerializeWith;
use camino::Utf8PathBuf;
use vstd::prelude::*;
use vstd::string::StringExecFns;

verus! {

#[verifier::external_type_specification]
#[verifier::external_body]
pub struct ExUtf8PathBuf(Utf8PathBuf);

/// The text that a `Utf8PathBuf` holds.
pub uninterp spec fn utf8_path_text(value: Utf8PathBuf) -> Seq<char>;

/// `Utf8PathBuf::as_str`: the text that the value holds.
#[verifier::external_body]
fn utf8_path_as_str(value: &Utf8PathBuf) -> (text: &str)
    ensures
        text@ == utf8_path_text(*value),
{
    value.as_str()
}

/// `Utf8PathBuf::from` on a text: the value that holds that text.
#[verifier::external_body]
fn utf8_path_from_str(text: &str) -> (value: Utf8PathBuf)
    ensures
        utf8_path_text(value) == text@,
{
    Utf8PathBuf::from(text)
}

impl Model for Utf8PathBuf {
    type M = Seq<char>;

    open spec fn model(&self) -> Seq<char> {
        utf8_path_text(*self)
    }
}

impl<C> SerializeWith<Utf8PathBuf, C> for AsPreset {
    open spec fn archives(bytes: Seq<u8>, field: Seq<char>, ctx: C) -> bool {
        bytes == text_archive(field) && text_restored(bytes) == read_ok(field)
    }

    open spec fn refuses(field: Seq<char>, ctx: C, e: SerializeError) -> bool {
        false
    }

    fn serialize_with(field: &Utf8PathBuf, serializer: &CacheableSerializer<'_, C>) -> (r: Result<
        Vec<u8>,
        SerializeError,
    >) {
        archive_text(&String::from_str(utf8_path_as_str(field)))
    }
}

impl<C> DeserializeWith<Utf8PathBuf, C> for AsPreset {
    open spec fn restores(bytes: Seq<u8>, ctx: C) -> Result<Seq<char>, DeserializeError> {
        text_restored(bytes)
    }

    fn deserialize_with(bytes: &[u8], deserializer: &CacheableDeserializer<'_, C>) -> (r: Result<
        Utf8PathBuf,
        DeserializeError,
    >) {
        match restore_text(bytes) {
            Ok(text) => Ok(utf8_path_from_str(text.as_str())),
            Err(e) => Err(e),
        }
    }
}

impl<C> CacheableWith<Utf8PathBuf, C> for AsPreset {
    open spec fn faithful() -> bool {
        true
    }

    proof fn lemma_round_trip(bytes: Seq<u8>, field: Seq<char>, ctx: C) {
    }
}

} // verus!
