//! The preset for `Ustr`: it is archived as its text.

use crate::archive::archive_text;
use crate::archive::restore_text;
use crate::archive::text_archive;
use crate::archive::text_restored;
use crate::deserialize::read_ok;
use crate::deserialize::CacheableDeserializer;
use crate::deserialize::DeserializeError;
use crate::model::Model;
use crate::serialize::CacheableSerializer;
use crate::serialize::SerializeError;
use crate::with::as_preset::AsPreset;
use crate::with::CacheableWith;
use crate::with::DeserializeWith;
use crate::with::SerializeWith;
use ustr::Ustr;
use vstd::prelude::*;
use vstd::string::StringExecFns;

verus! {

#[verifier::external_type_specification]
#[verifier::external_body]
pub struct ExUstr(Ustr);

/// The text that a `Ustr` holds.
pub uninterp spec fn ustr_text(value: Ustr) -> Seq<char>;

/// `Ustr::as_str`: the text that the value holds.
#[verifier::external_body]
fn ustr_as_str(value: &Ustr) -> (text: &str)
    ensures
        text@ == ustr_text(*value),
{
    value.as_str()
}

/// `Ustr::from` on a text: the value that holds that text.
#[verifier::external_body]
fn ustr_from_str(text: &str) -> (value: Ustr)
    ensures
        ustr_text(value) == text@,
{
    Ustr::from(text)
}

impl Model for Ustr {
    type M = Seq<char>;

    open spec fn model(&self) -> Seq<char> {
        ustr_text(*self)
    }
}

impl<C> SerializeWith<Ustr, C> for AsPreset {
    open spec fn archives(bytes: Seq<u8>, field: Seq<char>, ctx: C) -> bool {
        bytes == text_archive(field) && text_restored(bytes) == read_ok(field)
    }

    open spec fn refuses(field: Seq<char>, ctx: C, e: SerializeError) -> bool {
        false
    }

    fn serialize_with(field: &Ustr, serializer: &CacheableSerializer<'_, C>) -> (r: Result<
        Vec<u8>,
        SerializeError,
    >) {
        archive_text(&String::from_str(ustr_as_str(field)))
    }
}

impl<C> DeserializeWith<Ustr, C> for AsPreset {
    open spec fn restores(bytes: Seq<u8>, ctx: C) -> Result<Seq<char>, DeserializeError> {
        text_restored(bytes)
    }

    fn deserialize_with(bytes: &[u8], deserializer: &CacheableDeserializer<'_, C>) -> (r: Result<
        Ustr,
        DeserializeError,
    >) {
        match restore_text(bytes) {
            Ok(text) => Ok(ustr_from_str(text.as_str())),
            Err(e) => Err(e),
        }
    }
}

impl<C> CacheableWith<Ustr, C> for AsPreset {
    open spec fn faithful() -> bool {
        true
    }

    proof fn lemma_round_trip(bytes: Seq<u8>, field: Seq<char>, ctx: C) {
    }
}

} // verus!
