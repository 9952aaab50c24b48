//! The archived form of a `String`, and the types that are archived as
//! their text.

use crate::archive::archive_text;
use crate::archive::restore_text;
use crate::archive::text_archive;
use crate::archive::text_restored;
use crate::cacheable::Cacheable;
use crate::deserialize::read_ok;
use crate::deserialize::CacheableDeserializer;
use crate::deserialize::Deserialize;
use crate::deserialize::DeserializeError;
use crate::model::Model;
use crate::serialize::CacheableSerializer;
use crate::serialize::Serialize;
use crate::serialize::SerializeError;
use crate::with::AsStringConverter;
use std::path::PathBuf;
use vstd::prelude::*;

verus! {

#[verifier::external_type_specification]
#[verifier::external_body]
pub struct ExPathBuf(PathBuf);

/// The text of a path as `Path::to_str` gives it: the path's exact text,
/// where the path is valid Unicode.
pub uninterp spec fn path_text(path: PathBuf) -> Option<Seq<char>>;

impl<C> Serialize<C> for String {
    open spec fn archives(bytes: Seq<u8>, value: Seq<char>, ctx: C) -> bool {
        bytes == text_archive(value) && text_restored(bytes) == read_ok(value)
    }

    open spec fn refuses(value: Seq<char>, ctx: C, e: SerializeError) -> bool {
        false
    }

    fn serialize(&self, serializer: &CacheableSerializer<'_, C>) -> (r: Result<
        Vec<u8>,
        SerializeError,
    >)
        ensures
            r is Ok,
    {
        archive_text(self)
    }
}

impl<C> Deserialize<C> for String {
    open spec fn restores(bytes: Seq<u8>, ctx: C) -> Result<Seq<char>, DeserializeError> {
        text_restored(bytes)
    }

    fn deserialize(bytes: &[u8], deserializer: &CacheableDeserializer<'_, C>) -> (r: Result<
        String,
        DeserializeError,
    >) {
        restore_text(bytes)
    }
}

impl<C> Cacheable<C> for String {
    open spec fn faithful() -> bool {
        true
    }

    proof fn lemma_round_trip(bytes: Seq<u8>, value: Seq<char>, ctx: C) {
    }
}

/// `Path::to_str`, and the text copied into a `String`: the exact text of
/// the path, or nothing where the path is not valid Unicode.
#[verifier::external_body]
fn path_to_text(path: &PathBuf) -> (text: Option<String>)
    ensures
        text.is_some() == path_text(*path).is_some(),
        text matches Some(t) ==> path_text(*path) == Some(t@),
{
    path.to_str().map(str::to_string)
}

/// `PathBuf::from` on a text: the path whose exact text is that text.
#[verifier::external_body]
fn path_from_text(text: &str) -> (path: PathBuf)
    ensures
        path_text(path) == Some(text@),
{
    PathBuf::from(text)
}

/// `str::to_string` on the contents of a `Box<str>`.
#[verifier::external_body]
fn boxed_to_text(boxed: &Box<str>) -> (text: String)
    ensures
        text@ == boxed@,
{
    str::to_string(boxed)
}

/// `Box::<str>::from` on a text.
#[verifier::external_body]
fn boxed_from_text(text: &str) -> (boxed: Box<str>)
    ensures
        boxed@ == text@,
{
    Box::from(text)
}

/// `str::eq`: whether two texts are the same.
#[verifier::external_body]
pub(crate) fn text_equal(a: &str, b: &str) -> (r: bool)
    ensures
        r == (a@ == b@),
{
    a == b
}

/// The error of a path that has no exact text.
pub const NO_EXACT_TEXT: &'static str = "path is not valid unicode";

/// A path is its exact text, where it has one. The paths that have none
/// are never archived, and share one model.
impl Model for PathBuf {
    type M = Option<Seq<char>>;

    open spec fn model(&self) -> Option<Seq<char>> {
        path_text(*self)
    }
}

impl AsStringConverter for PathBuf {
    /// A path that is not valid Unicode has no text: it is refused, so that
    /// no other path comes back in its place.
    open spec fn text_of(value: Option<Seq<char>>) -> Result<Seq<char>, SerializeError> {
        match value {
            Some(text) => Ok(text),
            None => Err(SerializeError::SerializeFailed(NO_EXACT_TEXT)),
        }
    }

    open spec fn value_of(text: Seq<char>) -> Result<Option<Seq<char>>, DeserializeError> {
        Ok(Some(text))
    }

    open spec fn lawful() -> bool {
        true
    }

    fn to_string(&self) -> (r: Result<String, SerializeError>) {
        match path_to_text(self) {
            Some(text) => Ok(text),
            None => Err(SerializeError::SerializeFailed(NO_EXACT_TEXT)),
        }
    }

    fn from_str(s: &str) -> (r: Result<Self, DeserializeError>)
        ensures
            r is Ok,
    {
        Ok(path_from_text(s))
    }

    proof fn lemma_text_round_trip(value: Option<Seq<char>>) {
    }
}

impl Model for Box<str> {
    type M = Seq<char>;

    open spec fn model(&self) -> Seq<char> {
        self@
    }
}

impl AsStringConverter for Box<str> {
    open spec fn text_of(value: Seq<char>) -> Result<Seq<char>, SerializeError> {
        Ok(value)
    }

    open spec fn value_of(text: Seq<char>) -> Result<Seq<char>, DeserializeError> {
        Ok(text)
    }

    open spec fn lawful() -> bool {
        true
    }

    fn to_string(&self) -> (r: Result<String, SerializeError>) {
        Ok(boxed_to_text(self))
    }

    fn from_str(s: &str) -> (r: Result<Self, DeserializeError>)
        ensures
            r is Ok,
    {
        Ok(boxed_from_text(s))
    }

    proof fn lemma_text_round_trip(value: Seq<char>) {
    }
}

} // verus!
