//! The preset for the value of a resolver alias: a path, or the mark that
//! the aliased request is ignored.

use crate::deserialize::CacheableDeserializer;
use crate::deserialize::DeserializeError;
use crate::model::Model;
use crate::serialize::CacheableSerializer;
use crate::serialize::SerializeError;
use crate::with::as_preset::AsPreset;
use crate::with::as_tuple2::serialize_pair;
use crate::with::AsCacheable;
use crate::with::AsTuple2;
use crate::with::CacheableWith;
use crate::with::DeserializeWith;
use crate::with::SerializeWith;
use vstd::prelude::*;

verus! {

/// What a resolver alias stands for.
#[derive(Debug, Clone, PartialEq, Eq, Hash)]
pub enum AliasValue {
    /// The path that replaces the aliased request.
    Path(String),
    /// The aliased request is ignored.
    Ignore,
}

/// The archived form of an alias value: the ignore mark, and the path,
/// which is empty where the mark is set.
pub struct ArchivedAliasValue {
    is_ignore: bool,
    path: String,
}

/// The strategy of the two archived fields.
pub type AliasStrategy = AsTuple2<AsCacheable, AsCacheable>;

impl Model for AliasValue {
    type M = Option<Seq<char>>;

    open spec fn model(&self) -> Option<Seq<char>> {
        match self {
            AliasValue::Path(path) => Some(path@),
            AliasValue::Ignore => None,
        }
    }
}

/// The two archived fields of an alias value.
pub open spec fn alias_fields(value: Option<Seq<char>>) -> (bool, Seq<char>) {
    match value {
        Some(path) => (false, path),
        None => (true, Seq::empty()),
    }
}

/// The alias value that two archived fields stand for.
pub open spec fn alias_of(fields: (bool, Seq<char>)) -> Option<Seq<char>> {
    if fields.0 {
        None
    } else {
        Some(fields.1)
    }
}

impl ArchivedAliasValue {
    /// The two fields.
    pub closed spec fn fields(self) -> (bool, Seq<char>) {
        (self.is_ignore, self.path@)
    }

    /// The archived form of `value`.
    pub fn new(value: &AliasValue) -> (archived: Self)
        ensures
            archived.fields() == alias_fields(value.model()),
    {
        match value {
            AliasValue::Path(path) => ArchivedAliasValue { is_ignore: false, path: path.clone() },
            AliasValue::Ignore => ArchivedAliasValue { is_ignore: true, path: String::new() },
        }
    }

    /// The alias value that the archived form stands for.
    pub fn deserialize(self) -> (value: AliasValue)
        ensures
            value.model() == alias_of(self.fields()),
    {
        if self.is_ignore {
            AliasValue::Ignore
        } else {
            AliasValue::Path(self.path)
        }
    }
}

impl<C> SerializeWith<AliasValue, C> for AsPreset {
    open spec fn archives(bytes: Seq<u8>, field: Option<Seq<char>>, ctx: C) -> bool {
        <AliasStrategy as SerializeWith<(bool, String), C>>::archives(
            bytes,
            alias_fields(field),
            ctx,
        )
    }

    open spec fn refuses(field: Option<Seq<char>>, ctx: C, e: SerializeError) -> bool {
        false
    }

    fn serialize_with(field: &AliasValue, serializer: &CacheableSerializer<'_, C>) -> (r: Result<
        Vec<u8>,
        SerializeError,
    >) {
        let archived = ArchivedAliasValue::new(field);
        serialize_pair::<AsCacheable, AsCacheable, bool, String, C>(
            &archived.is_ignore,
            &archived.path,
            serializer,
        )
    }
}

impl<C> DeserializeWith<AliasValue, C> for AsPreset {
    open spec fn restores(bytes: Seq<u8>, ctx: C) -> Result<Option<Seq<char>>, DeserializeError> {
        match <AliasStrategy as DeserializeWith<(bool, String), C>>::restores(bytes, ctx) {
            Ok(fields) => Ok(alias_of(fields)),
            Err(e) => Err(e),
        }
    }

    fn deserialize_with(bytes: &[u8], deserializer: &CacheableDeserializer<'_, C>) -> (r: Result<
        AliasValue,
        DeserializeError,
    >) {
        match <AliasStrategy as DeserializeWith<(bool, String), C>>::deserialize_with(
            bytes,
            deserializer,
        ) {
            Ok((is_ignore, path)) => Ok(ArchivedAliasValue { is_ignore, path }.deserialize()),
            Err(e) => Err(e),
        }
    }
}

impl<C> CacheableWith<AliasValue, C> for AsPreset {
    open spec fn faithful() -> bool {
        true
    }

    proof fn lemma_round_trip(bytes: Seq<u8>, field: Option<Seq<char>>, ctx: C) {
        <AliasStrategy as CacheableWith<(bool, String), C>>::lemma_round_trip(
            bytes,
            alias_fields(field),
            ctx,
        );
    }
}

} // verus!
