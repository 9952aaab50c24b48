//! The preset for sources of generated code: a source is archived as a run
//! of bytes tagged with the kind of source that it is.

use crate::archive::archive_blob;
use crate::archive::blob_archive;
use crate::archive::blob_restored;
use crate::archive::restore_blob;
use crate::deserialize::from_bytes;
use crate::deserialize::read_ok;
use crate::deserialize::CacheableDeserializer;
use crate::deserialize::Deserialize;
use crate::deserialize::DeserializeError;
use crate::model::Model;
use crate::serialize::to_bytes;
use crate::serialize::CacheableSerializer;
use crate::serialize::Serialize;
use crate::serialize::SerializeError;
use crate::utils::type_wrapper::archives_tagged;
use crate::utils::type_wrapper::lemma_tagged_round_trip;
use crate::utils::type_wrapper::restores_tagged;
use crate::utils::TypeWrapper;
use crate::utils::TypeWrapperRef;
use crate::with::as_preset::AsPreset;
use crate::with::as_tuple2::serialize_pair;
use crate::with::AsCacheable;
use crate::with::CacheableWith;
use crate::with::DeserializeWith;
use crate::with::SerializeWith;
use crate::Cacheable;
use vstd::prelude::*;
use vstd::string::StringExecFns;
use vstd::utf8::decode_utf8;
use vstd::utf8::encode_utf8;
use vstd::utf8::valid_utf8;

verus! {

/// The error of a source of a kind that the cache does not keep, and of a
/// tag that names no kind of source.
pub const UNSUPPORTED_SOURCE: &'static str = "unsupported box source";

/// The error of bytes that are no text where the kind of source asks for
/// text.
pub const NO_TEXT: &'static str = "unexpect bytes";

/// A source of generated code, as far as the cache keeps it.
#[derive(Debug, Clone, PartialEq, Eq)]
pub enum SourceValue {
    /// Raw bytes.
    RawBuffer(Vec<u8>),
    /// Raw text.
    RawSource(String),
    /// The text of an original file with the file's name.
    Original { name: String, source: String },
    /// Any other kind of source: the cache does not keep it.
    Other,
}

/// The model of a source.
pub enum SourceModel {
    RawBuffer(Seq<u8>),
    RawSource(Seq<char>),
    Original { name: Seq<char>, source: Seq<char> },
    Other,
}

impl Model for SourceValue {
    type M = SourceModel;

    open spec fn model(&self) -> SourceModel {
        match self {
            SourceValue::RawBuffer(buffer) => SourceModel::RawBuffer(buffer@),
            SourceValue::RawSource(source) => SourceModel::RawSource(source@),
            SourceValue::Original { name, source } => SourceModel::Original {
                name: name@,
                source: source@,
            },
            SourceValue::Other => SourceModel::Other,
        }
    }
}

/// Whether `tagged` is a tagged run of bytes that stands for `source`: the
/// bytes themselves under the tag of raw bytes, the bytes of the text
/// under the tag of raw text, an archived form of the pair of name and
/// text under the tag of an original file. A source of another kind has
/// none.
pub open spec fn tags(tagged: (Seq<char>, Seq<u8>), source: SourceModel) -> bool {
    match source {
        SourceModel::RawBuffer(buffer) => tagged == ("RawSource::Buffer"@, buffer),
        SourceModel::RawSource(text) => tagged == ("RawSource::Source"@, encode_utf8(text)),
        SourceModel::Original { name, source } => tagged.0 == "OriginalSource"@ && <(
            String,
            String,
        ) as Serialize<()>>::archives(tagged.1, (name, source), ()),
        SourceModel::Other => false,
    }
}

/// The source that a tagged run of bytes stands for, or the error with
/// which it stands for none.
pub open spec fn source_of(tagged: (Seq<char>, Seq<u8>)) -> Result<SourceModel, DeserializeError> {
    if tagged.0 == "RawSource::Buffer"@ {
        Ok(SourceModel::RawBuffer(tagged.1))
    } else if tagged.0 == "RawSource::Source"@ {
        if valid_utf8(tagged.1) {
            Ok(SourceModel::RawSource(decode_utf8(tagged.1)))
        } else {
            Err(DeserializeError::DeserializeFailed(NO_TEXT))
        }
    } else if tagged.0 == "OriginalSource"@ {
        match <(String, String) as Deserialize<()>>::restores(tagged.1, ()) {
            Ok(pair) => Ok(SourceModel::Original { name: pair.0, source: pair.1 }),
            Err(e) => Err(e),
        }
    } else {
        Err(DeserializeError::DeserializeFailed(UNSUPPORTED_SOURCE))
    }
}

/// `String::from_utf8`: the text that the bytes encode, or nothing where
/// they are no UTF-8.
#[verifier::external_body]
fn text_from_utf8(bytes: Vec<u8>) -> (text: Option<String>)
    ensures
        text.is_some() == valid_utf8(bytes@),
        text matches Some(text) ==> text@ == decode_utf8(bytes@),
{
    String::from_utf8(bytes).ok()
}

/// Rebuilds the source that a tagged run of bytes stands for. A tag that
/// names no kind of source, or bytes that are not what the kind asks for,
/// are refused.
pub fn rebuild_source(tagged: TypeWrapper) -> (r: Result<SourceValue, DeserializeError>)
    ensures
        match source_of(tagged.model()) {
            Ok(source) => r matches Ok(value) && value.model() == source,
            Err(e) => r matches Err(f) && f == e,
        },
{
    let TypeWrapper { name, bytes } = tagged;
    if name == String::from_str("RawSource::Buffer") {
        Ok(SourceValue::RawBuffer(bytes))
    } else if name == String::from_str("RawSource::Source") {
        match text_from_utf8(bytes) {
            Some(source) => Ok(SourceValue::RawSource(source)),
            None => Err(DeserializeError::DeserializeFailed(NO_TEXT)),
        }
    } else if name == String::from_str("OriginalSource") {
        let unit = ();
        match from_bytes::<(String, String), ()>(bytes.as_slice(), &unit) {
            Ok((name, source)) => Ok(SourceValue::Original { name, source }),
            Err(e) => Err(e),
        }
    } else {
        Err(DeserializeError::DeserializeFailed(UNSUPPORTED_SOURCE))
    }
}

/// The tagged run of bytes of a source that the cache keeps, archived.
/// Nothing is made of a source of another kind.
pub fn tag_source(source: &SourceValue) -> (r: Result<Vec<u8>, SerializeError>)
    ensures
        match r {
            Ok(inner) => exists|tagged: (Seq<char>, Seq<u8>)| #[trigger]
                tags(tagged, source.model()) && archives_tagged(inner@, tagged),
            Err(e) => source.model() is Other && e == SerializeError::SerializeFailed(
                UNSUPPORTED_SOURCE,
            ),
        },
{
    let unit = ();
    match source {
        SourceValue::RawBuffer(buffer) => {
            let r = to_bytes(
                &TypeWrapperRef { name: "RawSource::Buffer", bytes: buffer.as_slice() },
                &unit,
            );
            proof {
                assert(tags(("RawSource::Buffer"@, buffer@), source.model()));
            }
            r
        },
        SourceValue::RawSource(text) => {
            let r = to_bytes(
                &TypeWrapperRef { name: "RawSource::Source", bytes: text.as_str().as_bytes() },
                &unit,
            );
            proof {
                assert(tags(("RawSource::Source"@, encode_utf8(text@)), source.model()));
            }
            r
        },
        SourceValue::Original { name, source: text } => {
            let pass = CacheableSerializer::new(&unit);
            let pair = match serialize_pair::<AsCacheable, AsCacheable, String, String, ()>(
                name,
                text,
                &pass,
            ) {
                Ok(pair) => pair,
                Err(e) => { return Err(e); },
            };
            let r = to_bytes(&TypeWrapperRef { name: "OriginalSource", bytes: pair.as_slice() }, &unit);
            proof {
                assert(tags(("OriginalSource"@, pair@), source.model()));
            }
            r
        },
        SourceValue::Other => Err(SerializeError::SerializeFailed(UNSUPPORTED_SOURCE)),
    }
}

impl<C> SerializeWith<SourceValue, C> for AsPreset {
    open spec fn archives(bytes: Seq<u8>, field: SourceModel, ctx: C) -> bool {
        exists|tagged: (Seq<char>, Seq<u8>), inner: Seq<u8>|
            {
                &&& #[trigger] tags(tagged, field)
                &&& #[trigger] archives_tagged(inner, tagged)
                &&& bytes == blob_archive(inner)
                &&& blob_restored(bytes) == read_ok(inner)
            }
    }

    /// A source of a kind that the cache does not keep is refused, so that
    /// nothing is archived that cannot be read back.
    open spec fn refuses(field: SourceModel, ctx: C, e: SerializeError) -> bool {
        field is Other && e == SerializeError::SerializeFailed(UNSUPPORTED_SOURCE)
    }

    fn serialize_with(field: &SourceValue, serializer: &CacheableSerializer<'_, C>) -> (r: Result<
        Vec<u8>,
        SerializeError,
    >)
        ensures
            r is Ok <==> !(field.model() is Other),
    {
        let inner = match tag_source(field) {
            Ok(inner) => inner,
            Err(e) => { return Err(e); },
        };
        archive_blob(&inner)
    }
}

impl<C> DeserializeWith<SourceValue, C> for AsPreset {
    open spec fn restores(bytes: Seq<u8>, ctx: C) -> Result<SourceModel, DeserializeError> {
        match blob_restored(bytes) {
            Err(e) => Err(e),
            Ok(inner) => match restores_tagged(inner) {
                Err(e) => Err(e),
                Ok(tagged) => source_of(tagged),
            },
        }
    }

    fn deserialize_with(bytes: &[u8], deserializer: &CacheableDeserializer<'_, C>) -> (r: Result<
        SourceValue,
        DeserializeError,
    >) {
        let unit = ();
        let inner = match restore_blob(bytes) {
            Ok(inner) => inner,
            Err(e) => { return Err(e); },
        };
        let tagged: TypeWrapper = match from_bytes(inner.as_slice(), &unit) {
            Ok(tagged) => tagged,
            Err(e) => { return Err(e); },
        };
        rebuild_source(tagged)
    }
}

/// A tagged run of bytes that stands for a source is read as that source.
pub proof fn lemma_tag_round_trip(tagged: (Seq<char>, Seq<u8>), source: SourceModel)
    requires
        tags(tagged, source),
    ensures
        source_of(tagged) == read_ok(source),
{
    broadcast use vstd::utf8::encode_utf8_valid_utf8, vstd::utf8::encode_utf8_decode_utf8;

    reveal_strlit("RawSource::Buffer");
    reveal_strlit("RawSource::Source");
    reveal_strlit("OriginalSource");
    match source {
        SourceModel::RawBuffer(_) => {},
        SourceModel::RawSource(text) => {
            assert("RawSource::Source"@[11] != "RawSource::Buffer"@[11]);
        },
        SourceModel::Original { name, source } => {
            assert("OriginalSource"@.len() != "RawSource::Buffer"@.len());
            <(String, String) as Cacheable<()>>::lemma_round_trip(tagged.1, (name, source), ());
        },
        SourceModel::Other => {},
    }
}

impl<C> CacheableWith<SourceValue, C> for AsPreset {
    open spec fn faithful() -> bool {
        true
    }

    proof fn lemma_round_trip(bytes: Seq<u8>, field: SourceModel, ctx: C) {
        let (tagged, inner) = choose|tagged: (Seq<char>, Seq<u8>), inner: Seq<u8>|
            {
                &&& #[trigger] tags(tagged, field)
                &&& #[trigger] archives_tagged(inner, tagged)
                &&& bytes == blob_archive(inner)
                &&& blob_restored(bytes) == read_ok(inner)
            };
        lemma_tagged_round_trip(inner, tagged);
        lemma_tag_round_trip(tagged, field);
    }
}

} // verus!
