//! The archived forms that are read and written as a whole: a text, a run of
//! bytes, and a list of byte runs. Every other archived form is built from
//! these.

use crate::deserialize::read_err;
use crate::deserialize::read_ok;
use crate::deserialize::DeserializeError;
use crate::model::runs;
use crate::serialize::SerializeError;
use rkyv::ser::serializers::CompositeSerializerError;
use rkyv::validation::validators::CheckDeserializeError;
use rkyv::AlignedVec;
use vstd::prelude::*;

verus! {

/// The archive that `rkyv::to_bytes` makes of a `String`.
pub uninterp spec fn text_archive(text: Seq<char>) -> Seq<u8>;

/// What `rkyv::from_bytes` makes of a buffer read as a `String`.
pub uninterp spec fn text_restored(bytes: Seq<u8>) -> Result<Seq<char>, DeserializeError>;

/// The archive that `rkyv::to_bytes` makes of a `Vec<u8>`.
pub uninterp spec fn blob_archive(blob: Seq<u8>) -> Seq<u8>;

/// What `rkyv::from_bytes` makes of a buffer read as a `Vec<u8>`.
pub uninterp spec fn blob_restored(bytes: Seq<u8>) -> Result<Seq<u8>, DeserializeError>;

/// The archive that `rkyv::to_bytes` makes of a `Vec<Vec<u8>>`.
pub uninterp spec fn list_archive(parts: Seq<Seq<u8>>) -> Seq<u8>;

/// What `rkyv::from_bytes` makes of a buffer read as a `Vec<Vec<u8>>`.
pub uninterp spec fn list_restored(bytes: Seq<u8>) -> Result<Seq<Seq<u8>>, DeserializeError>;

/// `rkyv::to_bytes` on a `String`. The archive depends on the text alone, and
/// `rkyv::from_bytes` reads the text back from it. The call always succeeds: the
/// writer cannot fail, its scratch space has no limit, and nothing shared
/// is registered.
#[verifier::external_body]
pub(crate) fn archive_text(text: &String) -> (r: Result<Vec<u8>, SerializeError>)
    ensures
        r matches Ok(bytes) ==> bytes@ == text_archive(text@) && text_restored(bytes@) == read_ok(text@),
        r is Ok,
{
    match rkyv::to_bytes::<String, 1024>(text) {
        Ok(bytes) => Ok(bytes.to_vec()),
        Err(CompositeSerializerError::SerializerError(e)) => Err(SerializeError::SerializerError(e)),
        Err(CompositeSerializerError::ScratchSpaceError(e)) => Err(
            SerializeError::ScratchSpaceError(e),
        ),
        Err(CompositeSerializerError::SharedError(e)) => Err(SerializeError::SharedError(e)),
    }
}

/// `rkyv::from_bytes` as a `String`, on a copy of `bytes` in an `AlignedVec`,
/// so that the outcome depends on the bytes alone. A buffer that fails the
/// check gives `CheckBytesError`.
#[verifier::external_body]
pub(crate) fn restore_text(bytes: &[u8]) -> (r: Result<String, DeserializeError>)
    ensures
        r matches Ok(text) ==> text_restored(bytes@) == read_ok(text@),
        r matches Err(e) ==> text_restored(bytes@) == read_err::<Seq<char>>(e),
{
    let mut aligned = AlignedVec::with_capacity(bytes.len());
    aligned.extend_from_slice(bytes);
    match rkyv::from_bytes::<String>(&aligned) {
        Ok(text) => Ok(text),
        Err(CheckDeserializeError::CheckBytesError(_)) => Err(DeserializeError::CheckBytesError),
        Err(CheckDeserializeError::DeserializeError(_)) => Err(
            DeserializeError::DuplicateSharedPointer,
        ),
    }
}

/// `rkyv::to_bytes` on a `Vec<u8>`. The archive depends on the bytes alone,
/// and `rkyv::from_bytes` reads them back from it. The call always succeeds: the
/// writer cannot fail, its scratch space has no limit, and nothing shared
/// is registered.
#[verifier::external_body]
pub(crate) fn archive_blob(blob: &Vec<u8>) -> (r: Result<Vec<u8>, SerializeError>)
    ensures
        r matches Ok(bytes) ==> bytes@ == blob_archive(blob@) && blob_restored(bytes@) == read_ok(blob@),
        r is Ok,
{
    match rkyv::to_bytes::<Vec<u8>, 1024>(blob) {
        Ok(bytes) => Ok(bytes.to_vec()),
        Err(CompositeSerializerError::SerializerError(e)) => Err(SerializeError::SerializerError(e)),
        Err(CompositeSerializerError::ScratchSpaceError(e)) => Err(
            SerializeError::ScratchSpaceError(e),
        ),
        Err(CompositeSerializerError::SharedError(e)) => Err(SerializeError::SharedError(e)),
    }
}

/// `rkyv::from_bytes` as a `Vec<u8>`, on a copy of `bytes` in an
/// `AlignedVec`, so that the outcome depends on the bytes alone. A buffer
/// that fails the check gives `CheckBytesError`.
#[verifier::external_body]
pub(crate) fn restore_blob(bytes: &[u8]) -> (r: Result<Vec<u8>, DeserializeError>)
    ensures
        r matches Ok(blob) ==> blob_restored(bytes@) == read_ok(blob@),
        r matches Err(e) ==> blob_restored(bytes@) == read_err::<Seq<u8>>(e),
{
    let mut aligned = AlignedVec::with_capacity(bytes.len());
    aligned.extend_from_slice(bytes);
    match rkyv::from_bytes::<Vec<u8>>(&aligned) {
        Ok(blob) => Ok(blob),
        Err(CheckDeserializeError::CheckBytesError(_)) => Err(DeserializeError::CheckBytesError),
        Err(CheckDeserializeError::DeserializeError(_)) => Err(
            DeserializeError::DuplicateSharedPointer,
        ),
    }
}

/// `rkyv::to_bytes` on a `Vec<Vec<u8>>`. The archive depends on the parts
/// alone, in their order, and `rkyv::from_bytes` reads them back from it. The
/// call always succeeds: the writer cannot fail, its scratch space has no
/// limit, and nothing shared is registered.
#[verifier::external_body]
pub(crate) fn archive_list(parts: &Vec<Vec<u8>>) -> (r: Result<Vec<u8>, SerializeError>)
    ensures
        r matches Ok(bytes) ==> bytes@ == list_archive(runs(parts@)) && list_restored(bytes@)
            == read_ok(runs(parts@)),
        r is Ok,
{
    match rkyv::to_bytes::<Vec<Vec<u8>>, 1024>(parts) {
        Ok(bytes) => Ok(bytes.to_vec()),
        Err(CompositeSerializerError::SerializerError(e)) => Err(SerializeError::SerializerError(e)),
        Err(CompositeSerializerError::ScratchSpaceError(e)) => Err(
            SerializeError::ScratchSpaceError(e),
        ),
        Err(CompositeSerializerError::SharedError(e)) => Err(SerializeError::SharedError(e)),
    }
}

/// `rkyv::from_bytes` as a `Vec<Vec<u8>>`, on a copy of `bytes` in an
/// `AlignedVec`, so that the outcome depends on the bytes alone. A buffer
/// that fails the check gives `CheckBytesError`.
#[verifier::external_body]
pub(crate) fn restore_list(bytes: &[u8]) -> (r: Result<Vec<Vec<u8>>, DeserializeError>)
    ensures
        r matches Ok(parts) ==> list_restored(bytes@) == read_ok(runs(parts@)),
        r matches Err(e) ==> list_restored(bytes@) == read_err::<Seq<Seq<u8>>>(e),
{
    let mut aligned = AlignedVec::with_capacity(bytes.len());
    aligned.extend_from_slice(bytes);
    match rkyv::from_bytes::<Vec<Vec<u8>>>(&aligned) {
        Ok(parts) => Ok(parts),
        Err(CheckDeserializeError::CheckBytesError(_)) => Err(DeserializeError::CheckBytesError),
        Err(CheckDeserializeError::DeserializeError(_)) => Err(
            DeserializeError::DuplicateSharedPointer,
        ),
    }
}

} // verus!
