//! A run of bytes tagged with the name of the type that it stands for.

use crate::archive::archive_blob;
use crate::archive::archive_list;
use crate::archive::archive_text;
use crate::archive::blob_archive;
use crate::archive::blob_restored;
use crate::archive::list_archive;
use crate::archive::list_restored;
use crate::archive::restore_blob;
use crate::archive::restore_list;
use crate::archive::restore_text;
use crate::archive::text_archive;
use crate::archive::text_restored;
use crate::deserialize::read_ok;
use crate::deserialize::CacheableDeserializer;
use crate::deserialize::Deserialize;
use crate::deserialize::DeserializeError;
use crate::model::Model;
use crate::serialize::CacheableSerializer;
use crate::serialize::Serialize;
use crate::serialize::SerializeError;
use crate::with::as_tuple2::two;
use crate::with::Tuple2;
use vstd::prelude::*;
use vstd::slice::slice_to_vec;
use vstd::string::StringExecFns;

verus! {

/// A borrowed tagged run of bytes: the form that is archived.
pub struct TypeWrapperRef<'a> {
    pub name: &'a str,
    pub bytes: &'a [u8],
}

/// The archived form of a tagged run of bytes: the archived name and the
/// archived run.
pub struct ArchivedTypeWrapper {
    name: Vec<u8>,
    bytes: Vec<u8>,
}

/// An owned tagged run of bytes: the form that is rebuilt.
pub struct TypeWrapper {
    pub name: String,
    pub bytes: Vec<u8>,
}

impl<'a> Model for TypeWrapperRef<'a> {
    type M = (Seq<char>, Seq<u8>);

    open spec fn model(&self) -> (Seq<char>, Seq<u8>) {
        (self.name@, self.bytes@)
    }
}

impl Model for TypeWrapper {
    type M = (Seq<char>, Seq<u8>);

    open spec fn model(&self) -> (Seq<char>, Seq<u8>) {
        (self.name@, self.bytes@)
    }
}

/// Whether `bytes` is the archived form of the run `tagged.1` under the name
/// `tagged.0`: the list of the archived name and the archived run.
pub open spec fn archives_tagged(bytes: Seq<u8>, tagged: (Seq<char>, Seq<u8>)) -> bool {
    let name = text_archive(tagged.0);
    let run = blob_archive(tagged.1);
    &&& text_restored(name) == read_ok(tagged.0)
    &&& blob_restored(run) == read_ok(tagged.1)
    &&& bytes == list_archive(two(name, run))
    &&& list_restored(bytes) == read_ok(two(name, run))
}

/// What reading `bytes` as a tagged run of bytes gives.
pub open spec fn restores_tagged(bytes: Seq<u8>) -> Result<(Seq<char>, Seq<u8>), DeserializeError> {
    match list_restored(bytes) {
        Err(e) => Err(e),
        Ok(parts) => if parts.len() != 2 {
            Err(DeserializeError::CheckBytesError)
        } else {
            match text_restored(parts[0]) {
                Err(e) => Err(e),
                Ok(name) => match blob_restored(parts[1]) {
                    Err(e) => Err(e),
                    Ok(run) => Ok((name, run)),
                },
            }
        },
    }
}

impl<'a, C> Serialize<C> for TypeWrapperRef<'a> {
    open spec fn archives(bytes: Seq<u8>, value: (Seq<char>, Seq<u8>), ctx: C) -> bool {
        archives_tagged(bytes, value)
    }

    open spec fn refuses(value: (Seq<char>, Seq<u8>), ctx: C, e: SerializeError) -> bool {
        false
    }

    fn serialize(&self, serializer: &CacheableSerializer<'_, C>) -> (r: Result<
        Vec<u8>,
        SerializeError,
    >)
        ensures
            r is Ok,
    {
        let name = match archive_text(&String::from_str(self.name)) {
            Ok(name) => name,
            Err(e) => { return Err(e); },
        };
        let run = match archive_blob(&slice_to_vec(self.bytes)) {
            Ok(run) => run,
            Err(e) => { return Err(e); },
        };
        let pair = Tuple2 { a: name, b: run };
        archive_list(&pair.into_parts())
    }
}

impl ArchivedTypeWrapper {
    /// The archived name and the archived run, in this order.
    pub closed spec fn parts(self) -> Seq<Seq<u8>> {
        two(self.name@, self.bytes@)
    }

    /// Accepts `bytes` as the archived form of a tagged run if they are a
    /// list of two parts.
    pub fn check_bytes(bytes: &[u8]) -> (r: Result<Self, DeserializeError>)
        ensures
            match list_restored(bytes@) {
                Err(e) => r matches Err(f) && f == e,
                Ok(parts) => if parts.len() != 2 {
                    r matches Err(e) && e is CheckBytesError
                } else {
                    r matches Ok(archived) && archived.parts() == parts
                },
            },
    {
        let parts = match restore_list(bytes) {
            Ok(parts) => parts,
            Err(e) => { return Err(e); },
        };
        match Tuple2::check_bytes(parts) {
            Ok(pair) => {
                proof {
                    pair.lemma_parts();
                }
                Ok(ArchivedTypeWrapper { name: pair.a, bytes: pair.b })
            },
            Err(e) => Err(e),
        }
    }

    /// Rebuilds the tagged run: reads the name, then the run.
    pub fn deserialize(&self) -> (r: Result<TypeWrapper, DeserializeError>)
        ensures
            match text_restored(self.parts()[0]) {
                Err(e) => r matches Err(f) && f == e,
                Ok(name) => match blob_restored(self.parts()[1]) {
                    Err(e) => r matches Err(f) && f == e,
                    Ok(run) => r matches Ok(tagged) && tagged.model() == (name, run),
                },
            },
    {
        let name = match restore_text(self.name.as_slice()) {
            Ok(name) => name,
            Err(e) => { return Err(e); },
        };
        let bytes = match restore_blob(self.bytes.as_slice()) {
            Ok(bytes) => bytes,
            Err(e) => { return Err(e); },
        };
        Ok(TypeWrapper { name, bytes })
    }
}

impl<C> Deserialize<C> for TypeWrapper {
    open spec fn restores(bytes: Seq<u8>, ctx: C) -> Result<(Seq<char>, Seq<u8>), DeserializeError> {
        restores_tagged(bytes)
    }

    fn deserialize(bytes: &[u8], deserializer: &CacheableDeserializer<'_, C>) -> (r: Result<
        Self,
        DeserializeError,
    >) {
        let archived = match ArchivedTypeWrapper::check_bytes(bytes) {
            Ok(archived) => archived,
            Err(e) => { return Err(e); },
        };
        archived.deserialize()
    }
}

/// A tagged run of bytes comes back from its archived form.
pub proof fn lemma_tagged_round_trip(bytes: Seq<u8>, tagged: (Seq<char>, Seq<u8>))
    requires
        archives_tagged(bytes, tagged),
    ensures
        restores_tagged(bytes) == read_ok(tagged),
{
}

} // verus!
