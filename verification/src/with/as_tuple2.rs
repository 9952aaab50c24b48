//! The strategy for pairs: each of the two fields is archived with a
//! strategy of its own.

use crate::archive::archive_list;
use crate::archive::list_archive;
use crate::archive::list_restored;
use crate::archive::restore_list;
use crate::deserialize::read_ok;
use crate::deserialize::CacheableDeserializer;
use crate::deserialize::DeserializeError;
use crate::model::runs;
use crate::model::Model;
use crate::serialize::CacheableSerializer;
use crate::serialize::SerializeError;
use crate::with::archivable;
use crate::with::AsCacheable;
use crate::with::CacheableWith;
use crate::with::DeserializeWith;
use crate::with::SerializeWith;
use vstd::prelude::*;

verus! {

/// The list of two parts.
pub open spec fn two(a: Seq<u8>, b: Seq<u8>) -> Seq<Seq<u8>> {
    seq![a, b]
}

/// A pair of archived forms.
pub struct Tuple2<A, B> {
    pub(crate) a: A,
    pub(crate) b: B,
}

/// Archives a pair, the first field with `A` and the second with `B`.
pub struct AsTuple2<A = AsCacheable, B = AsCacheable> {
    _target: (A, B),
}

impl Tuple2<Vec<u8>, Vec<u8>> {
    /// The two archived forms, in their order.
    pub closed spec fn parts(self) -> Seq<Seq<u8>> {
        two(self.a@, self.b@)
    }

    /// Accepts a list of parts as a pair if it has two of them.
    pub fn check_bytes(parts: Vec<Vec<u8>>) -> (r: Result<Self, DeserializeError>)
        ensures
            match r {
                Ok(pair) => runs(parts@).len() == 2 && pair.parts() == runs(parts@),
                Err(e) => runs(parts@).len() != 2 && e is CheckBytesError,
            },
    {
        let mut parts = parts;
        let ghost all = runs(parts@);
        if parts.len() != 2 {
            return Err(DeserializeError::CheckBytesError);
        }
        let b = parts.pop().unwrap();
        let a = parts.pop().unwrap();
        assert(two(a@, b@) =~= all);
        Ok(Tuple2 { a, b })
    }

    /// The parts of a pair are its two fields.
    pub(crate) proof fn lemma_parts(self)
        ensures
            self.parts() == two(self.a@, self.b@),
    {
    }

    /// The list of the two parts.
    pub(crate) fn into_parts(self) -> (parts: Vec<Vec<u8>>)
        ensures
            runs(parts@) == self.parts(),
            runs(parts@) == two(self.a@, self.b@),
    {
        let mut parts: Vec<Vec<u8>> = Vec::new();
        parts.push(self.a);
        parts.push(self.b);
        assert(runs(parts@) =~= self.parts());
        parts
    }
}

impl<A: SerializeWith<K, C>, B: SerializeWith<V, C>, K: Model, V: Model, C> SerializeWith<
    (K, V),
    C,
> for AsTuple2<A, B> {
    open spec fn archives(bytes: Seq<u8>, field: (K::M, V::M), ctx: C) -> bool {
        exists|a: Seq<u8>, b: Seq<u8>|
            {
                &&& A::archives(a, field.0, ctx)
                &&& B::archives(b, field.1, ctx)
                &&& bytes == list_archive(#[trigger] two(a, b))
                &&& list_restored(bytes) == read_ok(two(a, b))
            }
    }

    /// The error is that of the first field that is refused.
    open spec fn refuses(field: (K::M, V::M), ctx: C, e: SerializeError) -> bool {
        A::refuses(field.0, ctx, e) || (archivable::<A, K, C>(field.0, ctx) && B::refuses(
            field.1,
            ctx,
            e,
        ))
    }

    fn serialize_with(field: &(K, V), serializer: &CacheableSerializer<'_, C>) -> (r: Result<
        Vec<u8>,
        SerializeError,
    >) {
        serialize_pair::<A, B, K, V, C>(&field.0, &field.1, serializer)
    }
}

/// Archives two archived forms as the list of the two.
pub fn archive_two(a: Vec<u8>, b: Vec<u8>) -> (r: Result<Vec<u8>, SerializeError>)
    ensures
        r matches Ok(bytes) ==> bytes@ == list_archive(two(a@, b@)) && list_restored(bytes@)
            == read_ok(two(a@, b@)),
        r is Ok,
{
    let pair = Tuple2 { a, b };
    let parts = pair.into_parts();
    archive_list(&parts)
}

/// Reads the list of two archived forms back. A list of another length is
/// a validation failure.
pub fn restore_two(bytes: &[u8]) -> (r: Result<(Vec<u8>, Vec<u8>), DeserializeError>)
    ensures
        match list_restored(bytes@) {
            Err(e) => r matches Err(f) && f == e,
            Ok(parts) => if parts.len() != 2 {
                r matches Err(e) && e is CheckBytesError
            } else {
                r matches Ok(pair) && pair.0@ == parts[0] && pair.1@ == parts[1]
            },
        },
{
    let parts = match restore_list(bytes) {
        Ok(parts) => parts,
        Err(e) => { return Err(e); },
    };
    match Tuple2::check_bytes(parts) {
        Ok(pair) => Ok((pair.a, pair.b)),
        Err(e) => Err(e),
    }
}

/// Archives two fields as a pair, the first with `A` and the second with
/// `B`.
pub fn serialize_pair<A: SerializeWith<K, C>, B: SerializeWith<V, C>, K: Model, V: Model, C>(
    first: &K,
    second: &V,
    serializer: &CacheableSerializer<'_, C>,
) -> (r: Result<Vec<u8>, SerializeError>)
    ensures
        r matches Ok(bytes) ==> <AsTuple2<A, B> as SerializeWith<(K, V), C>>::archives(
            bytes@,
            (first.model(), second.model()),
            serializer.ctx(),
        ),
        r matches Err(e) ==> <AsTuple2<A, B> as SerializeWith<(K, V), C>>::refuses(
            (first.model(), second.model()),
            serializer.ctx(),
            e,
        ),
{
    let a = match A::serialize_with(first, serializer) {
        Ok(a) => a,
        Err(e) => { return Err(e); },
    };
    let b = match B::serialize_with(second, serializer) {
        Ok(b) => b,
        Err(e) => { return Err(e); },
    };
    let pair = Tuple2 { a, b };
    let parts = pair.into_parts();
    archive_list(&parts)
}

impl<A: DeserializeWith<K, C>, B: DeserializeWith<V, C>, K: Model, V: Model, C> DeserializeWith<
    (K, V),
    C,
> for AsTuple2<A, B> {
    open spec fn restores(bytes: Seq<u8>, ctx: C) -> Result<(K::M, V::M), DeserializeError> {
        match list_restored(bytes) {
            Err(e) => Err(e),
            Ok(parts) => if parts.len() != 2 {
                Err(DeserializeError::CheckBytesError)
            } else {
                match A::restores(parts[0], ctx) {
                    Err(e) => Err(e),
                    Ok(a) => match B::restores(parts[1], ctx) {
                        Err(e) => Err(e),
                        Ok(b) => Ok((a, b)),
                    },
                }
            },
        }
    }

    fn deserialize_with(bytes: &[u8], deserializer: &CacheableDeserializer<'_, C>) -> (r: Result<
        (K, V),
        DeserializeError,
    >) {
        let parts = match restore_list(bytes) {
            Ok(parts) => parts,
            Err(e) => { return Err(e); },
        };
        let pair = match Tuple2::check_bytes(parts) {
            Ok(pair) => pair,
            Err(e) => { return Err(e); },
        };
        let a = match A::deserialize_with(pair.a.as_slice(), deserializer) {
            Ok(a) => a,
            Err(e) => { return Err(e); },
        };
        let b = match B::deserialize_with(pair.b.as_slice(), deserializer) {
            Ok(b) => b,
            Err(e) => { return Err(e); },
        };
        Ok((a, b))
    }
}

impl<A: CacheableWith<K, C>, B: CacheableWith<V, C>, K: Model, V: Model, C> CacheableWith<
    (K, V),
    C,
> for AsTuple2<A, B> {
    open spec fn faithful() -> bool {
        A::faithful() && B::faithful()
    }

    proof fn lemma_round_trip(bytes: Seq<u8>, field: (K::M, V::M), ctx: C) {
        let (a, b) = choose|a: Seq<u8>, b: Seq<u8>|
            {
                &&& A::archives(a, field.0, ctx)
                &&& B::archives(b, field.1, ctx)
                &&& bytes == list_archive(#[trigger] two(a, b))
                &&& list_restored(bytes) == read_ok(two(a, b))
            };
        A::lemma_round_trip(a, field.0, ctx);
        B::lemma_round_trip(b, field.1, ctx);
    }
}

} // verus!
