//! The strategy for triples: each of the three fields is archived with a
//! strategy of its own.

use crate::archive::archive_list;
use crate::archive::list_archive;
use crate::archive::list_restored;
use crate::archive::restore_list;
use crate::deserialize::read_ok;
use crate::deserialize::CacheableDeserializer;
use crate::deserialize::DeserializeError;
use crate::model::runs;
use crate::model::Model;
use crate::serialize::CacheableSerializer;
use crate::serialize::SerializeError;
use crate::with::archivable;
use crate::with::AsCacheable;
use crate::with::CacheableWith;
use crate::with::DeserializeWith;
use crate::with::SerializeWith;
use vstd::prelude::*;

verus! {

/// The list of three parts.
pub open spec fn three(a: Seq<u8>, b: Seq<u8>, c: Seq<u8>) -> Seq<Seq<u8>> {
    seq![a, b, c]
}

/// A triple of archived forms.
pub struct Tuple3<A, B, C> {
    a: A,
    b: B,
    c: C,
}

/// Archives a triple, the fields with `A`, `B` and `C` in their order.
pub struct AsTuple3<A = AsCacheable, B = AsCacheable, C = AsCacheable> {
    _target: (A, B, C),
}

impl Tuple3<Vec<u8>, Vec<u8>, Vec<u8>> {
    /// The three archived forms, in their order.
    pub closed spec fn parts(self) -> Seq<Seq<u8>> {
        three(self.a@, self.b@, self.c@)
    }

    /// Accepts a list of parts as a triple if it has three of them.
    pub fn check_bytes(parts: Vec<Vec<u8>>) -> (r: Result<Self, DeserializeError>)
        ensures
            match r {
                Ok(triple) => runs(parts@).len() == 3 && triple.parts() == runs(parts@),
                Err(e) => runs(parts@).len() != 3 && e is CheckBytesError,
            },
    {
        let mut parts = parts;
        let ghost all = runs(parts@);
        if parts.len() != 3 {
            return Err(DeserializeError::CheckBytesError);
        }
        let c = parts.pop().unwrap();
        let b = parts.pop().unwrap();
        let a = parts.pop().unwrap();
        assert(three(a@, b@, c@) =~= all);
        Ok(Tuple3 { a, b, c })
    }

    /// The list of the three parts.
    fn into_parts(self) -> (parts: Vec<Vec<u8>>)
        ensures
            runs(parts@) == self.parts(),
    {
        let mut parts: Vec<Vec<u8>> = Vec::new();
        parts.push(self.a);
        parts.push(self.b);
        parts.push(self.c);
        assert(runs(parts@) =~= self.parts());
        parts
    }
}

impl<
    A: SerializeWith<K, T>,
    B: SerializeWith<V, T>,
    C: SerializeWith<H, T>,
    K: Model,
    V: Model,
    H: Model,
    T,
> SerializeWith<(K, V, H), T> for AsTuple3<A, B, C> {
    open spec fn archives(bytes: Seq<u8>, field: (K::M, V::M, H::M), ctx: T) -> bool {
        exists|a: Seq<u8>, b: Seq<u8>, c: Seq<u8>|
            {
                &&& A::archives(a, field.0, ctx)
                &&& B::archives(b, field.1, ctx)
                &&& C::archives(c, field.2, ctx)
                &&& bytes == list_archive(#[trigger] three(a, b, c))
                &&& list_restored(bytes) == read_ok(three(a, b, c))
            }
    }

    /// The error is that of the first field that is refused.
    open spec fn refuses(field: (K::M, V::M, H::M), ctx: T, e: SerializeError) -> bool {
        ||| A::refuses(field.0, ctx, e)
        ||| archivable::<A, K, T>(field.0, ctx) && B::refuses(field.1, ctx, e)
        ||| archivable::<A, K, T>(field.0, ctx) && archivable::<B, V, T>(field.1, ctx)
            && C::refuses(field.2, ctx, e)
    }

    fn serialize_with(field: &(K, V, H), serializer: &CacheableSerializer<'_, T>) -> (r: Result<
        Vec<u8>,
        SerializeError,
    >) {
        serialize_triple::<A, B, C, K, V, H, T>(&field.0, &field.1, &field.2, serializer)
    }
}

/// Archives three archived forms as the list of the three.
pub fn archive_three(a: Vec<u8>, b: Vec<u8>, c: Vec<u8>) -> (r: Result<Vec<u8>, SerializeError>)
    ensures
        r matches Ok(bytes) ==> bytes@ == list_archive(three(a@, b@, c@)) && list_restored(bytes@)
            == read_ok(three(a@, b@, c@)),
        r is Ok,
{
    let triple = Tuple3 { a, b, c };
    let parts = triple.into_parts();
    let r = archive_list(&parts);
    proof {
        if r is Ok {
            assert(runs(parts@) == three(triple.a@, triple.b@, triple.c@));
        }
    }
    r
}

/// Reads the list of three archived forms back. A list of another length
/// is a validation failure.
pub fn restore_three(bytes: &[u8]) -> (r: Result<(Vec<u8>, Vec<u8>, Vec<u8>), DeserializeError>)
    ensures
        match list_restored(bytes@) {
            Err(e) => r matches Err(f) && f == e,
            Ok(parts) => if parts.len() != 3 {
                r matches Err(e) && e is CheckBytesError
            } else {
                r matches Ok(triple) && triple.0@ == parts[0] && triple.1@ == parts[1]
                    && triple.2@ == parts[2]
            },
        },
{
    let parts = match restore_list(bytes) {
        Ok(parts) => parts,
        Err(e) => { return Err(e); },
    };
    match Tuple3::check_bytes(parts) {
        Ok(triple) => Ok((triple.a, triple.b, triple.c)),
        Err(e) => Err(e),
    }
}

/// Archives three fields as a triple, with `A`, `B` and `C` in their order.
pub fn serialize_triple<
    A: SerializeWith<K, T>,
    B: SerializeWith<V, T>,
    C: SerializeWith<H, T>,
    K: Model,
    V: Model,
    H: Model,
    T,
>(first: &K, second: &V, third: &H, serializer: &CacheableSerializer<'_, T>) -> (r: Result<
    Vec<u8>,
    SerializeError,
>)
    ensures
        r matches Ok(bytes) ==> <AsTuple3<A, B, C> as SerializeWith<(K, V, H), T>>::archives(
            bytes@,
            (first.model(), second.model(), third.model()),
            serializer.ctx(),
        ),
        r matches Err(e) ==> <AsTuple3<A, B, C> as SerializeWith<(K, V, H), T>>::refuses(
            (first.model(), second.model(), third.model()),
            serializer.ctx(),
            e,
        ),
{
    let a = match A::serialize_with(first, serializer) {
        Ok(a) => a,
        Err(e) => { return Err(e); },
    };
    let b = match B::serialize_with(second, serializer) {
        Ok(b) => b,
        Err(e) => { return Err(e); },
    };
    let c = match C::serialize_with(third, serializer) {
        Ok(c) => c,
        Err(e) => { return Err(e); },
    };
    let triple = Tuple3 { a, b, c };
    let parts = triple.into_parts();
    let r = archive_list(&parts);
    proof {
        if r is Ok {
            assert(runs(parts@) == three(triple.a@, triple.b@, triple.c@));
        }
    }
    r
}

impl<
    A: DeserializeWith<K, T>,
    B: DeserializeWith<V, T>,
    C: DeserializeWith<H, T>,
    K: Model,
    V: Model,
    H: Model,
    T,
> DeserializeWith<(K, V, H), T> for AsTuple3<A, B, C> {
    open spec fn restores(bytes: Seq<u8>, ctx: T) -> Result<(K::M, V::M, H::M), DeserializeError> {
        match list_restored(bytes) {
            Err(e) => Err(e),
            Ok(parts) => if parts.len() != 3 {
                Err(DeserializeError::CheckBytesError)
            } else {
                match A::restores(parts[0], ctx) {
                    Err(e) => Err(e),
                    Ok(a) => match B::restores(parts[1], ctx) {
                        Err(e) => Err(e),
                        Ok(b) => match C::restores(parts[2], ctx) {
                            Err(e) => Err(e),
                            Ok(c) => Ok((a, b, c)),
                        },
                    },
                }
            },
        }
    }

    fn deserialize_with(bytes: &[u8], deserializer: &CacheableDeserializer<'_, T>) -> (r: Result<
        (K, V, H),
        DeserializeError,
    >) {
        let parts = match restore_list(bytes) {
            Ok(parts) => parts,
            Err(e) => { return Err(e); },
        };
        let triple = match Tuple3::check_bytes(parts) {
            Ok(triple) => triple,
            Err(e) => { return Err(e); },
        };
        let a = match A::deserialize_with(triple.a.as_slice(), deserializer) {
            Ok(a) => a,
            Err(e) => { return Err(e); },
        };
        let b = match B::deserialize_with(triple.b.as_slice(), deserializer) {
            Ok(b) => b,
            Err(e) => { return Err(e); },
        };
        let c = match C::deserialize_with(triple.c.as_slice(), deserializer) {
            Ok(c) => c,
            Err(e) => { return Err(e); },
        };
        Ok((a, b, c))
    }
}

impl<
    A: CacheableWith<K, T>,
    B: CacheableWith<V, T>,
    C: CacheableWith<H, T>,
    K: Model,
    V: Model,
    H: Model,
    T,
> CacheableWith<(K, V, H), T> for AsTuple3<A, B, C> {
    open spec fn faithful() -> bool {
        A::faithful() && B::faithful() && C::faithful()
    }

    proof fn lemma_round_trip(bytes: Seq<u8>, field: (K::M, V::M, H::M), ctx: T) {
        let (a, b, c) = choose|a: Seq<u8>, b: Seq<u8>, c: Seq<u8>|
            {
                &&& A::archives(a, field.0, ctx)
                &&& B::archives(b, field.1, ctx)
                &&& C::archives(c, field.2, ctx)
                &&& bytes == list_archive(#[trigger] three(a, b, c))
                &&& list_restored(bytes) == read_ok(three(a, b, c))
            };
        A::lemma_round_trip(a, field.0, ctx);
        B::lemma_round_trip(b, field.1, ctx);
        C::lemma_round_trip(c, field.2, ctx);
    }
}

} // verus!
