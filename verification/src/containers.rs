//! The archived forms of the standard containers: each is archived as the
//! strategy of its shape does with the items' own archived forms.

use crate::cacheable::Cacheable;
use crate::deserialize::CacheableDeserializer;
use crate::deserialize::Deserialize;
use crate::deserialize::DeserializeError;
use crate::serialize::CacheableSerializer;
use crate::serialize::Serialize;
use crate::serialize::SerializeError;
use crate::with::as_inner::archives_option;
use crate::with::as_inner::deserialize_option;
use crate::with::as_inner::lemma_option_round_trip;
use crate::with::as_inner::restores_option;
use crate::with::as_inner::serialize_option;
use crate::with::AsCacheable;
use crate::with::AsTuple2;
use crate::with::AsTuple3;
use crate::with::AsVec;
use crate::with::CacheableWith;
use crate::with::DeserializeWith;
use crate::with::SerializeWith;
use vstd::prelude::*;

verus! {

impl<T: Serialize<C>, C> Serialize<C> for Vec<T> {
    open spec fn archives(bytes: Seq<u8>, value: Seq<T::M>, ctx: C) -> bool {
        <AsVec<AsCacheable> as SerializeWith<Vec<T>, C>>::archives(bytes, value, ctx)
    }

    open spec fn refuses(value: Seq<T::M>, ctx: C, e: SerializeError) -> bool {
        <AsVec<AsCacheable> as SerializeWith<Vec<T>, C>>::refuses(value, ctx, e)
    }

    fn serialize(&self, serializer: &CacheableSerializer<'_, C>) -> (r: Result<
        Vec<u8>,
        SerializeError,
    >) {
        <AsVec<AsCacheable> as SerializeWith<Vec<T>, C>>::serialize_with(self, serializer)
    }
}

impl<T: Deserialize<C>, C> Deserialize<C> for Vec<T> {
    open spec fn restores(bytes: Seq<u8>, ctx: C) -> Result<Seq<T::M>, DeserializeError> {
        <AsVec<AsCacheable> as DeserializeWith<Vec<T>, C>>::restores(bytes, ctx)
    }

    fn deserialize(bytes: &[u8], deserializer: &CacheableDeserializer<'_, C>) -> (r: Result<
        Vec<T>,
        DeserializeError,
    >) {
        <AsVec<AsCacheable> as DeserializeWith<Vec<T>, C>>::deserialize_with(bytes, deserializer)
    }
}

impl<T: Cacheable<C>, C> Cacheable<C> for Vec<T> {
    open spec fn faithful() -> bool {
        T::faithful()
    }

    proof fn lemma_round_trip(bytes: Seq<u8>, value: Seq<T::M>, ctx: C) {
        <AsVec<AsCacheable> as CacheableWith<Vec<T>, C>>::lemma_round_trip(bytes, value, ctx);
    }
}

impl<T: Serialize<C>, C> Serialize<C> for Option<T> {
    open spec fn archives(bytes: Seq<u8>, value: Option<T::M>, ctx: C) -> bool {
        archives_option::<AsCacheable, T, C>(bytes, value, ctx)
    }

    open spec fn refuses(value: Option<T::M>, ctx: C, e: SerializeError) -> bool {
        value matches Some(inner) && T::refuses(inner, ctx, e)
    }

    fn serialize(&self, serializer: &CacheableSerializer<'_, C>) -> (r: Result<
        Vec<u8>,
        SerializeError,
    >) {
        serialize_option::<AsCacheable, T, C>(self.as_ref(), serializer)
    }
}

impl<T: Deserialize<C>, C> Deserialize<C> for Option<T> {
    open spec fn restores(bytes: Seq<u8>, ctx: C) -> Result<Option<T::M>, DeserializeError> {
        restores_option::<AsCacheable, T, C>(bytes, ctx)
    }

    fn deserialize(bytes: &[u8], deserializer: &CacheableDeserializer<'_, C>) -> (r: Result<
        Option<T>,
        DeserializeError,
    >) {
        deserialize_option::<AsCacheable, T, C>(bytes, deserializer)
    }
}

impl<T: Cacheable<C>, C> Cacheable<C> for Option<T> {
    open spec fn faithful() -> bool {
        T::faithful()
    }

    proof fn lemma_round_trip(bytes: Seq<u8>, value: Option<T::M>, ctx: C) {
        lemma_option_round_trip::<AsCacheable, T, C>(bytes, value, ctx);
    }
}

impl<A: Serialize<C>, B: Serialize<C>, C> Serialize<C> for (A, B) {
    open spec fn archives(bytes: Seq<u8>, value: (A::M, B::M), ctx: C) -> bool {
        <AsTuple2<AsCacheable, AsCacheable> as SerializeWith<(A, B), C>>::archives(
            bytes,
            value,
            ctx,
        )
    }

    open spec fn refuses(value: (A::M, B::M), ctx: C, e: SerializeError) -> bool {
        <AsTuple2<AsCacheable, AsCacheable> as SerializeWith<(A, B), C>>::refuses(value, ctx, e)
    }

    fn serialize(&self, serializer: &CacheableSerializer<'_, C>) -> (r: Result<
        Vec<u8>,
        SerializeError,
    >) {
        <AsTuple2<AsCacheable, AsCacheable> as SerializeWith<(A, B), C>>::serialize_with(
            self,
            serializer,
        )
    }
}

impl<A: Deserialize<C>, B: Deserialize<C>, C> Deserialize<C> for (A, B) {
    open spec fn restores(bytes: Seq<u8>, ctx: C) -> Result<(A::M, B::M), DeserializeError> {
        <AsTuple2<AsCacheable, AsCacheable> as DeserializeWith<(A, B), C>>::restores(bytes, ctx)
    }

    fn deserialize(bytes: &[u8], deserializer: &CacheableDeserializer<'_, C>) -> (r: Result<
        (A, B),
        DeserializeError,
    >) {
        <AsTuple2<AsCacheable, AsCacheable> as DeserializeWith<(A, B), C>>::deserialize_with(
            bytes,
            deserializer,
        )
    }
}

impl<A: Cacheable<C>, B: Cacheable<C>, C> Cacheable<C> for (A, B) {
    open spec fn faithful() -> bool {
        A::faithful() && B::faithful()
    }

    proof fn lemma_round_trip(bytes: Seq<u8>, value: (A::M, B::M), ctx: C) {
        <AsTuple2<AsCacheable, AsCacheable> as CacheableWith<(A, B), C>>::lemma_round_trip(
            bytes,
            value,
            ctx,
        );
    }
}

impl<A: Serialize<T>, B: Serialize<T>, C: Serialize<T>, T> Serialize<T> for (A, B, C) {
    open spec fn archives(bytes: Seq<u8>, value: (A::M, B::M, C::M), ctx: T) -> bool {
        <AsTuple3<AsCacheable, AsCacheable, AsCacheable> as SerializeWith<(A, B, C), T>>::archives(
            bytes,
            value,
            ctx,
        )
    }

    open spec fn refuses(value: (A::M, B::M, C::M), ctx: T, e: SerializeError) -> bool {
        <AsTuple3<AsCacheable, AsCacheable, AsCacheable> as SerializeWith<(A, B, C), T>>::refuses(
            value,
            ctx,
            e,
        )
    }

    fn serialize(&self, serializer: &CacheableSerializer<'_, T>) -> (r: Result<
        Vec<u8>,
        SerializeError,
    >) {
        <AsTuple3<AsCacheable, AsCacheable, AsCacheable> as SerializeWith<
            (A, B, C),
            T,
        >>::serialize_with(self, serializer)
    }
}

impl<A: Deserialize<T>, B: Deserialize<T>, C: Deserialize<T>, T> Deserialize<T> for (A, B, C) {
    open spec fn restores(bytes: Seq<u8>, ctx: T) -> Result<(A::M, B::M, C::M), DeserializeError> {
        <AsTuple3<AsCacheable, AsCacheable, AsCacheable> as DeserializeWith<(A, B, C), T>>::restores(
            bytes,
            ctx,
        )
    }

    fn deserialize(bytes: &[u8], deserializer: &CacheableDeserializer<'_, T>) -> (r: Result<
        (A, B, C),
        DeserializeError,
    >) {
        <AsTuple3<AsCacheable, AsCacheable, AsCacheable> as DeserializeWith<
            (A, B, C),
            T,
        >>::deserialize_with(bytes, deserializer)
    }
}

impl<A: Cacheable<T>, B: Cacheable<T>, C: Cacheable<T>, T> Cacheable<T> for (A, B, C) {
    open spec fn faithful() -> bool {
        A::faithful() && B::faithful() && C::faithful()
    }

    proof fn lemma_round_trip(bytes: Seq<u8>, value: (A::M, B::M, C::M), ctx: T) {
        <AsTuple3<AsCacheable, AsCacheable, AsCacheable> as CacheableWith<
            (A, B, C),
            T,
        >>::lemma_round_trip(bytes, value, ctx);
    }
}

} // verus!
