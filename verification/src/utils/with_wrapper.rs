//! A value paired with the strategy that archives it, so that the pair is
//! itself a value with an archived form.

use crate::deserialize::read_ok;
use crate::deserialize::CacheableDeserializer;
use crate::deserialize::Deserialize;
use crate::deserialize::DeserializeError;
use crate::model::Model;
use crate::serialize::CacheableSerializer;
use crate::serialize::Serialize;
use crate::serialize::SerializeError;
use crate::with::CacheableWith;
use crate::with::DeserializeWith;
use crate::with::SerializeWith;
use core::marker::PhantomData;
use vstd::prelude::*;

verus! {

/// The archived form of a value under strategy `W`.
pub struct ArchivedWithWrapper<WA, W>(WA, PhantomData<W>);

/// An owned value rebuilt with strategy `W`.
pub struct WithWrapper<A, W>(A, PhantomData<W>);

/// A borrowed value to archive with strategy `W`.
pub struct WithWrapperRef<'a, A, W>(&'a A, PhantomData<W>);

impl<A: Model, W> Model for WithWrapper<A, W> {
    type M = A::M;

    closed spec fn model(&self) -> A::M {
        self.0.model()
    }
}

impl<'a, A: Model, W> Model for WithWrapperRef<'a, A, W> {
    type M = A::M;

    closed spec fn model(&self) -> A::M {
        self.0.model()
    }
}

impl<A: Model, W> WithWrapper<A, W> {
    pub fn into_inner(self) -> (inner: A)
        ensures
            inner.model() == self.model(),
    {
        self.0
    }
}

impl<'a, A: Model, W> WithWrapperRef<'a, A, W> {
    pub fn new(inner: &'a A) -> (wrapper: Self)
        ensures
            wrapper.model() == inner.model(),
    {
        Self(inner, PhantomData)
    }
}

impl<'a, A: Model, W: SerializeWith<A, C>, C> Serialize<C> for WithWrapperRef<'a, A, W> {
    open spec fn archives(bytes: Seq<u8>, value: A::M, ctx: C) -> bool {
        W::archives(bytes, value, ctx)
    }

    open spec fn refuses(value: A::M, ctx: C, e: SerializeError) -> bool {
        W::refuses(value, ctx, e)
    }

    fn serialize(&self, serializer: &CacheableSerializer<'_, C>) -> (r: Result<
        Vec<u8>,
        SerializeError,
    >) {
        W::serialize_with(self.0, serializer)
    }
}

impl<W> ArchivedWithWrapper<Vec<u8>, W> {
    /// The archived bytes.
    pub closed spec fn bytes(self) -> Seq<u8> {
        self.0@
    }

    pub fn new(bytes: Vec<u8>) -> (archived: Self)
        ensures
            archived.bytes() == bytes@,
    {
        Self(bytes, PhantomData)
    }

    /// Rebuilds the value with strategy `W`.
    pub fn deserialize<A: Model, C>(&self, deserializer: &CacheableDeserializer<'_, C>) -> (r:
        Result<WithWrapper<A, W>, DeserializeError>) where W: DeserializeWith<A, C>
        ensures
            match W::restores(self.bytes(), deserializer.ctx()) {
                Ok(value) => r matches Ok(wrapper) && wrapper.model() == value,
                Err(e) => r matches Err(f) && f == e,
            },
    {
        match W::deserialize_with(self.0.as_slice(), deserializer) {
            Ok(inner) => Ok(WithWrapper(inner, PhantomData)),
            Err(e) => Err(e),
        }
    }
}

impl<A: Model, W: DeserializeWith<A, C>, C> Deserialize<C> for WithWrapper<A, W> {
    open spec fn restores(bytes: Seq<u8>, ctx: C) -> Result<A::M, DeserializeError> {
        W::restores(bytes, ctx)
    }

    fn deserialize(bytes: &[u8], deserializer: &CacheableDeserializer<'_, C>) -> (r: Result<
        Self,
        DeserializeError,
    >) {
        match W::deserialize_with(bytes, deserializer) {
            Ok(inner) => Ok(WithWrapper(inner, PhantomData)),
            Err(e) => Err(e),
        }
    }
}

/// What is archived through a `WithWrapperRef` comes back through a
/// `WithWrapper` of the same strategy, where the strategy is faithful.
pub proof fn lemma_wrapper_round_trip<'a, A: Model, W: CacheableWith<A, C>, C>(
    bytes: Seq<u8>,
    value: A::M,
    ctx: C,
)
    requires
        W::faithful(),
        <WithWrapperRef<'a, A, W> as Serialize<C>>::archives(bytes, value, ctx),
    ensures
        <WithWrapper<A, W> as Deserialize<C>>::restores(bytes, ctx) == read_ok(value),
{
    W::lemma_round_trip(bytes, value, ctx);
}

} // verus!
