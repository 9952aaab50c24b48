//! The dependency of a style sheet on a module that it composes from.

use crate::cacheable::Cacheable;
use crate::dependency::Dependency;
use crate::dependency::DependencyCategory;
use crate::dependency::DependencyId;
use crate::dependency::DependencyType;
use crate::dependency::ErrorSpan;
use crate::dependency::ModuleDependency;
use crate::deserialize::CacheableDeserializer;
use crate::deserialize::Deserialize;
use crate::deserialize::DeserializeError;
use crate::model::Model;
use crate::serialize::CacheableSerializer;
use crate::serialize::Serialize;
use crate::serialize::SerializeError;
use crate::with::as_tuple3::serialize_triple;
use crate::with::AsCacheable;
use crate::with::AsTuple3;
use crate::with::CacheableWith;
use crate::with::DeserializeWith;
use crate::with::SerializeWith;
use vstd::prelude::*;

verus! {

#[derive(Debug, Clone)]
pub struct CssComposeDependency {
    id: DependencyId,
    request: String,
    span: ErrorSpan,
}

impl Model for CssComposeDependency {
    type M = (u32, Seq<char>, (u32, u32));

    closed spec fn model(&self) -> (u32, Seq<char>, (u32, u32)) {
        (self.id.0, self.request@, (self.span.start, self.span.end))
    }
}

impl CssComposeDependency {
    /// The dependency `id` on the module that `request` names, found at
    /// `span`.
    pub fn new(id: DependencyId, request: String, span: ErrorSpan) -> (dependency: Self)
        ensures
            dependency.model() == (id.0, request@, (span.start, span.end)),
    {
        Self { id, request, span }
    }
}

impl Dependency for CssComposeDependency {
    fn id(&self) -> (id: DependencyId)
        ensures
            id.0 == self.model().0,
    {
        self.id
    }

    fn category(&self) -> (category: DependencyCategory)
        ensures
            category == DependencyCategory::CssCompose,
    {
        DependencyCategory::CssCompose
    }

    fn dependency_type(&self) -> (kind: DependencyType)
        ensures
            kind == DependencyType::CssCompose,
    {
        DependencyType::CssCompose
    }

    fn span(&self) -> (span: Option<ErrorSpan>)
        ensures
            span matches Some(s) && (s.start, s.end) == self.model().2,
    {
        Some(self.span)
    }
}

impl ModuleDependency for CssComposeDependency {
    fn request(&self) -> (request: &str)
        ensures
            request@ == self.model().1,
    {
        self.request.as_str()
    }

    fn user_request(&self) -> (request: &str)
        ensures
            request@ == self.model().1,
    {
        self.request.as_str()
    }

    fn get_optional(&self) -> (optional: bool)
        ensures
            !optional,
    {
        false
    }

    fn set_request(&mut self, request: String)
        ensures
            final(self).model() == (old(self).model().0, request@, old(self).model().2),
    {
        self.request = request;
    }
}

impl<C> Serialize<C> for CssComposeDependency {
    open spec fn archives(bytes: Seq<u8>, value: (u32, Seq<char>, (u32, u32)), ctx: C) -> bool {
        <AsTuple3<AsCacheable, AsCacheable, AsCacheable> as SerializeWith<
            (DependencyId, String, ErrorSpan),
            C,
        >>::archives(bytes, value, ctx)
    }

    open spec fn refuses(value: (u32, Seq<char>, (u32, u32)), ctx: C, e: SerializeError) -> bool {
        false
    }

    fn serialize(&self, serializer: &CacheableSerializer<'_, C>) -> (r: Result<
        Vec<u8>,
        SerializeError,
    >) {
        serialize_triple::<
            AsCacheable,
            AsCacheable,
            AsCacheable,
            DependencyId,
            String,
            ErrorSpan,
            C,
        >(&self.id, &self.request, &self.span, serializer)
    }
}

impl<C> Deserialize<C> for CssComposeDependency {
    open spec fn restores(bytes: Seq<u8>, ctx: C) -> Result<
        (u32, Seq<char>, (u32, u32)),
        DeserializeError,
    > {
        <AsTuple3<AsCacheable, AsCacheable, AsCacheable> as DeserializeWith<
            (DependencyId, String, ErrorSpan),
            C,
        >>::restores(bytes, ctx)
    }

    fn deserialize(bytes: &[u8], deserializer: &CacheableDeserializer<'_, C>) -> (r: Result<
        Self,
        DeserializeError,
    >) {
        match <AsTuple3<AsCacheable, AsCacheable, AsCacheable> as DeserializeWith<
            (DependencyId, String, ErrorSpan),
            C,
        >>::deserialize_with(bytes, deserializer) {
            Ok((id, request, span)) => Ok(Self { id, request, span }),
            Err(e) => Err(e),
        }
    }
}

impl<C> Cacheable<C> for CssComposeDependency {
    open spec fn faithful() -> bool {
        true
    }

    proof fn lemma_round_trip(bytes: Seq<u8>, value: (u32, Seq<char>, (u32, u32)), ctx: C) {
        <AsTuple3<AsCacheable, AsCacheable, AsCacheable> as CacheableWith<
            (DependencyId, String, ErrorSpan),
            C,
        >>::lemma_round_trip(bytes, value, ctx);
    }
}

} // verus!
