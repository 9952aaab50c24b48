//! The dependency of a loader on a module that it imports while it runs.

use crate::cacheable::Cacheable;
use crate::dependency::Context;
use crate::dependency::Dependency;
use crate::dependency::DependencyCategory;
use crate::dependency::DependencyId;
use crate::dependency::DependencyType;
use crate::dependency::ErrorSpan;
use crate::dependency::ModuleDependency;
use crate::deserialize::CacheableDeserializer;
use crate::deserialize::Deserialize;
use crate::deserialize::DeserializeError;
use crate::model::Model;
use crate::serialize::CacheableSerializer;
use crate::serialize::Serialize;
use crate::serialize::SerializeError;
use crate::with::as_tuple3::serialize_triple;
use crate::with::AsCacheable;
use crate::with::AsTuple3;
use crate::with::CacheableWith;
use crate::with::DeserializeWith;
use crate::with::SerializeWith;
use vstd::prelude::*;

verus! {

#[derive(Debug, Hash, PartialEq, Eq, Clone)]
pub struct LoaderImportDependency {
    id: DependencyId,
    context: Context,
    request: String,
}

impl Model for LoaderImportDependency {
    type M = (u32, Seq<char>, Seq<char>);

    closed spec fn model(&self) -> (u32, Seq<char>, Seq<char>) {
        (self.id.0, self.context.inner@, self.request@)
    }
}

impl LoaderImportDependency {
    /// The dependency `id` on the module that `request` names, resolved
    /// against `context`.
    pub fn new(id: DependencyId, request: String, context: Context) -> (dependency: Self)
        ensures
            dependency.model() == (id.0, context.inner@, request@),
    {
        Self { request, context, id }
    }

    pub fn context(&self) -> (context: &Context)
        ensures
            context.inner@ == self.model().1,
    {
        &self.context
    }
}

impl Dependency for LoaderImportDependency {
    fn id(&self) -> (id: DependencyId)
        ensures
            id.0 == self.model().0,
    {
        self.id
    }

    fn category(&self) -> (category: DependencyCategory)
        ensures
            category == DependencyCategory::LoaderImport,
    {
        DependencyCategory::LoaderImport
    }

    fn dependency_type(&self) -> (kind: DependencyType)
        ensures
            kind == DependencyType::LoaderImport,
    {
        DependencyType::LoaderImport
    }

    fn span(&self) -> (span: Option<ErrorSpan>)
        ensures
            span is None,
    {
        None
    }
}

impl ModuleDependency for LoaderImportDependency {
    fn request(&self) -> (request: &str)
        ensures
            request@ == self.model().2,
    {
        self.request.as_str()
    }

    fn user_request(&self) -> (request: &str)
        ensures
            request@ == self.model().2,
    {
        self.request.as_str()
    }

    fn get_optional(&self) -> (optional: bool)
        ensures
            !optional,
    {
        false
    }

    fn set_request(&mut self, request: String)
        ensures
            final(self).model() == (old(self).model().0, old(self).model().1, request@),
    {
        self.request = request;
    }
}

impl<C> Serialize<C> for LoaderImportDependency {
    open spec fn archives(bytes: Seq<u8>, value: (u32, Seq<char>, Seq<char>), ctx: C) -> bool {
        <AsTuple3<AsCacheable, AsCacheable, AsCacheable> as SerializeWith<
            (DependencyId, Context, String),
            C,
        >>::archives(bytes, value, ctx)
    }

    open spec fn refuses(value: (u32, Seq<char>, Seq<char>), ctx: C, e: SerializeError) -> bool {
        false
    }

    fn serialize(&self, serializer: &CacheableSerializer<'_, C>) -> (r: Result<
        Vec<u8>,
        SerializeError,
    >) {
        serialize_triple::<AsCacheable, AsCacheable, AsCacheable, DependencyId, Context, String, C>(
            &self.id,
            &self.context,
            &self.request,
            serializer,
        )
    }
}

impl<C> Deserialize<C> for LoaderImportDependency {
    open spec fn restores(bytes: Seq<u8>, ctx: C) -> Result<
        (u32, Seq<char>, Seq<char>),
        DeserializeError,
    > {
        <AsTuple3<AsCacheable, AsCacheable, AsCacheable> as DeserializeWith<
            (DependencyId, Context, String),
            C,
        >>::restores(bytes, ctx)
    }

    fn deserialize(bytes: &[u8], deserializer: &CacheableDeserializer<'_, C>) -> (r: Result<
        Self,
        DeserializeError,
    >) {
        match <AsTuple3<AsCacheable, AsCacheable, AsCacheable> as DeserializeWith<
            (DependencyId, Context, String),
            C,
        >>::deserialize_with(bytes, deserializer) {
            Ok((id, context, request)) => Ok(Self { id, context, request }),
            Err(e) => Err(e),
        }
    }
}

impl<C> Cacheable<C> for LoaderImportDependency {
    open spec fn faithful() -> bool {
        true
    }

    proof fn lemma_round_trip(bytes: Seq<u8>, value: (u32, Seq<char>, Seq<char>), ctx: C) {
        <AsTuple3<AsCacheable, AsCacheable, AsCacheable> as CacheableWith<
            (DependencyId, Context, String),
            C,
        >>::lemma_round_trip(bytes, value, ctx);
    }
}

} // verus!
