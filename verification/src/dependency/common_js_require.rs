//! The dependency of a `require` call on the module that it names.

use crate::cacheable::Cacheable;
use crate::dependency::Dependency;
use crate::dependency::DependencyCategory;
use crate::dependency::DependencyId;
use crate::dependency::DependencyLocation;
use crate::dependency::DependencyType;
use crate::dependency::ErrorSpan;
use crate::dependency::ModuleDependency;
use crate::deserialize::CacheableDeserializer;
use crate::deserialize::Deserialize;
use crate::deserialize::DeserializeError;
use crate::model::Model;
use crate::serialize::CacheableSerializer;
use crate::serialize::Serialize;
use crate::serialize::SerializeError;
use crate::with::as_tuple2::archive_two;
use crate::with::as_tuple2::serialize_pair;
use crate::with::as_tuple3::serialize_triple;
use crate::with::AsCacheable;
use crate::with::AsTuple2;
use crate::with::AsTuple3;
use crate::with::CacheableWith;
use crate::with::DeserializeWith;
use crate::with::SerializeWith;
use vstd::prelude::*;

verus! {

/// The strategy of the whole record, its fields in their order: identity
/// and request, then the optional flag, the location and the span.
pub type RequireStrategy = AsTuple2<
    AsTuple2<AsCacheable, AsCacheable>,
    AsTuple3<AsCacheable, AsCacheable, AsCacheable>,
>;

/// The record as nested tuples of its fields, in their order.
pub type RequireFields = ((DependencyId, String), (bool, DependencyLocation, Option<ErrorSpan>));

/// The model of the record.
pub type RequireModel = ((u32, Seq<char>), (bool, (u32, u32), Option<(u32, u32)>));

#[derive(Debug, Clone)]
pub struct CommonJsRequireDependency {
    id: DependencyId,
    request: String,
    optional: bool,
    loc: DependencyLocation,
    span: Option<ErrorSpan>,
}

impl Model for CommonJsRequireDependency {
    type M = RequireModel;

    closed spec fn model(&self) -> RequireModel {
        ((self.id.0, self.request@), (self.optional, self.loc.model(), self.span.model()))
    }
}

impl CommonJsRequireDependency {
    /// The dependency `id` of the call that stands from `start` up to `end`
    /// on the module that `request` names.
    pub fn new(
        id: DependencyId,
        request: String,
        span: Option<ErrorSpan>,
        start: u32,
        end: u32,
        optional: bool,
    ) -> (dependency: Self)
        ensures
            dependency.model() == ((id.0, request@), (optional, (start, end), span.model())),
    {
        let loc = DependencyLocation::new(start, end);
        Self { id, request, optional, loc, span }
    }

    pub fn dependency_id(&self) -> (id: Option<DependencyId>)
        ensures
            id matches Some(id) && id.0 == self.model().0.0,
    {
        Some(self.id)
    }

    /// The stretch of source that the generated code replaces: from the
    /// start of the call up to the byte before its end. A call that ends at
    /// the start of the source has none.
    pub fn replaced_range(&self) -> (range: Option<(u32, u32)>)
        ensures
            range == (if self.model().1.1.1 > 0 {
                Some((self.model().1.1.0, (self.model().1.1.1 - 1) as u32))
            } else {
                None
            }),
    {
        if self.loc.end() > 0 {
            Some((self.loc.start(), self.loc.end() - 1))
        } else {
            None
        }
    }
}

impl Dependency for CommonJsRequireDependency {
    fn id(&self) -> (id: DependencyId)
        ensures
            id.0 == self.model().0.0,
    {
        self.id
    }

    fn category(&self) -> (category: DependencyCategory)
        ensures
            category == DependencyCategory::CommonJS,
    {
        DependencyCategory::CommonJS
    }

    fn dependency_type(&self) -> (kind: DependencyType)
        ensures
            kind == DependencyType::CjsRequire,
    {
        DependencyType::CjsRequire
    }

    fn span(&self) -> (span: Option<ErrorSpan>)
        ensures
            span.model() == self.model().1.2,
    {
        self.span
    }
}

impl ModuleDependency for CommonJsRequireDependency {
    fn request(&self) -> (request: &str)
        ensures
            request@ == self.model().0.1,
    {
        self.request.as_str()
    }

    fn user_request(&self) -> (request: &str)
        ensures
            request@ == self.model().0.1,
    {
        self.request.as_str()
    }

    fn get_optional(&self) -> (optional: bool)
        ensures
            optional == self.model().1.0,
    {
        self.optional
    }

    fn set_request(&mut self, request: String)
        ensures
            final(self).model() == ((old(self).model().0.0, request@), old(self).model().1),
    {
        self.request = request;
    }
}

impl<C> Serialize<C> for CommonJsRequireDependency {
    open spec fn archives(bytes: Seq<u8>, value: RequireModel, ctx: C) -> bool {
        <RequireStrategy as SerializeWith<RequireFields, C>>::archives(bytes, value, ctx)
    }

    open spec fn refuses(value: RequireModel, ctx: C, e: SerializeError) -> bool {
        <RequireStrategy as SerializeWith<RequireFields, C>>::refuses(value, ctx, e)
    }

    fn serialize(&self, serializer: &CacheableSerializer<'_, C>) -> (r: Result<
        Vec<u8>,
        SerializeError,
    >) {
        let head = match serialize_pair::<AsCacheable, AsCacheable, DependencyId, String, C>(
            &self.id,
            &self.request,
            serializer,
        ) {
            Ok(head) => head,
            Err(e) => { return Err(e); },
        };
        let tail = match serialize_triple::<
            AsCacheable,
            AsCacheable,
            AsCacheable,
            bool,
            DependencyLocation,
            Option<ErrorSpan>,
            C,
        >(&self.optional, &self.loc, &self.span, serializer) {
            Ok(tail) => tail,
            Err(e) => { return Err(e); },
        };
        archive_two(head, tail)
    }
}

impl<C> Deserialize<C> for CommonJsRequireDependency {
    open spec fn restores(bytes: Seq<u8>, ctx: C) -> Result<RequireModel, DeserializeError> {
        <RequireStrategy as DeserializeWith<RequireFields, C>>::restores(bytes, ctx)
    }

    fn deserialize(bytes: &[u8], deserializer: &CacheableDeserializer<'_, C>) -> (r: Result<
        Self,
        DeserializeError,
    >) {
        match <RequireStrategy as DeserializeWith<RequireFields, C>>::deserialize_with(
            bytes,
            deserializer,
        ) {
            Ok(((id, request), (optional, loc, span))) => Ok(
                Self { id, request, optional, loc, span },
            ),
            Err(e) => Err(e),
        }
    }
}

impl<C> Cacheable<C> for CommonJsRequireDependency {
    open spec fn faithful() -> bool {
        true
    }

    proof fn lemma_round_trip(bytes: Seq<u8>, value: RequireModel, ctx: C) {
        <RequireStrategy as CacheableWith<RequireFields, C>>::lemma_round_trip(bytes, value, ctx);
    }
}

} // verus!
