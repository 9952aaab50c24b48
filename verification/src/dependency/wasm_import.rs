//! The dependency of a WebAssembly module on a name that it imports.

use crate::cacheable::Cacheable;
use crate::dependency::Dependency;
use crate::dependency::DependencyCategory;
use crate::dependency::DependencyId;
use crate::dependency::DependencyType;
use crate::dependency::ErrorSpan;
use crate::dependency::ModuleDependency;
use crate::deserialize::CacheableDeserializer;
use crate::deserialize::Deserialize;
use crate::deserialize::DeserializeError;
use crate::model::Model;
use crate::serialize::CacheableSerializer;
use crate::serialize::Serialize;
use crate::serialize::SerializeError;
use crate::with::as_tuple2::archive_two;
use crate::with::as_tuple2::serialize_pair;
use crate::with::AsCacheable;
use crate::with::AsTuple2;
use crate::with::CacheableWith;
use crate::with::DeserializeWith;
use crate::with::SerializeWith;
use vstd::prelude::*;

verus! {

/// The strategy of the whole record, its fields in their order: identity
/// and name, then request and span.
pub type WasmStrategy = AsTuple2<
    AsTuple2<AsCacheable, AsCacheable>,
    AsTuple2<AsCacheable, AsCacheable>,
>;

/// The record as nested pairs of its fields, in their order.
pub type WasmFields = ((DependencyId, String), (String, Option<ErrorSpan>));

/// The model of the record.
pub type WasmModel = ((u32, Seq<char>), (Seq<char>, Option<(u32, u32)>));

#[derive(Debug, Clone)]
pub struct WasmImportDependency {
    id: DependencyId,
    name: String,
    request: String,
    span: Option<ErrorSpan>,
}

impl Model for WasmImportDependency {
    type M = WasmModel;

    closed spec fn model(&self) -> WasmModel {
        ((self.id.0, self.name@), (self.request@, self.span.model()))
    }
}

impl WasmImportDependency {
    /// The dependency `id` on the name `name` of the module that `request`
    /// names.
    pub fn new(id: DependencyId, request: String, name: String) -> (dependency: Self)
        ensures
            dependency.model() == ((id.0, name@), (request@, None::<(u32, u32)>)),
    {
        Self { id, name, request, span: None }
    }

    pub fn name(&self) -> (name: &str)
        ensures
            name@ == self.model().0.1,
    {
        self.name.as_str()
    }

    /// The exports that the dependency refers to: the one name.
    pub fn get_referenced_exports(&self) -> (names: Vec<Vec<String>>)
        ensures
            names@.len() == 1,
            names@[0]@.len() == 1,
            names@[0]@[0]@ == self.model().0.1,
    {
        let mut path: Vec<String> = Vec::new();
        path.push(self.name.clone());
        let mut names: Vec<Vec<String>> = Vec::new();
        names.push(path);
        names
    }
}

impl Dependency for WasmImportDependency {
    fn id(&self) -> (id: DependencyId)
        ensures
            id.0 == self.model().0.0,
    {
        self.id
    }

    fn category(&self) -> (category: DependencyCategory)
        ensures
            category == DependencyCategory::Wasm,
    {
        DependencyCategory::Wasm
    }

    fn dependency_type(&self) -> (kind: DependencyType)
        ensures
            kind == DependencyType::WasmImport,
    {
        DependencyType::WasmImport
    }

    fn span(&self) -> (span: Option<ErrorSpan>)
        ensures
            span.model() == self.model().1.1,
    {
        self.span
    }
}

impl ModuleDependency for WasmImportDependency {
    fn request(&self) -> (request: &str)
        ensures
            request@ == self.model().1.0,
    {
        self.request.as_str()
    }

    fn user_request(&self) -> (request: &str)
        ensures
            request@ == self.model().1.0,
    {
        self.request.as_str()
    }

    fn get_optional(&self) -> (optional: bool)
        ensures
            !optional,
    {
        false
    }

    fn set_request(&mut self, request: String)
        ensures
            final(self).model() == (old(self).model().0, (request@, old(self).model().1.1)),
    {
        self.request = request;
    }
}

impl<C> Serialize<C> for WasmImportDependency {
    open spec fn archives(bytes: Seq<u8>, value: WasmModel, ctx: C) -> bool {
        <WasmStrategy as SerializeWith<WasmFields, C>>::archives(bytes, value, ctx)
    }

    open spec fn refuses(value: WasmModel, ctx: C, e: SerializeError) -> bool {
        <WasmStrategy as SerializeWith<WasmFields, C>>::refuses(value, ctx, e)
    }

    fn serialize(&self, serializer: &CacheableSerializer<'_, C>) -> (r: Result<
        Vec<u8>,
        SerializeError,
    >) {
        let head = match serialize_pair::<AsCacheable, AsCacheable, DependencyId, String, C>(
            &self.id,
            &self.name,
            serializer,
        ) {
            Ok(head) => head,
            Err(e) => { return Err(e); },
        };
        let tail = match serialize_pair::<AsCacheable, AsCacheable, String, Option<ErrorSpan>, C>(
            &self.request,
            &self.span,
            serializer,
        ) {
            Ok(tail) => tail,
            Err(e) => { return Err(e); },
        };
        archive_two(head, tail)
    }
}

impl<C> Deserialize<C> for WasmImportDependency {
    open spec fn restores(bytes: Seq<u8>, ctx: C) -> Result<WasmModel, DeserializeError> {
        <WasmStrategy as DeserializeWith<WasmFields, C>>::restores(bytes, ctx)
    }

    fn deserialize(bytes: &[u8], deserializer: &CacheableDeserializer<'_, C>) -> (r: Result<
        Self,
        DeserializeError,
    >) {
        match <WasmStrategy as DeserializeWith<WasmFields, C>>::deserialize_with(
            bytes,
            deserializer,
        ) {
            Ok(((id, name), (request, span))) => Ok(Self { id, name, request, span }),
            Err(e) => Err(e),
        }
    }
}

impl<C> Cacheable<C> for WasmImportDependency {
    open spec fn faithful() -> bool {
        true
    }

    proof fn lemma_round_trip(bytes: Seq<u8>, value: WasmModel, ctx: C) {
        <WasmStrategy as CacheableWith<WasmFields, C>>::lemma_round_trip(bytes, value, ctx);
    }
}

} // verus!
