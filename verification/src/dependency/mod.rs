//! Records of the module graph that are kept in the cache: dependencies of
//! one module on another.

pub mod common_js_require;
pub mod compose;
pub mod external_module;
pub mod import;
pub mod loader_import;
pub mod wasm_import;

use crate::cacheable::Cacheable;
use crate::deserialize::CacheableDeserializer;
use crate::deserialize::Deserialize;
use crate::deserialize::DeserializeError;
use crate::model::Model;
use crate::serialize::CacheableSerializer;
use crate::serialize::Serialize;
use crate::serialize::SerializeError;
use vstd::prelude::*;

pub use common_js_require::CommonJsRequireDependency;
pub use compose::CssComposeDependency;
pub use external_module::ExternalModuleDependency;
pub use import::ImportDependency;
pub use loader_import::LoaderImportDependency;
pub use wasm_import::WasmImportDependency;

verus! {

/// The identity of a dependency within one build.
#[derive(Debug, Clone, Copy, PartialEq, Eq, Hash)]
pub struct DependencyId(pub u32);

/// The directory against which a request is resolved.
#[derive(Debug, Clone, PartialEq, Eq, Hash)]
pub struct Context {
    pub inner: String,
}

/// A stretch of source text, from `start` up to `end`.
#[derive(Debug, Clone, Copy, PartialEq, Eq, Hash)]
pub struct ErrorSpan {
    pub start: u32,
    pub end: u32,
}

/// The place of a dependency in its module's source.
#[derive(Debug, Clone, Copy, PartialEq, Eq, Hash)]
pub struct DependencyLocation {
    pub start: u32,
    pub end: u32,
}

/// The module system that a dependency belongs to.
#[derive(Debug, Clone, Copy, PartialEq, Eq, Hash)]
pub enum DependencyCategory {
    Esm,
    CommonJS,
    CssCompose,
    LoaderImport,
    Wasm,
}

/// The kind of statement that a dependency comes from.
#[derive(Debug, Clone, Copy, PartialEq, Eq, Hash)]
pub enum DependencyType {
    DynamicImport,
    CjsRequire,
    CssCompose,
    LoaderImport,
    WasmImport,
}

/// What every dependency tells of itself.
pub trait Dependency {
    fn id(&self) -> DependencyId;

    fn category(&self) -> DependencyCategory;

    fn dependency_type(&self) -> DependencyType;

    fn span(&self) -> Option<ErrorSpan>;
}

/// A dependency on a module that is named by a request.
pub trait ModuleDependency: Dependency {
    fn request(&self) -> &str;

    fn user_request(&self) -> &str;

    fn get_optional(&self) -> bool;

    fn set_request(&mut self, request: String);
}

impl Model for DependencyId {
    type M = u32;

    open spec fn model(&self) -> u32 {
        self.0
    }
}

impl<C> Serialize<C> for DependencyId {
    open spec fn archives(bytes: Seq<u8>, value: u32, ctx: C) -> bool {
        <u32 as Serialize<C>>::archives(bytes, value, ctx)
    }

    open spec fn refuses(value: u32, ctx: C, e: SerializeError) -> bool {
        false
    }

    fn serialize(&self, serializer: &CacheableSerializer<'_, C>) -> (r: Result<
        Vec<u8>,
        SerializeError,
    >) {
        self.0.serialize(serializer)
    }
}

impl<C> Deserialize<C> for DependencyId {
    open spec fn restores(bytes: Seq<u8>, ctx: C) -> Result<u32, DeserializeError> {
        <u32 as Deserialize<C>>::restores(bytes, ctx)
    }

    fn deserialize(bytes: &[u8], deserializer: &CacheableDeserializer<'_, C>) -> (r: Result<
        Self,
        DeserializeError,
    >) {
        match <u32 as Deserialize<C>>::deserialize(bytes, deserializer) {
            Ok(id) => Ok(DependencyId(id)),
            Err(e) => Err(e),
        }
    }
}

impl<C> Cacheable<C> for DependencyId {
    open spec fn faithful() -> bool {
        true
    }

    proof fn lemma_round_trip(bytes: Seq<u8>, value: u32, ctx: C) {
        <u32 as Cacheable<C>>::lemma_round_trip(bytes, value, ctx);
    }
}

impl Model for Context {
    type M = Seq<char>;

    open spec fn model(&self) -> Seq<char> {
        self.inner@
    }
}

impl<C> Serialize<C> for Context {
    open spec fn archives(bytes: Seq<u8>, value: Seq<char>, ctx: C) -> bool {
        <String as Serialize<C>>::archives(bytes, value, ctx)
    }

    open spec fn refuses(value: Seq<char>, ctx: C, e: SerializeError) -> bool {
        false
    }

    fn serialize(&self, serializer: &CacheableSerializer<'_, C>) -> (r: Result<
        Vec<u8>,
        SerializeError,
    >) {
        self.inner.serialize(serializer)
    }
}

impl<C> Deserialize<C> for Context {
    open spec fn restores(bytes: Seq<u8>, ctx: C) -> Result<Seq<char>, DeserializeError> {
        <String as Deserialize<C>>::restores(bytes, ctx)
    }

    fn deserialize(bytes: &[u8], deserializer: &CacheableDeserializer<'_, C>) -> (r: Result<
        Self,
        DeserializeError,
    >) {
        match <String as Deserialize<C>>::deserialize(bytes, deserializer) {
            Ok(inner) => Ok(Context { inner }),
            Err(e) => Err(e),
        }
    }
}

impl<C> Cacheable<C> for Context {
    open spec fn faithful() -> bool {
        true
    }

    proof fn lemma_round_trip(bytes: Seq<u8>, value: Seq<char>, ctx: C) {
    }
}

impl Model for ErrorSpan {
    type M = (u32, u32);

    open spec fn model(&self) -> (u32, u32) {
        (self.start, self.end)
    }
}

impl<C> Serialize<C> for ErrorSpan {
    open spec fn archives(bytes: Seq<u8>, value: (u32, u32), ctx: C) -> bool {
        <(u32, u32) as Serialize<C>>::archives(bytes, value, ctx)
    }

    open spec fn refuses(value: (u32, u32), ctx: C, e: SerializeError) -> bool {
        false
    }

    fn serialize(&self, serializer: &CacheableSerializer<'_, C>) -> (r: Result<
        Vec<u8>,
        SerializeError,
    >) {
        (self.start, self.end).serialize(serializer)
    }
}

impl<C> Deserialize<C> for ErrorSpan {
    open spec fn restores(bytes: Seq<u8>, ctx: C) -> Result<(u32, u32), DeserializeError> {
        <(u32, u32) as Deserialize<C>>::restores(bytes, ctx)
    }

    fn deserialize(bytes: &[u8], deserializer: &CacheableDeserializer<'_, C>) -> (r: Result<
        Self,
        DeserializeError,
    >) {
        match <(u32, u32) as Deserialize<C>>::deserialize(bytes, deserializer) {
            Ok((start, end)) => Ok(ErrorSpan { start, end }),
            Err(e) => Err(e),
        }
    }
}

impl<C> Cacheable<C> for ErrorSpan {
    open spec fn faithful() -> bool {
        true
    }

    proof fn lemma_round_trip(bytes: Seq<u8>, value: (u32, u32), ctx: C) {
        <(u32, u32) as Cacheable<C>>::lemma_round_trip(bytes, value, ctx);
    }
}

impl DependencyLocation {
    pub fn new(start: u32, end: u32) -> (loc: Self)
        ensures
            loc.start == start,
            loc.end == end,
    {
        Self { start, end }
    }

    pub fn start(&self) -> (start: u32)
        ensures
            start == self.start,
    {
        self.start
    }

    pub fn end(&self) -> (end: u32)
        ensures
            end == self.end,
    {
        self.end
    }
}

impl Model for DependencyLocation {
    type M = (u32, u32);

    open spec fn model(&self) -> (u32, u32) {
        (self.start, self.end)
    }
}

impl<C> Serialize<C> for DependencyLocation {
    open spec fn archives(bytes: Seq<u8>, value: (u32, u32), ctx: C) -> bool {
        <(u32, u32) as Serialize<C>>::archives(bytes, value, ctx)
    }

    open spec fn refuses(value: (u32, u32), ctx: C, e: SerializeError) -> bool {
        false
    }

    fn serialize(&self, serializer: &CacheableSerializer<'_, C>) -> (r: Result<
        Vec<u8>,
        SerializeError,
    >) {
        (self.start, self.end).serialize(serializer)
    }
}

impl<C> Deserialize<C> for DependencyLocation {
    open spec fn restores(bytes: Seq<u8>, ctx: C) -> Result<(u32, u32), DeserializeError> {
        <(u32, u32) as Deserialize<C>>::restores(bytes, ctx)
    }

    fn deserialize(bytes: &[u8], deserializer: &CacheableDeserializer<'_, C>) -> (r: Result<
        Self,
        DeserializeError,
    >) {
        match <(u32, u32) as Deserialize<C>>::deserialize(bytes, deserializer) {
            Ok((start, end)) => Ok(DependencyLocation { start, end }),
            Err(e) => Err(e),
        }
    }
}

impl<C> Cacheable<C> for DependencyLocation {
    open spec fn faithful() -> bool {
        true
    }

    proof fn lemma_round_trip(bytes: Seq<u8>, value: (u32, u32), ctx: C) {
        <(u32, u32) as Cacheable<C>>::lemma_round_trip(bytes, value, ctx);
    }
}

} // verus!
