//! The dependency on a module that stays outside the bundle, with the names
//! that are imported from it.

use crate::cacheable::Cacheable;
use crate::dependency::DependencyId;
use crate::deserialize::CacheableDeserializer;
use crate::deserialize::Deserialize;
use crate::deserialize::DeserializeError;
use crate::model::Model;
use crate::serialize::CacheableSerializer;
use crate::serialize::Serialize;
use crate::serialize::SerializeError;
use crate::with::as_tuple2::archive_two;
use crate::with::as_tuple2::serialize_pair;
use crate::with::AsCacheable;
use crate::with::AsTuple2;
use crate::with::AsVec;
use crate::with::CacheableWith;
use crate::with::DeserializeWith;
use crate::with::SerializeWith;
use vstd::prelude::*;

verus! {

/// The strategy of the identity and the module name.
pub type Head = AsTuple2<AsCacheable, AsCacheable>;

/// The strategy of the import specifiers, a list of pairs, and the default
/// import.
pub type Tail = AsTuple2<AsVec<AsTuple2<AsCacheable, AsCacheable>>, AsCacheable>;

/// The strategy of the whole record, its fields in their order.
pub type Whole = AsTuple2<Head, Tail>;

/// The record as nested pairs of its fields, in their order.
pub type Fields = ((DependencyId, String), (Vec<(String, String)>, Option<String>));

/// The model of the record: identity and module name, then import
/// specifiers and default import.
pub type FieldsModel = ((u32, Seq<char>), (Seq<(Seq<char>, Seq<char>)>, Option<Seq<char>>));

#[derive(Debug, Clone)]
pub struct ExternalModuleDependency {
    id: DependencyId,
    module: String,
    import_specifier: Vec<(String, String)>,
    default_import: Option<String>,
}

impl Model for ExternalModuleDependency {
    type M = FieldsModel;

    closed spec fn model(&self) -> FieldsModel {
        (
            (self.id.0, self.module@),
            (self.import_specifier.model(), self.default_import.model()),
        )
    }
}

impl ExternalModuleDependency {
    /// The dependency `id` on the outside module `module`, from which the
    /// pairs of `import_specifier` and the default import are taken.
    pub fn new(
        id: DependencyId,
        module: String,
        import_specifier: Vec<(String, String)>,
        default_import: Option<String>,
    ) -> (dependency: Self)
        ensures
            dependency.model() == (
                (id.0, module@),
                (import_specifier.model(), default_import.model()),
            ),
    {
        Self { id, module, import_specifier, default_import }
    }

    pub fn dependency_id(&self) -> (id: Option<DependencyId>)
        ensures
            id matches Some(id) && id.0 == self.model().0.0,
    {
        Some(self.id)
    }

    pub fn module(&self) -> (module: &str)
        ensures
            module@ == self.model().0.1,
    {
        self.module.as_str()
    }

    pub fn import_specifier(&self) -> (pairs: &Vec<(String, String)>)
        ensures
            pairs.model() == self.model().1.0,
    {
        &self.import_specifier
    }

    pub fn default_import(&self) -> (name: &Option<String>)
        ensures
            name.model() == self.model().1.1,
    {
        &self.default_import
    }
}

impl<C> Serialize<C> for ExternalModuleDependency {
    open spec fn archives(bytes: Seq<u8>, value: FieldsModel, ctx: C) -> bool {
        <Whole as SerializeWith<Fields, C>>::archives(bytes, value, ctx)
    }

    open spec fn refuses(value: FieldsModel, ctx: C, e: SerializeError) -> bool {
        <Whole as SerializeWith<Fields, C>>::refuses(value, ctx, e)
    }

    fn serialize(&self, serializer: &CacheableSerializer<'_, C>) -> (r: Result<
        Vec<u8>,
        SerializeError,
    >) {
        let head = match serialize_pair::<AsCacheable, AsCacheable, DependencyId, String, C>(
            &self.id,
            &self.module,
            serializer,
        ) {
            Ok(head) => head,
            Err(e) => { return Err(e); },
        };
        let tail = match serialize_pair::<
            AsVec<AsTuple2<AsCacheable, AsCacheable>>,
            AsCacheable,
            Vec<(String, String)>,
            Option<String>,
            C,
        >(&self.import_specifier, &self.default_import, serializer) {
            Ok(tail) => tail,
            Err(e) => { return Err(e); },
        };
        archive_two(head, tail)
    }
}

impl<C> Deserialize<C> for ExternalModuleDependency {
    open spec fn restores(bytes: Seq<u8>, ctx: C) -> Result<FieldsModel, DeserializeError> {
        <Whole as DeserializeWith<Fields, C>>::restores(bytes, ctx)
    }

    fn deserialize(bytes: &[u8], deserializer: &CacheableDeserializer<'_, C>) -> (r: Result<
        Self,
        DeserializeError,
    >) {
        match <Whole as DeserializeWith<Fields, C>>::deserialize_with(bytes, deserializer) {
            Ok(((id, module), (import_specifier, default_import))) => Ok(
                Self { id, module, import_specifier, default_import },
            ),
            Err(e) => Err(e),
        }
    }
}

impl<C> Cacheable<C> for ExternalModuleDependency {
    open spec fn faithful() -> bool {
        true
    }

    proof fn lemma_round_trip(bytes: Seq<u8>, value: FieldsModel, ctx: C) {
        <Whole as CacheableWith<Fields, C>>::lemma_round_trip(bytes, value, ctx);
    }
}

} // verus!
