//! Which exports of a module a dynamic import refers to.

use crate::cacheable::Cacheable;
use crate::dependency::Dependency;
use crate::dependency::DependencyCategory;
use crate::dependency::DependencyId;
use crate::dependency::DependencyType;
use crate::dependency::ErrorSpan;
use crate::dependency::ModuleDependency;
use crate::deserialize::CacheableDeserializer;
use crate::deserialize::Deserialize;
use crate::deserialize::DeserializeError;
use crate::model::Model;
use crate::serialize::CacheableSerializer;
use crate::serialize::Serialize;
use crate::serialize::SerializeError;
use crate::text::text_equal;
use crate::with::as_tuple2::serialize_pair;
use crate::with::as_tuple3::archive_three;
use crate::with::as_tuple3::serialize_triple;
use crate::with::AsCacheable;
use crate::with::AsTuple2;
use crate::with::AsTuple3;
use crate::with::CacheableWith;
use crate::with::DeserializeWith;
use crate::with::SerializeWith;
use vstd::prelude::*;

verus! {

/// How the exports of a module are seen from the importing module.
#[derive(Debug, Clone, Copy, PartialEq, Eq)]
pub enum ExportsType {
    DefaultOnly,
    Namespace,
    DefaultWithNamed,
    Dynamic,
}

/// One export that is referred to by its name.
#[derive(Debug, Clone, PartialEq, Eq)]
pub struct ReferencedExport {
    pub name: Vec<String>,
    pub can_mangle: bool,
}

/// What an import refers to: an export by its path of names, or an export
/// with the permission to rename it.
#[derive(Debug, Clone, PartialEq, Eq)]
pub enum ExtendedReferencedExport {
    Array(Vec<String>),
    Export(ReferencedExport),
}

/// The model of what an import refers to.
pub enum ReferenceModel {
    Array(Seq<Seq<char>>),
    Export { name: Seq<Seq<char>>, can_mangle: bool },
}

/// The texts of a list of names.
pub open spec fn name_texts(names: Seq<String>) -> Seq<Seq<char>> {
    Seq::new(names.len(), |i: int| names[i]@)
}

/// The model of a reference.
pub open spec fn reference_model(reference: ExtendedReferencedExport) -> ReferenceModel {
    match reference {
        ExtendedReferencedExport::Array(names) => ReferenceModel::Array(name_texts(names@)),
        ExtendedReferencedExport::Export(export) => ReferenceModel::Export {
            name: name_texts(export.name@),
            can_mangle: export.can_mangle,
        },
    }
}

/// The models of a list of references.
pub open spec fn reference_models(references: Seq<ExtendedReferencedExport>) -> Seq<ReferenceModel> {
    Seq::new(references.len(), |i: int| reference_model(references[i]))
}

/// The reference to the whole exports object.
pub open spec fn exports_object() -> Seq<ReferenceModel> {
    seq![ReferenceModel::Array(Seq::empty())]
}

/// Whether the default export of the imported module cannot be told from
/// its exports object: nothing is known of the importing module or of the
/// imported one, or the imported one has a default export only, or a
/// default export beside named ones.
pub open spec fn default_is_whole(strict: Option<bool>, exports_type: Option<ExportsType>) -> bool {
    strict is None || exports_type is None || exports_type == Some(ExportsType::DefaultOnly)
        || exports_type == Some(ExportsType::DefaultWithNamed)
}

/// What an import of the names `referenced` refers to: each name as an
/// export that keeps its name, unless the names are not known or `default`
/// is among them and cannot be told from the exports object, in which case
/// the import refers to the whole exports object.
pub open spec fn referenced_by(
    referenced: Option<Seq<Seq<char>>>,
    strict: Option<bool>,
    exports_type: Option<ExportsType>,
) -> Seq<ReferenceModel> {
    match referenced {
        None => exports_object(),
        Some(names) => if names.contains("default"@) && default_is_whole(strict, exports_type) {
            exports_object()
        } else {
            Seq::new(
                names.len(),
                |i: int| ReferenceModel::Export { name: seq![names[i]], can_mangle: false },
            )
        },
    }
}

/// The reference to the whole exports object.
pub fn create_exports_object_referenced() -> (references: Vec<ExtendedReferencedExport>)
    ensures
        reference_models(references@) == exports_object(),
{
    let mut references: Vec<ExtendedReferencedExport> = Vec::new();
    references.push(ExtendedReferencedExport::Array(Vec::new()));
    assert(reference_models(references@) =~= exports_object()) by {
        assert(reference_model(references@[0]) == ReferenceModel::Array(Seq::empty())) by {
            let names = references@[0]->Array_0;
            assert(name_texts(names@) =~= Seq::<Seq<char>>::empty());
        }
    }
    references
}

/// What a dynamic import refers to. `strict` is whether the importing
/// module is a strict one, where that module is known, and `exports_type`
/// how the exports of the imported module are seen, where that module is
/// known.
pub fn create_import_dependency_referenced_exports(
    referenced_exports: &Option<Vec<String>>,
    strict: Option<bool>,
    exports_type: Option<ExportsType>,
) -> (references: Vec<ExtendedReferencedExport>)
    ensures
        reference_models(references@) == referenced_by(
            match referenced_exports {
                Some(names) => Some(name_texts(names@)),
                None => None,
            },
            strict,
            exports_type,
        ),
{
    let names = match referenced_exports {
        Some(names) => names,
        None => { return create_exports_object_referenced(); },
    };
    let ghost listed = name_texts(names@);
    let whole = match (strict, exports_type) {
        (Some(_), Some(exports_type)) => match exports_type {
            ExportsType::DefaultOnly | ExportsType::DefaultWithNamed => true,
            _ => false,
        },
        _ => true,
    };
    assert(whole == default_is_whole(strict, exports_type));
    let mut refs: Vec<ExtendedReferencedExport> = Vec::new();
    let mut i: usize = 0;
    while i < names.len()
        invariant
            i <= names.len(),
            *referenced_exports == Some(*names),
            listed == name_texts(names@),
            whole == default_is_whole(strict, exports_type),
            whole ==> forall|j: int| 0 <= j < i ==> listed[j] != "default"@,
            refs@.len() == i,
            forall|j: int|
                0 <= j < i ==> reference_model(#[trigger] refs@[j]) == (ReferenceModel::Export {
                    name: seq![listed[j]],
                    can_mangle: false,
                }),
        decreases names.len() - i,
    {
        if whole && text_equal(names[i].as_str(), "default") {
            assert(listed[i as int] == "default"@);
            assert(listed.contains("default"@));
            return create_exports_object_referenced();
        }
        let mut name: Vec<String> = Vec::new();
        name.push(names[i].clone());
        assert(name_texts(name@) =~= seq![listed[i as int]]);
        refs.push(ExtendedReferencedExport::Export(ReferencedExport { name, can_mangle: false }));
        i += 1;
    }
    proof {
        if whole {
            assert(!listed.contains("default"@));
        }
        assert(reference_models(refs@) =~= Seq::new(
            listed.len(),
            |i: int| ReferenceModel::Export { name: seq![listed[i]], can_mangle: false },
        ));
    }
    refs
}

/// Three fields that are archived as their own types are.
pub type PlainTriple = AsTuple3<AsCacheable, AsCacheable, AsCacheable>;

/// The strategy of a dynamic import, its fields in their order: the place
/// and the identity; the request and the span; the names referred to, the
/// import attributes and the resource identifier.
pub type ImportStrategy = AsTuple3<PlainTriple, AsTuple2<AsCacheable, AsCacheable>, PlainTriple>;

/// A dynamic import as nested tuples of its fields, in their order.
pub type ImportFields = (
    (u32, u32, DependencyId),
    (String, Option<ErrorSpan>),
    (Option<Vec<String>>, Option<Vec<(String, String)>>, String),
);

/// The model of a dynamic import.
pub type ImportModel = (
    (u32, u32, u32),
    (Seq<char>, Option<(u32, u32)>),
    (Option<Seq<Seq<char>>>, Option<Seq<(Seq<char>, Seq<char>)>>, Seq<char>),
);

/// The dependency of a dynamic `import()` on the module that it names.
#[derive(Debug, Clone)]
pub struct ImportDependency {
    start: u32,
    end: u32,
    id: DependencyId,
    request: String,
    span: Option<ErrorSpan>,
    referenced_exports: Option<Vec<String>>,
    attributes: Option<Vec<(String, String)>>,
    resource_identifier: String,
}

impl Model for ImportDependency {
    type M = ImportModel;

    closed spec fn model(&self) -> ImportModel {
        (
            (self.start, self.end, self.id.0),
            (self.request@, self.span.model()),
            (
                self.referenced_exports.model(),
                self.attributes.model(),
                self.resource_identifier@,
            ),
        )
    }
}

impl ImportDependency {
    /// The dependency `id` of the import that stands from `start` up to
    /// `end` on the module that `request` names with `attributes`, under
    /// the resource identifier that was made of the two.
    pub fn new(
        id: DependencyId,
        start: u32,
        end: u32,
        request: String,
        span: Option<ErrorSpan>,
        referenced_exports: Option<Vec<String>>,
        attributes: Option<Vec<(String, String)>>,
        resource_identifier: String,
    ) -> (dependency: Self)
        ensures
            dependency.model() == (
                (start, end, id.0),
                (request@, span.model()),
                (referenced_exports.model(), attributes.model(), resource_identifier@),
            ),
    {
        Self {
            start,
            end,
            request,
            span,
            id,
            referenced_exports,
            attributes,
            resource_identifier,
        }
    }

    pub fn resource_identifier(&self) -> (identifier: Option<&str>)
        ensures
            identifier matches Some(text) && text@ == self.model().2.2,
    {
        Some(self.resource_identifier.as_str())
    }

    pub fn get_attributes(&self) -> (attributes: Option<&Vec<(String, String)>>)
        ensures
            attributes.model() == self.model().2.1,
    {
        self.attributes.as_ref()
    }

    pub fn dependency_id(&self) -> (id: Option<DependencyId>)
        ensures
            id matches Some(id) && id.0 == self.model().0.2,
    {
        Some(self.id)
    }

    /// The stretch of source that the generated code replaces: the whole
    /// import.
    pub fn replaced_range(&self) -> (range: (u32, u32))
        ensures
            range == (self.model().0.0, self.model().0.1),
    {
        (self.start, self.end)
    }

    /// What the import refers to, by what is known of the importing module
    /// and of the imported one.
    pub fn get_referenced_exports(
        &self,
        strict: Option<bool>,
        exports_type: Option<ExportsType>,
    ) -> (references: Vec<ExtendedReferencedExport>)
        ensures
            reference_models(references@) == referenced_by(
                self.model().2.0,
                strict,
                exports_type,
            ),
    {
        proof {
            if self.referenced_exports is Some {
                let names = self.referenced_exports->Some_0;
                assert(name_texts(names@) =~= names.model());
            }
        }
        create_import_dependency_referenced_exports(&self.referenced_exports, strict, exports_type)
    }
}

impl Dependency for ImportDependency {
    fn id(&self) -> (id: DependencyId)
        ensures
            id.0 == self.model().0.2,
    {
        self.id
    }

    fn category(&self) -> (category: DependencyCategory)
        ensures
            category == DependencyCategory::Esm,
    {
        DependencyCategory::Esm
    }

    fn dependency_type(&self) -> (kind: DependencyType)
        ensures
            kind == DependencyType::DynamicImport,
    {
        DependencyType::DynamicImport
    }

    fn span(&self) -> (span: Option<ErrorSpan>)
        ensures
            span.model() == self.model().1.1,
    {
        self.span
    }
}

impl ModuleDependency for ImportDependency {
    fn request(&self) -> (request: &str)
        ensures
            request@ == self.model().1.0,
    {
        self.request.as_str()
    }

    fn user_request(&self) -> (request: &str)
        ensures
            request@ == self.model().1.0,
    {
        self.request.as_str()
    }

    fn get_optional(&self) -> (optional: bool)
        ensures
            !optional,
    {
        false
    }

    fn set_request(&mut self, request: String)
        ensures
            final(self).model() == (
                old(self).model().0,
                (request@, old(self).model().1.1),
                old(self).model().2,
            ),
    {
        self.request = request;
    }
}

impl<C> Serialize<C> for ImportDependency {
    open spec fn archives(bytes: Seq<u8>, value: ImportModel, ctx: C) -> bool {
        <ImportStrategy as SerializeWith<ImportFields, C>>::archives(bytes, value, ctx)
    }

    open spec fn refuses(value: ImportModel, ctx: C, e: SerializeError) -> bool {
        <ImportStrategy as SerializeWith<ImportFields, C>>::refuses(value, ctx, e)
    }

    fn serialize(&self, serializer: &CacheableSerializer<'_, C>) -> (r: Result<
        Vec<u8>,
        SerializeError,
    >) {
        let place = match serialize_triple::<
            AsCacheable,
            AsCacheable,
            AsCacheable,
            u32,
            u32,
            DependencyId,
            C,
        >(&self.start, &self.end, &self.id, serializer) {
            Ok(place) => place,
            Err(e) => { return Err(e); },
        };
        let named = match serialize_pair::<AsCacheable, AsCacheable, String, Option<ErrorSpan>, C>(
            &self.request,
            &self.span,
            serializer,
        ) {
            Ok(named) => named,
            Err(e) => { return Err(e); },
        };
        let meant = match serialize_triple::<
            AsCacheable,
            AsCacheable,
            AsCacheable,
            Option<Vec<String>>,
            Option<Vec<(String, String)>>,
            String,
            C,
        >(&self.referenced_exports, &self.attributes, &self.resource_identifier, serializer) {
            Ok(meant) => meant,
            Err(e) => { return Err(e); },
        };
        archive_three(place, named, meant)
    }
}

impl<C> Deserialize<C> for ImportDependency {
    open spec fn restores(bytes: Seq<u8>, ctx: C) -> Result<ImportModel, DeserializeError> {
        <ImportStrategy as DeserializeWith<ImportFields, C>>::restores(bytes, ctx)
    }

    fn deserialize(bytes: &[u8], deserializer: &CacheableDeserializer<'_, C>) -> (r: Result<
        Self,
        DeserializeError,
    >) {
        match <ImportStrategy as DeserializeWith<ImportFields, C>>::deserialize_with(
            bytes,
            deserializer,
        ) {
            Ok(
                (
                    (start, end, id),
                    (request, span),
                    (referenced_exports, attributes, resource_identifier),
                ),
            ) => Ok(
                Self {
                    start,
                    end,
                    id,
                    request,
                    span,
                    referenced_exports,
                    attributes,
                    resource_identifier,
                },
            ),
            Err(e) => Err(e),
        }
    }
}

impl<C> Cacheable<C> for ImportDependency {
    open spec fn faithful() -> bool {
        true
    }

    proof fn lemma_round_trip(bytes: Seq<u8>, value: ImportModel, ctx: C) {
        <ImportStrategy as CacheableWith<ImportFields, C>>::lemma_round_trip(bytes, value, ctx);
    }
}

} // verus!
