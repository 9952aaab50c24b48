//! The bookkeeping of one build as the cache keeps it: what failed, the
//! files that the build depends on, and the next free identities. The owned
//! form is read from the cache; the borrowing form is written to it, and
//! both have one archived form.

use crate::cacheable::Cacheable;
use crate::dependency::DependencyId;
use crate::deserialize::read_ok;
use crate::deserialize::CacheableDeserializer;
use crate::deserialize::Deserialize;
use crate::deserialize::DeserializeError;
use crate::model::Model;
use crate::serialize::CacheableSerializer;
use crate::serialize::Serialize;
use crate::serialize::SerializeError;
use crate::with::as_tuple2::archive_two;
use crate::with::as_tuple2::serialize_pair;
use crate::with::as_tuple3::archive_three;
use crate::with::AsCacheable;
use crate::with::AsTuple2;
use crate::with::AsTuple3;
use crate::with::AsVec;
use crate::with::CacheableWith;
use crate::with::DeserializeWith;
use crate::with::SerializeWith;
use std::collections::HashSet;
use std::hash::BuildHasher;
use std::hash::Hash;
use vstd::prelude::*;

verus! {

/// A pair of fields that are archived as their own types are.
pub type Plain = AsTuple2<AsCacheable, AsCacheable>;

/// The strategy of the bookkeeping, its fields in their order: the failed
/// dependencies, a set of pairs, and the failed modules, a set; the four
/// file counters; the two next identities.
pub type MetaStrategy = AsTuple3<
    AsTuple2<AsVec<Plain>, AsVec<AsCacheable>>,
    AsTuple2<Plain, Plain>,
    Plain,
>;

/// The bookkeeping as nested tuples of its fields, in their order.
pub type MetaFields<I, F, S> = (
    (HashSet<(DependencyId, Option<I>), S>, HashSet<I, S>),
    ((F, F), (F, F)),
    (u32, u32),
);

/// The model of the bookkeeping.
pub type MetaModel<I, F> = ((Set<(u32, Option<I>)>, Set<I>), ((F, F), (F, F)), (u32, u32));

/// The bookkeeping that owns its parts.
#[verifier::reject_recursive_types(S)]
pub struct Meta<I, F, S> {
    pub make_failed_dependencies: HashSet<(DependencyId, Option<I>), S>,
    pub make_failed_module: HashSet<I, S>,
    pub file_dependencies: F,
    pub context_dependencies: F,
    pub missing_dependencies: F,
    pub build_dependencies: F,
    pub next_dependencies_id: u32,
    pub next_connection_id: u32,
}

/// The bookkeeping that borrows its sets and counters.
#[verifier::reject_recursive_types(S)]
pub struct MetaRef<'a, I, F, S> {
    pub make_failed_dependencies: &'a HashSet<(DependencyId, Option<I>), S>,
    pub make_failed_module: &'a HashSet<I, S>,
    pub file_dependencies: &'a F,
    pub context_dependencies: &'a F,
    pub missing_dependencies: &'a F,
    pub build_dependencies: &'a F,
    pub next_dependencies_id: u32,
    pub next_connection_id: u32,
}

impl<I: Model, F: Model, S> Model for Meta<I, F, S> {
    type M = MetaModel<I::M, F::M>;

    open spec fn model(&self) -> MetaModel<I::M, F::M> {
        (
            (self.make_failed_dependencies.model(), self.make_failed_module.model()),
            (
                (self.file_dependencies.model(), self.context_dependencies.model()),
                (self.missing_dependencies.model(), self.build_dependencies.model()),
            ),
            (self.next_dependencies_id, self.next_connection_id),
        )
    }
}

impl<'a, I: Model, F: Model, S> Model for MetaRef<'a, I, F, S> {
    type M = MetaModel<I::M, F::M>;

    open spec fn model(&self) -> MetaModel<I::M, F::M> {
        (
            (self.make_failed_dependencies.model(), self.make_failed_module.model()),
            (
                (self.file_dependencies.model(), self.context_dependencies.model()),
                (self.missing_dependencies.model(), self.build_dependencies.model()),
            ),
            (self.next_dependencies_id, self.next_connection_id),
        )
    }
}

/// Archives the parts of the bookkeeping, in the order of its fields.
pub fn serialize_meta<
    I: Serialize<C> + Eq + Hash,
    F: Serialize<C>,
    S: BuildHasher + Default,
    C,
>(
    make_failed_dependencies: &HashSet<(DependencyId, Option<I>), S>,
    make_failed_module: &HashSet<I, S>,
    file_dependencies: &F,
    context_dependencies: &F,
    missing_dependencies: &F,
    build_dependencies: &F,
    next_dependencies_id: u32,
    next_connection_id: u32,
    serializer: &CacheableSerializer<'_, C>,
) -> (r: Result<Vec<u8>, SerializeError>)
    ensures
        r matches Ok(bytes) ==> <MetaStrategy as SerializeWith<MetaFields<I, F, S>, C>>::archives(
            bytes@,
            (
                (make_failed_dependencies.model(), make_failed_module.model()),
                (
                    (file_dependencies.model(), context_dependencies.model()),
                    (missing_dependencies.model(), build_dependencies.model()),
                ),
                (next_dependencies_id, next_connection_id),
            ),
            serializer.ctx(),
        ),
        r matches Err(e) ==> <MetaStrategy as SerializeWith<
            MetaFields<I, F, S>,
            C,
        >>::refuses(
            (
                (make_failed_dependencies.model(), make_failed_module.model()),
                (
                    (file_dependencies.model(), context_dependencies.model()),
                    (missing_dependencies.model(), build_dependencies.model()),
                ),
                (next_dependencies_id, next_connection_id),
            ),
            serializer.ctx(),
            e,
        ),
{
    let failed = match serialize_pair::<
        AsVec<Plain>,
        AsVec<AsCacheable>,
        HashSet<(DependencyId, Option<I>), S>,
        HashSet<I, S>,
        C,
    >(make_failed_dependencies, make_failed_module, serializer) {
        Ok(failed) => failed,
        Err(e) => { return Err(e); },
    };
    let found = match serialize_pair::<AsCacheable, AsCacheable, F, F, C>(
        file_dependencies,
        context_dependencies,
        serializer,
    ) {
        Ok(found) => found,
        Err(e) => { return Err(e); },
    };
    let sought = match serialize_pair::<AsCacheable, AsCacheable, F, F, C>(
        missing_dependencies,
        build_dependencies,
        serializer,
    ) {
        Ok(sought) => sought,
        Err(e) => { return Err(e); },
    };
    let files = match archive_two(found, sought) {
        Ok(files) => files,
        Err(e) => { return Err(e); },
    };
    let next = match serialize_pair::<AsCacheable, AsCacheable, u32, u32, C>(
        &next_dependencies_id,
        &next_connection_id,
        serializer,
    ) {
        Ok(next) => next,
        Err(e) => { return Err(e); },
    };
    archive_three(failed, files, next)
}

impl<I: Serialize<C> + Eq + Hash, F: Serialize<C>, S: BuildHasher + Default, C> Serialize<
    C,
> for Meta<I, F, S> {
    open spec fn archives(bytes: Seq<u8>, value: MetaModel<I::M, F::M>, ctx: C) -> bool {
        <MetaStrategy as SerializeWith<MetaFields<I, F, S>, C>>::archives(bytes, value, ctx)
    }

    open spec fn refuses(value: MetaModel<I::M, F::M>, ctx: C, e: SerializeError) -> bool {
        <MetaStrategy as SerializeWith<MetaFields<I, F, S>, C>>::refuses(value, ctx, e)
    }

    fn serialize(&self, serializer: &CacheableSerializer<'_, C>) -> (r: Result<
        Vec<u8>,
        SerializeError,
    >) {
        serialize_meta(
            &self.make_failed_dependencies,
            &self.make_failed_module,
            &self.file_dependencies,
            &self.context_dependencies,
            &self.missing_dependencies,
            &self.build_dependencies,
            self.next_dependencies_id,
            self.next_connection_id,
            serializer,
        )
    }
}

impl<'a, I: Serialize<C> + Eq + Hash, F: Serialize<C>, S: BuildHasher + Default, C> Serialize<
    C,
> for MetaRef<'a, I, F, S> {
    open spec fn archives(bytes: Seq<u8>, value: MetaModel<I::M, F::M>, ctx: C) -> bool {
        <Meta<I, F, S> as Serialize<C>>::archives(bytes, value, ctx)
    }

    open spec fn refuses(value: MetaModel<I::M, F::M>, ctx: C, e: SerializeError) -> bool {
        <Meta<I, F, S> as Serialize<C>>::refuses(value, ctx, e)
    }

    fn serialize(&self, serializer: &CacheableSerializer<'_, C>) -> (r: Result<
        Vec<u8>,
        SerializeError,
    >) {
        serialize_meta(
            self.make_failed_dependencies,
            self.make_failed_module,
            self.file_dependencies,
            self.context_dependencies,
            self.missing_dependencies,
            self.build_dependencies,
            self.next_dependencies_id,
            self.next_connection_id,
            serializer,
        )
    }
}

impl<I: Deserialize<C> + Eq + Hash, F: Deserialize<C>, S: BuildHasher + Default, C> Deserialize<
    C,
> for Meta<I, F, S> {
    open spec fn restores(bytes: Seq<u8>, ctx: C) -> Result<
        MetaModel<I::M, F::M>,
        DeserializeError,
    > {
        <MetaStrategy as DeserializeWith<MetaFields<I, F, S>, C>>::restores(bytes, ctx)
    }

    fn deserialize(bytes: &[u8], deserializer: &CacheableDeserializer<'_, C>) -> (r: Result<
        Self,
        DeserializeError,
    >) {
        match <MetaStrategy as DeserializeWith<MetaFields<I, F, S>, C>>::deserialize_with(
            bytes,
            deserializer,
        ) {
            Ok(
                (
                    (make_failed_dependencies, make_failed_module),
                    (
                        (file_dependencies, context_dependencies),
                        (missing_dependencies, build_dependencies),
                    ),
                    (next_dependencies_id, next_connection_id),
                ),
            ) => Ok(
                Meta {
                    make_failed_dependencies,
                    make_failed_module,
                    file_dependencies,
                    context_dependencies,
                    missing_dependencies,
                    build_dependencies,
                    next_dependencies_id,
                    next_connection_id,
                },
            ),
            Err(e) => Err(e),
        }
    }
}

impl<I: Cacheable<C> + Eq + Hash, F: Cacheable<C>, S: BuildHasher + Default, C> Cacheable<
    C,
> for Meta<I, F, S> {
    open spec fn faithful() -> bool {
        <MetaStrategy as CacheableWith<MetaFields<I, F, S>, C>>::faithful()
    }

    proof fn lemma_round_trip(bytes: Seq<u8>, value: MetaModel<I::M, F::M>, ctx: C) {
        <MetaStrategy as CacheableWith<MetaFields<I, F, S>, C>>::lemma_round_trip(
            bytes,
            value,
            ctx,
        );
    }
}

/// What is written through the borrowing form of the bookkeeping is read
/// as its owned form.
pub proof fn lemma_meta_ref_round_trip<
    'a,
    I: Cacheable<C> + Eq + Hash,
    F: Cacheable<C>,
    S: BuildHasher + Default,
    C,
>(bytes: Seq<u8>, value: MetaModel<I::M, F::M>, ctx: C)
    requires
        <Meta<I, F, S> as Cacheable<C>>::faithful(),
        <MetaRef<'a, I, F, S> as Serialize<C>>::archives(bytes, value, ctx),
    ensures
        <Meta<I, F, S> as Deserialize<C>>::restores(bytes, ctx) == read_ok(value),
{
    <Meta<I, F, S> as Cacheable<C>>::lemma_round_trip(bytes, value, ctx);
}

} // verus!
