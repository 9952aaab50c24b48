//! One node of the module graph as the cache keeps it: a module with what
//! hangs on it. The owned form is read from the cache; the borrowing form
//! is written to it, and both have one archived form.

use crate::cacheable::Cacheable;
use crate::deserialize::read_ok;
use crate::deserialize::CacheableDeserializer;
use crate::deserialize::Deserialize;
use crate::deserialize::DeserializeError;
use crate::model::Model;
use crate::serialize::CacheableSerializer;
use crate::serialize::Serialize;
use crate::serialize::SerializeError;
use crate::with::as_tuple2::archive_two;
use crate::with::as_tuple2::serialize_pair;
use crate::with::as_tuple3::serialize_triple;
use crate::with::AsCacheable;
use crate::with::AsTuple2;
use crate::with::AsTuple3;
use crate::with::AsVec;
use crate::with::CacheableWith;
use crate::with::DeserializeWith;
use crate::with::SerializeWith;
use vstd::prelude::*;

verus! {

/// The strategy of a node, its fields in their order: the graph module and
/// the module, then the dependencies, each with the block it may belong to,
/// the connections and the blocks.
pub type NodeStrategy = AsTuple2<
    AsTuple2<AsCacheable, AsCacheable>,
    AsTuple3<AsVec<AsTuple2<AsCacheable, AsCacheable>>, AsVec<AsCacheable>, AsVec<AsCacheable>>,
>;

/// A node as nested tuples of its fields, in their order.
pub type NodeFields<G, U, D, B, N, K> = ((G, U), (Vec<(D, Option<B>)>, Vec<N>, Vec<K>));

/// The model of a node.
pub type NodeModel<G, U, D, B, N, K> = ((G, U), (Seq<(D, Option<B>)>, Seq<N>, Seq<K>));

/// A node that owns its parts.
pub struct Node<G, U, D, B, N, K> {
    pub mgm: G,
    pub module: U,
    pub dependencies: Vec<(D, Option<B>)>,
    pub connections: Vec<N>,
    pub blocks: Vec<K>,
}

/// A node that borrows its graph module and its module.
pub struct NodeRef<'a, G, U, D, B, N, K> {
    pub mgm: &'a G,
    pub module: &'a U,
    pub dependencies: Vec<(D, Option<B>)>,
    pub connections: Vec<N>,
    pub blocks: Vec<K>,
}

impl<G: Model, U: Model, D: Model, B: Model, N: Model, K: Model> Model for Node<G, U, D, B, N, K> {
    type M = NodeModel<G::M, U::M, D::M, B::M, N::M, K::M>;

    open spec fn model(&self) -> NodeModel<G::M, U::M, D::M, B::M, N::M, K::M> {
        (
            (self.mgm.model(), self.module.model()),
            (self.dependencies.model(), self.connections.model(), self.blocks.model()),
        )
    }
}

impl<'a, G: Model, U: Model, D: Model, B: Model, N: Model, K: Model> Model for NodeRef<
    'a,
    G,
    U,
    D,
    B,
    N,
    K,
> {
    type M = NodeModel<G::M, U::M, D::M, B::M, N::M, K::M>;

    open spec fn model(&self) -> NodeModel<G::M, U::M, D::M, B::M, N::M, K::M> {
        (
            (self.mgm.model(), self.module.model()),
            (self.dependencies.model(), self.connections.model(), self.blocks.model()),
        )
    }
}

/// Archives the parts of a node, in the order of its fields.
pub fn serialize_node<
    G: Serialize<C>,
    U: Serialize<C>,
    D: Serialize<C>,
    B: Serialize<C>,
    N: Serialize<C>,
    K: Serialize<C>,
    C,
>(
    mgm: &G,
    module: &U,
    dependencies: &Vec<(D, Option<B>)>,
    connections: &Vec<N>,
    blocks: &Vec<K>,
    serializer: &CacheableSerializer<'_, C>,
) -> (r: Result<Vec<u8>, SerializeError>)
    ensures
        r matches Ok(bytes) ==> <NodeStrategy as SerializeWith<
            NodeFields<G, U, D, B, N, K>,
            C,
        >>::archives(
            bytes@,
            (
                (mgm.model(), module.model()),
                (dependencies.model(), connections.model(), blocks.model()),
            ),
            serializer.ctx(),
        ),
        r matches Err(e) ==> <NodeStrategy as SerializeWith<
            NodeFields<G, U, D, B, N, K>,
            C,
        >>::refuses(
            (
                (mgm.model(), module.model()),
                (dependencies.model(), connections.model(), blocks.model()),
            ),
            serializer.ctx(),
            e,
        ),
{
    let head = match serialize_pair::<AsCacheable, AsCacheable, G, U, C>(mgm, module, serializer) {
        Ok(head) => head,
        Err(e) => { return Err(e); },
    };
    let tail = match serialize_triple::<
        AsVec<AsTuple2<AsCacheable, AsCacheable>>,
        AsVec<AsCacheable>,
        AsVec<AsCacheable>,
        Vec<(D, Option<B>)>,
        Vec<N>,
        Vec<K>,
        C,
    >(dependencies, connections, blocks, serializer) {
        Ok(tail) => tail,
        Err(e) => { return Err(e); },
    };
    archive_two(head, tail)
}

impl<
    G: Serialize<C>,
    U: Serialize<C>,
    D: Serialize<C>,
    B: Serialize<C>,
    N: Serialize<C>,
    K: Serialize<C>,
    C,
> Serialize<C> for Node<G, U, D, B, N, K> {
    open spec fn archives(
        bytes: Seq<u8>,
        value: NodeModel<G::M, U::M, D::M, B::M, N::M, K::M>,
        ctx: C,
    ) -> bool {
        <NodeStrategy as SerializeWith<NodeFields<G, U, D, B, N, K>, C>>::archives(
            bytes,
            value,
            ctx,
        )
    }

    open spec fn refuses(
        value: NodeModel<G::M, U::M, D::M, B::M, N::M, K::M>,
        ctx: C,
        e: SerializeError,
    ) -> bool {
        <NodeStrategy as SerializeWith<NodeFields<G, U, D, B, N, K>, C>>::refuses(value, ctx, e)
    }

    fn serialize(&self, serializer: &CacheableSerializer<'_, C>) -> (r: Result<
        Vec<u8>,
        SerializeError,
    >) {
        serialize_node(
            &self.mgm,
            &self.module,
            &self.dependencies,
            &self.connections,
            &self.blocks,
            serializer,
        )
    }
}

impl<
    'a,
    G: Serialize<C>,
    U: Serialize<C>,
    D: Serialize<C>,
    B: Serialize<C>,
    N: Serialize<C>,
    K: Serialize<C>,
    C,
> Serialize<C> for NodeRef<'a, G, U, D, B, N, K> {
    open spec fn archives(
        bytes: Seq<u8>,
        value: NodeModel<G::M, U::M, D::M, B::M, N::M, K::M>,
        ctx: C,
    ) -> bool {
        <Node<G, U, D, B, N, K> as Serialize<C>>::archives(bytes, value, ctx)
    }

    open spec fn refuses(
        value: NodeModel<G::M, U::M, D::M, B::M, N::M, K::M>,
        ctx: C,
        e: SerializeError,
    ) -> bool {
        <Node<G, U, D, B, N, K> as Serialize<C>>::refuses(value, ctx, e)
    }

    fn serialize(&self, serializer: &CacheableSerializer<'_, C>) -> (r: Result<
        Vec<u8>,
        SerializeError,
    >) {
        serialize_node(
            self.mgm,
            self.module,
            &self.dependencies,
            &self.connections,
            &self.blocks,
            serializer,
        )
    }
}

impl<
    G: Deserialize<C>,
    U: Deserialize<C>,
    D: Deserialize<C>,
    B: Deserialize<C>,
    N: Deserialize<C>,
    K: Deserialize<C>,
    C,
> Deserialize<C> for Node<G, U, D, B, N, K> {
    open spec fn restores(bytes: Seq<u8>, ctx: C) -> Result<
        NodeModel<G::M, U::M, D::M, B::M, N::M, K::M>,
        DeserializeError,
    > {
        <NodeStrategy as DeserializeWith<NodeFields<G, U, D, B, N, K>, C>>::restores(bytes, ctx)
    }

    fn deserialize(bytes: &[u8], deserializer: &CacheableDeserializer<'_, C>) -> (r: Result<
        Self,
        DeserializeError,
    >) {
        match <NodeStrategy as DeserializeWith<NodeFields<G, U, D, B, N, K>, C>>::deserialize_with(
            bytes,
            deserializer,
        ) {
            Ok(((mgm, module), (dependencies, connections, blocks))) => Ok(
                Node { mgm, module, dependencies, connections, blocks },
            ),
            Err(e) => Err(e),
        }
    }
}

impl<
    G: Cacheable<C>,
    U: Cacheable<C>,
    D: Cacheable<C>,
    B: Cacheable<C>,
    N: Cacheable<C>,
    K: Cacheable<C>,
    C,
> Cacheable<C> for Node<G, U, D, B, N, K> {
    open spec fn faithful() -> bool {
        <NodeStrategy as CacheableWith<NodeFields<G, U, D, B, N, K>, C>>::faithful()
    }

    proof fn lemma_round_trip(
        bytes: Seq<u8>,
        value: NodeModel<G::M, U::M, D::M, B::M, N::M, K::M>,
        ctx: C,
    ) {
        <NodeStrategy as CacheableWith<NodeFields<G, U, D, B, N, K>, C>>::lemma_round_trip(
            bytes,
            value,
            ctx,
        );
    }
}

/// What is written through the borrowing form of a node is read as the
/// owned form of that node.
pub proof fn lemma_node_ref_round_trip<
    'a,
    G: Cacheable<C>,
    U: Cacheable<C>,
    D: Cacheable<C>,
    B: Cacheable<C>,
    N: Cacheable<C>,
    K: Cacheable<C>,
    C,
>(bytes: Seq<u8>, value: NodeModel<G::M, U::M, D::M, B::M, N::M, K::M>, ctx: C)
    requires
        <Node<G, U, D, B, N, K> as Cacheable<C>>::faithful(),
        <NodeRef<'a, G, U, D, B, N, K> as Serialize<C>>::archives(bytes, value, ctx),
    ensures
        <Node<G, U, D, B, N, K> as Deserialize<C>>::restores(bytes, ctx) == read_ok(value),
{
    <Node<G, U, D, B, N, K> as Cacheable<C>>::lemma_round_trip(bytes, value, ctx);
}

} // verus!
