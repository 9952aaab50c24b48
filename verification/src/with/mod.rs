//! Strategies that say, field by field, how a value is archived when its
//! own type has no archived form or should not use the one it has.

pub mod as_bytes;
pub mod as_cacheable;
pub mod as_inner;
pub mod as_map;
pub mod as_preset;
pub mod as_string;
pub mod as_tuple2;
pub mod as_tuple3;
pub mod as_vec;
pub mod concurrent;
pub mod from_context;
pub mod hash_map;
pub mod hash_set;
pub mod ordered;
pub mod unsupported;

use crate::deserialize::read_err;
use crate::deserialize::read_ok;
use crate::deserialize::CacheableDeserializer;
use crate::deserialize::DeserializeError;
use crate::model::Model;
use crate::serialize::CacheableSerializer;
use crate::serialize::SerializeError;
use vstd::prelude::*;

pub use as_bytes::AsBytes;
pub use as_bytes::AsBytesConverter;
pub use as_cacheable::AsCacheable;
pub use as_inner::AsInner;
pub use as_inner::AsInnerConverter;
pub use as_map::AsMap;
pub use as_map::AsMapConverter;
pub use as_map::Entry;
pub use as_preset::AsPreset;
pub use as_string::AsString;
pub use as_string::AsStringConverter;
pub use as_tuple2::AsTuple2;
pub use as_tuple2::Tuple2;
pub use as_tuple3::AsTuple3;
pub use as_tuple3::Tuple3;
pub use as_vec::AsVec;
pub use as_vec::AsVecConverter;
pub use from_context::ContextSource;
pub use from_context::FromContext;
pub use unsupported::Unsupported;

verus! {

/// A strategy that archives fields of type `F`.
pub trait SerializeWith<F: Model, C> {
    /// Whether `bytes` is an archived form of `field` under context `ctx`.
    spec fn archives(bytes: Seq<u8>, field: F::M, ctx: C) -> bool;

    /// Whether the library's own rules refuse to archive `field` with
    /// error `e`.
    spec fn refuses(field: F::M, ctx: C, e: SerializeError) -> bool;

    /// Archives the field. It fails only where the field is refused, and
    /// then with an error with which it is refused.
    fn serialize_with(field: &F, serializer: &CacheableSerializer<'_, C>) -> (r: Result<
        Vec<u8>,
        SerializeError,
    >)
        ensures
            r matches Ok(bytes) ==> Self::archives(bytes@, field.model(), serializer.ctx()),
            r matches Err(e) ==> Self::refuses(field.model(), serializer.ctx(), e),
    ;
}

/// Whether `field` has an archived form under strategy `W`.
pub open spec fn archivable<W: SerializeWith<F, C>, F: Model, C>(field: F::M, ctx: C) -> bool {
    exists|bytes: Seq<u8>| W::archives(bytes, field, ctx)
}

/// Whether the item at place `i` is the first of `items` that is refused,
/// and is refused with `e`: every item before it has an archived form.
pub open spec fn refused_at<W: SerializeWith<F, C>, F: Model, C>(
    items: Seq<F::M>,
    i: int,
    ctx: C,
    e: SerializeError,
) -> bool {
    &&& 0 <= i < items.len()
    &&& W::refuses(items[i], ctx, e)
    &&& forall|j: int| 0 <= j < i ==> archivable::<W, F, C>(#[trigger] items[j], ctx)
}

/// A strategy that rebuilds fields of type `F`.
pub trait DeserializeWith<F: Model, C> {
    /// What reading `bytes` under context `ctx` gives: the field that they
    /// stand for, or the error with which they are rejected.
    spec fn restores(bytes: Seq<u8>, ctx: C) -> Result<F::M, DeserializeError>;

    /// Checks `bytes` and rebuilds the field from them.
    fn deserialize_with(bytes: &[u8], deserializer: &CacheableDeserializer<'_, C>) -> (r: Result<
        F,
        DeserializeError,
    >)
        ensures
            r matches Ok(field) ==> Self::restores(bytes@, deserializer.ctx()) == read_ok(
                field.model(),
            ),
            r matches Err(e) ==> Self::restores(bytes@, deserializer.ctx()) == read_err::<F::M>(e),
    ;
}

/// A strategy under which fields come back from their archives, where it
/// promises so.
pub trait CacheableWith<F: Model, C>: SerializeWith<F, C> + DeserializeWith<F, C> {
    /// Whether the strategy promises that fields come back. A strategy that
    /// takes the field from elsewhere than the archive does not.
    spec fn faithful() -> bool;

    /// Reading an archived form of `field` gives `field`.
    proof fn lemma_round_trip(bytes: Seq<u8>, field: F::M, ctx: C)
        requires
            Self::faithful(),
            Self::archives(bytes, field, ctx),
        ensures
            Self::restores(bytes, ctx) == read_ok(field),
    ;
}

} // verus!
