//! The strategy for a field that cannot be cached: both directions fail.

use crate::deserialize::CacheableDeserializer;
use crate::deserialize::DeserializeError;
use crate::model::Model;
use crate::serialize::CacheableSerializer;
use crate::serialize::SerializeError;
use crate::with::DeserializeWith;
use crate::with::SerializeWith;
use vstd::prelude::*;

verus! {

/// Declares that a field is not cacheable.
pub struct Unsupported;

impl<F: Model, C> SerializeWith<F, C> for Unsupported {
    open spec fn archives(bytes: Seq<u8>, field: F::M, ctx: C) -> bool {
        false
    }

    open spec fn refuses(field: F::M, ctx: C, e: SerializeError) -> bool {
        e == SerializeError::SerializeFailed("unsupported field")
    }

    fn serialize_with(field: &F, serializer: &CacheableSerializer<'_, C>) -> (r: Result<
        Vec<u8>,
        SerializeError,
    >)
        ensures
            match r {
                Ok(_) => false,
                Err(e) => e == SerializeError::SerializeFailed("unsupported field"),
            },
    {
        Err(SerializeError::SerializeFailed("unsupported field"))
    }
}

impl<F: Model, C> DeserializeWith<F, C> for Unsupported {
    open spec fn restores(bytes: Seq<u8>, ctx: C) -> Result<F::M, DeserializeError> {
        Err(DeserializeError::DeserializeFailed("unsupported field"))
    }

    fn deserialize_with(bytes: &[u8], deserializer: &CacheableDeserializer<'_, C>) -> (r: Result<
        F,
        DeserializeError,
    >) {
        Err(DeserializeError::DeserializeFailed("unsupported field"))
    }
}

/// Unsupported field: no buffer is an archived form of a field that is
/// declared unsupported, and every buffer is rejected when read as one.
pub proof fn lemma_unsupported_fails<F: Model, C>(bytes: Seq<u8>, field: F::M, ctx: C)
    ensures
        !<Unsupported as SerializeWith<F, C>>::archives(bytes, field, ctx),
        <Unsupported as DeserializeWith<F, C>>::restores(bytes, ctx) is Err,
{
}

} // verus!
