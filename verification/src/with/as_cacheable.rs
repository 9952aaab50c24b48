//! The direct strategy: the field's own archived form.

use crate::cacheable::Cacheable;
use crate::deserialize::CacheableDeserializer;
use crate::deserialize::Deserialize;
use crate::deserialize::DeserializeError;
use crate::serialize::CacheableSerializer;
use crate::serialize::Serialize;
use crate::serialize::SerializeError;
use crate::with::CacheableWith;
use crate::with::DeserializeWith;
use crate::with::SerializeWith;
use vstd::prelude::*;

verus! {

/// Archives a field as its own type does.
pub struct AsCacheable;

impl<T: Serialize<C>, C> SerializeWith<T, C> for AsCacheable {
    open spec fn archives(bytes: Seq<u8>, field: T::M, ctx: C) -> bool {
        T::archives(bytes, field, ctx)
    }

    open spec fn refuses(field: T::M, ctx: C, e: SerializeError) -> bool {
        T::refuses(field, ctx, e)
    }

    fn serialize_with(field: &T, serializer: &CacheableSerializer<'_, C>) -> (r: Result<
        Vec<u8>,
        SerializeError,
    >) {
        field.serialize(serializer)
    }
}

impl<T: Deserialize<C>, C> DeserializeWith<T, C> for AsCacheable {
    open spec fn restores(bytes: Seq<u8>, ctx: C) -> Result<T::M, DeserializeError> {
        T::restores(bytes, ctx)
    }

    fn deserialize_with(bytes: &[u8], deserializer: &CacheableDeserializer<'_, C>) -> (r: Result<
        T,
        DeserializeError,
    >) {
        T::deserialize(bytes, deserializer)
    }
}

impl<T: Cacheable<C>, C> CacheableWith<T, C> for AsCacheable {
    open spec fn faithful() -> bool {
        T::faithful()
    }

    proof fn lemma_round_trip(bytes: Seq<u8>, field: T::M, ctx: C) {
        T::lemma_round_trip(bytes, field, ctx);
    }
}

} // verus!
