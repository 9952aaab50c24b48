//! The strategy for a field that the context of the pass supplies: nothing
//! of it is archived.

use crate::deserialize::CacheableDeserializer;
use crate::deserialize::DeserializeError;
use crate::model::Model;
use crate::serialize::CacheableSerializer;
use crate::serialize::SerializeError;
use crate::with::DeserializeWith;
use crate::with::SerializeWith;
use vstd::prelude::*;

verus! {

/// Takes a field from the context instead of the archive.
pub struct FromContext;

/// A context that supplies fields of type `F`.
pub trait ContextSource<F: Model> {
    /// The field that the context supplies.
    spec fn supplied(&self) -> F::M;

    fn supply(&self) -> (field: F)
        ensures
            field.model() == self.supplied(),
    ;
}

impl<F: Model, C> SerializeWith<F, C> for FromContext {
    open spec fn archives(bytes: Seq<u8>, field: F::M, ctx: C) -> bool {
        bytes == Seq::<u8>::empty()
    }

    open spec fn refuses(field: F::M, ctx: C, e: SerializeError) -> bool {
        false
    }

    fn serialize_with(field: &F, serializer: &CacheableSerializer<'_, C>) -> (r: Result<
        Vec<u8>,
        SerializeError,
    >)
        ensures
            r is Ok,
    {
        Ok(Vec::new())
    }
}

impl<F: Model, C: ContextSource<F>> DeserializeWith<F, C> for FromContext {
    open spec fn restores(bytes: Seq<u8>, ctx: C) -> Result<F::M, DeserializeError> {
        if bytes.len() == 0 {
            Ok(ctx.supplied())
        } else {
            Err(DeserializeError::CheckBytesError)
        }
    }

    fn deserialize_with(bytes: &[u8], deserializer: &CacheableDeserializer<'_, C>) -> (r: Result<
        F,
        DeserializeError,
    >) {
        if bytes.len() == 0 {
            Ok(deserializer.context().supply())
        } else {
            Err(DeserializeError::CheckBytesError)
        }
    }
}

/// A field taken from the context occupies no byte of the archive, whatever
/// the field and whatever the context, and is rebuilt as what the context of
/// the reading pass supplies.
pub proof fn lemma_context_sourced<F: Model, C: ContextSource<F>>(
    first: Seq<u8>,
    second: Seq<u8>,
    field: F::M,
    other: F::M,
    writing: C,
    rewriting: C,
    reading: C,
)
    requires
        <FromContext as SerializeWith<F, C>>::archives(first, field, writing),
        <FromContext as SerializeWith<F, C>>::archives(second, other, rewriting),
    ensures
        first == second,
        first.len() == 0,
        <FromContext as DeserializeWith<F, C>>::restores(first, reading) == Ok::<
            F::M,
            DeserializeError,
        >(reading.supplied()),
{
}

} // verus!
