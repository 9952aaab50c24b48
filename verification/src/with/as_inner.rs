//! The strategy that looks through an indirection: the payload is archived,
//! and the wrapper is built around it again.

use crate::archive::archive_list;
use crate::archive::list_archive;
use crate::archive::list_restored;
use crate::archive::restore_list;
use crate::deserialize::read_err;
use crate::deserialize::read_ok;
use crate::deserialize::CacheableDeserializer;
use crate::deserialize::DeserializeError;
use crate::model::runs;
use crate::model::Model;
use crate::serialize::CacheableSerializer;
use crate::serialize::SerializeError;
use crate::with::AsCacheable;
use crate::with::CacheableWith;
use crate::with::DeserializeWith;
use crate::with::SerializeWith;
use once_cell::sync::OnceCell;
use std::sync::Arc;
use vstd::prelude::*;

verus! {

#[verifier::external_type_specification]
#[verifier::external_body]
#[verifier::reject_recursive_types(T)]
pub struct ExOnceCell<T>(OnceCell<T>);

/// What a cell of a number holds: the number it was set to, if it was set.
pub uninterp spec fn cell_value(cell: OnceCell<usize>) -> Option<usize>;

/// Archives the payload of a wrapper with `T`.
pub struct AsInner<T = AsCacheable> {
    _inner: T,
}

/// A wrapper around one payload.
pub trait AsInnerConverter: Model + Sized {
    type Inner: Model;

    /// The payload of a wrapper.
    spec fn inner_of(value: Self::M) -> <Self::Inner as Model>::M;

    /// The wrapper around a payload.
    spec fn wrapped(inner: <Self::Inner as Model>::M) -> Self::M;

    fn to_inner(&self) -> (inner: &Self::Inner)
        ensures
            inner.model() == Self::inner_of(self.model()),
    ;

    fn from_inner(data: Self::Inner) -> (value: Self)
        ensures
            value.model() == Self::wrapped(data.model()),
    ;

    /// The wrapper around the payload of a wrapper is that wrapper.
    proof fn lemma_wrapped_inner(value: Self::M)
        ensures
            Self::wrapped(Self::inner_of(value)) == value,
    ;
}

impl<T: AsInnerConverter<Inner = O>, O: Model, A: SerializeWith<O, C>, C> SerializeWith<
    T,
    C,
> for AsInner<A> {
    open spec fn archives(bytes: Seq<u8>, field: T::M, ctx: C) -> bool {
        A::archives(bytes, T::inner_of(field), ctx)
    }

    open spec fn refuses(field: T::M, ctx: C, e: SerializeError) -> bool {
        A::refuses(T::inner_of(field), ctx, e)
    }

    fn serialize_with(field: &T, serializer: &CacheableSerializer<'_, C>) -> (r: Result<
        Vec<u8>,
        SerializeError,
    >) {
        A::serialize_with(field.to_inner(), serializer)
    }
}

impl<T: AsInnerConverter<Inner = O>, O: Model, A: DeserializeWith<O, C>, C> DeserializeWith<
    T,
    C,
> for AsInner<A> {
    open spec fn restores(bytes: Seq<u8>, ctx: C) -> Result<T::M, DeserializeError> {
        match A::restores(bytes, ctx) {
            Ok(inner) => Ok(T::wrapped(inner)),
            Err(e) => Err(e),
        }
    }

    fn deserialize_with(bytes: &[u8], deserializer: &CacheableDeserializer<'_, C>) -> (r: Result<
        T,
        DeserializeError,
    >) {
        match A::deserialize_with(bytes, deserializer) {
            Ok(inner) => Ok(T::from_inner(inner)),
            Err(e) => Err(e),
        }
    }
}

impl<T: AsInnerConverter<Inner = O>, O: Model, A: CacheableWith<O, C>, C> CacheableWith<
    T,
    C,
> for AsInner<A> {
    open spec fn faithful() -> bool {
        A::faithful()
    }

    proof fn lemma_round_trip(bytes: Seq<u8>, field: T::M, ctx: C) {
        A::lemma_round_trip(bytes, T::inner_of(field), ctx);
        T::lemma_wrapped_inner(field);
    }
}

impl<T: Model> Model for Arc<T> {
    type M = T::M;

    open spec fn model(&self) -> T::M {
        (**self).model()
    }
}

impl<T: Model> AsInnerConverter for Arc<T> {
    type Inner = T;

    open spec fn inner_of(value: T::M) -> T::M {
        value
    }

    open spec fn wrapped(inner: T::M) -> T::M {
        inner
    }

    fn to_inner(&self) -> (inner: &T) {
        &**self
    }

    fn from_inner(data: T) -> (value: Self) {
        Arc::new(data)
    }

    proof fn lemma_wrapped_inner(value: T::M) {
    }
}

/// The list of no part.
pub open spec fn absent() -> Seq<Seq<u8>> {
    Seq::empty()
}

/// The list of one part.
pub open spec fn present(part: Seq<u8>) -> Seq<Seq<u8>> {
    seq![part]
}

/// Whether `bytes` is an archived form of a payload that may be absent: the
/// list of no part for an absent one, else the list of the one archived
/// payload.
pub open spec fn archives_option<A: SerializeWith<O, C>, O: Model, C>(
    bytes: Seq<u8>,
    field: Option<O::M>,
    ctx: C,
) -> bool {
    match field {
        None => bytes == list_archive(absent()) && list_restored(bytes) == read_ok(absent()),
        Some(inner) => exists|part: Seq<u8>|
            {
                &&& A::archives(part, inner, ctx)
                &&& bytes == list_archive(#[trigger] present(part))
                &&& list_restored(bytes) == read_ok(present(part))
            },
    }
}

/// What reading `bytes` as a payload that may be absent gives.
pub open spec fn restores_option<A: DeserializeWith<O, C>, O: Model, C>(
    bytes: Seq<u8>,
    ctx: C,
) -> Result<Option<O::M>, DeserializeError> {
    match list_restored(bytes) {
        Err(e) => Err(e),
        Ok(parts) => if parts.len() == 0 {
            Ok(None)
        } else if parts.len() == 1 {
            match A::restores(parts[0], ctx) {
                Ok(inner) => Ok(Some(inner)),
                Err(e) => Err(e),
            }
        } else {
            Err(DeserializeError::CheckBytesError)
        },
    }
}

/// Archives a payload that may be absent, with `A` where it is there.
pub fn serialize_option<A: SerializeWith<O, C>, O: Model, C>(
    field: Option<&O>,
    serializer: &CacheableSerializer<'_, C>,
) -> (r: Result<Vec<u8>, SerializeError>)
    ensures
        r matches Ok(bytes) ==> archives_option::<A, O, C>(
            bytes@,
            field.model(),
            serializer.ctx(),
        ),
        r matches Err(e) ==> (field matches Some(inner) && A::refuses(
            inner.model(),
            serializer.ctx(),
            e,
        )),
        field is None ==> r is Ok,
{
    let mut parts: Vec<Vec<u8>> = Vec::new();
    match field {
        None => {
            assert(runs(parts@) =~= absent());
        },
        Some(inner) => {
            let part = match A::serialize_with(inner, serializer) {
                Ok(part) => part,
                Err(e) => { return Err(e); },
            };
            parts.push(part);
            assert(runs(parts@) =~= present(part@));
        },
    }
    archive_list(&parts)
}

/// Reads a payload that may be absent, with `A` where it is there.
pub fn deserialize_option<A: DeserializeWith<O, C>, O: Model, C>(
    bytes: &[u8],
    deserializer: &CacheableDeserializer<'_, C>,
) -> (r: Result<Option<O>, DeserializeError>)
    ensures
        r matches Ok(field) ==> restores_option::<A, O, C>(bytes@, deserializer.ctx()) == read_ok(
            field.model(),
        ),
        r matches Err(e) ==> restores_option::<A, O, C>(bytes@, deserializer.ctx()) == read_err::<
            Option<O::M>,
        >(e),
{
    let parts = match restore_list(bytes) {
        Ok(parts) => parts,
        Err(e) => { return Err(e); },
    };
    if parts.len() == 0 {
        Ok(None)
    } else if parts.len() == 1 {
        match A::deserialize_with(parts[0].as_slice(), deserializer) {
            Ok(inner) => Ok(Some(inner)),
            Err(e) => Err(e),
        }
    } else {
        Err(DeserializeError::CheckBytesError)
    }
}

/// A payload that may be absent comes back from its archived form.
pub proof fn lemma_option_round_trip<A: CacheableWith<O, C>, O: Model, C>(
    bytes: Seq<u8>,
    field: Option<O::M>,
    ctx: C,
)
    requires
        A::faithful(),
        archives_option::<A, O, C>(bytes, field, ctx),
    ensures
        restores_option::<A, O, C>(bytes, ctx) == read_ok(field),
{
    match field {
        None => {},
        Some(inner) => {
            let part = choose|part: Seq<u8>|
                {
                    &&& A::archives(part, inner, ctx)
                    &&& bytes == list_archive(#[trigger] present(part))
                    &&& list_restored(bytes) == read_ok(present(part))
                };
            A::lemma_round_trip(part, inner, ctx);
        },
    }
}

/// `OnceCell::new`: a cell that is not set.
#[verifier::external_body]
fn cell_new() -> (cell: OnceCell<usize>)
    ensures
        cell_value(cell) == None::<usize>,
{
    OnceCell::new()
}

/// `OnceCell::with_value`: a cell that is set to `value`.
#[verifier::external_body]
fn cell_with_value(value: usize) -> (cell: OnceCell<usize>)
    ensures
        cell_value(cell) == Some(value),
{
    OnceCell::with_value(value)
}

/// `OnceCell::get`: what the cell holds. The cell is taken not to be set
/// by another thread while it is being archived.
#[verifier::external_body]
fn cell_get(cell: &OnceCell<usize>) -> (value: Option<&usize>)
    ensures
        value.model() == cell_value(*cell),
{
    cell.get()
}

impl Model for OnceCell<usize> {
    type M = Option<usize>;

    open spec fn model(&self) -> Option<usize> {
        cell_value(*self)
    }
}

impl<A: SerializeWith<usize, C>, C> SerializeWith<OnceCell<usize>, C> for AsInner<A> {
    open spec fn archives(bytes: Seq<u8>, field: Option<usize>, ctx: C) -> bool {
        archives_option::<A, usize, C>(bytes, field, ctx)
    }

    open spec fn refuses(field: Option<usize>, ctx: C, e: SerializeError) -> bool {
        field matches Some(inner) && A::refuses(inner, ctx, e)
    }

    fn serialize_with(field: &OnceCell<usize>, serializer: &CacheableSerializer<'_, C>) -> (r:
        Result<Vec<u8>, SerializeError>) {
        serialize_option::<A, usize, C>(cell_get(field), serializer)
    }
}

impl<A: DeserializeWith<usize, C>, C> DeserializeWith<OnceCell<usize>, C> for AsInner<A> {
    open spec fn restores(bytes: Seq<u8>, ctx: C) -> Result<Option<usize>, DeserializeError> {
        restores_option::<A, usize, C>(bytes, ctx)
    }

    fn deserialize_with(bytes: &[u8], deserializer: &CacheableDeserializer<'_, C>) -> (r: Result<
        OnceCell<usize>,
        DeserializeError,
    >) {
        match deserialize_option::<A, usize, C>(bytes, deserializer) {
            Ok(Some(value)) => Ok(cell_with_value(value)),
            Ok(None) => Ok(cell_new()),
            Err(e) => Err(e),
        }
    }
}

impl<A: CacheableWith<usize, C>, C> CacheableWith<OnceCell<usize>, C> for AsInner<A> {
    open spec fn faithful() -> bool {
        A::faithful()
    }

    proof fn lemma_round_trip(bytes: Seq<u8>, field: Option<usize>, ctx: C) {
        lemma_option_round_trip::<A, usize, C>(bytes, field, ctx);
    }
}

} // verus!
