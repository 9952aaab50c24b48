//! The archive writer: a growable byte buffer that knows its position, the
//! tracker of shared values of one serialize pass, and the pass's context.

use core::convert::Infallible;
use rkyv::ser::serializers::AlignedSerializer;
use rkyv::ser::serializers::AllocScratchError;
use rkyv::ser::serializers::SharedSerializeMap;
use rkyv::ser::serializers::SharedSerializeMapError;
use rkyv::ser::Serializer;
use rkyv::ser::SharedSerializeRegistry;
use rkyv::AlignedVec;
use crate::model::Model;
use vstd::prelude::*;

verus! {

#[verifier::external_type_specification]
#[verifier::external_body]
pub struct ExAlignedVec(AlignedVec);

#[verifier::external_type_specification]
#[verifier::external_body]
#[verifier::reject_recursive_types(A)]
pub struct ExAlignedSerializer<A>(AlignedSerializer<A>);

#[verifier::external_type_specification]
#[verifier::external_body]
pub struct ExSharedSerializeMap(SharedSerializeMap);

#[verifier::external_type_specification]
#[verifier::external_body]
pub struct ExAllocScratchError(AllocScratchError);

#[verifier::external_type_specification]
#[verifier::external_body]
pub struct ExSharedSerializeMapError(SharedSerializeMapError);

/// The bytes that an `AlignedSerializer` has taken so far, first written first.
pub uninterp spec fn written_bytes(serializer: AlignedSerializer<AlignedVec>) -> Seq<u8>;

/// The positions that a `SharedSerializeMap` holds, by the address of the
/// shared value.
pub uninterp spec fn shared_positions(shared: SharedSerializeMap) -> Map<usize, usize>;

/// The tracker's contents at the start of a pass: no position at all.
pub open spec fn no_positions() -> Map<usize, usize> {
    Map::empty()
}

/// `n` zero bytes.
pub open spec fn zeroes(n: int) -> Seq<u8> {
    Seq::new(n as nat, |i: int| 0u8)
}

/// Whether `align` is a power of two.
pub open spec fn is_power_of_two(align: usize) -> bool {
    align > 0 && align & ((align - 1) as usize) == 0
}

/// The number of padding bytes that bring position `pos` up to the next
/// multiple of `align`.
pub open spec fn padding_for(pos: int, align: int) -> int
    recommends
        align > 0,
{
    (align - pos % align) % align
}

/// The largest stretch of padding that one call may ask for.
pub const MAX_PADDING: usize = 32;

#[derive(Debug)]
pub enum SerializeError {
    /// An error occurred while serializing
    SerializerError(Infallible),
    /// An error occurred while using scratch space
    ScratchSpaceError(AllocScratchError),
    /// An error occurred while serializing shared memory
    SharedError(SharedSerializeMapError),
    /// A serialize failed occurred
    SerializeFailed(&'static str),
}

/// The outcome of a conversion that gave `value`.
pub open spec fn write_ok<T>(value: T) -> Result<T, SerializeError> {
    Ok(value)
}

/// The outcome of a conversion that failed with `error`.
pub open spec fn write_err<T>(error: SerializeError) -> Result<T, SerializeError> {
    Err(error)
}

/// `AlignedSerializer::default`: a serializer over an empty `AlignedVec`.
#[verifier::external_body]
fn writer_new() -> (serializer: AlignedSerializer<AlignedVec>)
    ensures
        written_bytes(serializer) == Seq::<u8>::empty(),
{
    AlignedSerializer::default()
}

/// `Serializer::pos` of `AlignedSerializer`: the length of the buffer.
#[verifier::external_body]
fn writer_pos(serializer: &AlignedSerializer<AlignedVec>) -> (pos: usize)
    ensures
        pos == written_bytes(*serializer).len(),
{
    serializer.pos()
}

/// `Serializer::write` of `AlignedSerializer`: appends `bytes` to the buffer
/// and never fails.
#[verifier::external_body]
fn writer_write(serializer: &mut AlignedSerializer<AlignedVec>, bytes: &[u8]) -> (r: Result<
    (),
    Infallible,
>)
    ensures
        r is Ok,
        written_bytes(*final(serializer)) == written_bytes(*old(serializer)) + bytes@,
{
    serializer.write(bytes)
}

/// `Serializer::pad` of `AlignedSerializer`: appends `padding` zero bytes,
/// which it takes from a table of `MAX_PADDING` zeroes.
#[verifier::external_body]
fn writer_pad(serializer: &mut AlignedSerializer<AlignedVec>, padding: usize) -> (r: Result<
    (),
    Infallible,
>)
    requires
        padding < MAX_PADDING,
    ensures
        r is Ok,
        written_bytes(*final(serializer)) == written_bytes(*old(serializer)) + zeroes(
            padding as int,
        ),
{
    serializer.pad(padding)
}

/// `Serializer::align` of `AlignedSerializer`: pads up to the next multiple
/// of `align`, a power of two, and returns the position reached.
#[verifier::external_body]
fn writer_align(serializer: &mut AlignedSerializer<AlignedVec>, align: usize) -> (r: Result<
    usize,
    Infallible,
>)
    requires
        is_power_of_two(align),
        padding_for(written_bytes(*old(serializer)).len() as int, align as int) < MAX_PADDING,
    ensures
        written_bytes(*final(serializer)) == written_bytes(*old(serializer)) + zeroes(
            padding_for(written_bytes(*old(serializer)).len() as int, align as int),
        ),
        r matches Ok(pos) && pos == written_bytes(*final(serializer)).len(),
{
    serializer.align(align)
}

/// `AlignedSerializer::into_inner`, and the buffer copied into a `Vec`.
#[verifier::external_body]
fn writer_into_bytes(serializer: AlignedSerializer<AlignedVec>) -> (bytes: Vec<u8>)
    ensures
        bytes@ == written_bytes(serializer),
{
    serializer.into_inner().to_vec()
}

/// `SharedSerializeMap::default`: a map that holds no position.
#[verifier::external_body]
fn shared_new() -> (map: SharedSerializeMap)
    ensures
        shared_positions(map) == no_positions(),
{
    SharedSerializeMap::default()
}

/// `SharedSerializeRegistry::get_shared_ptr` of `SharedSerializeMap`: the
/// position held for the address, if there is one.
#[verifier::external_body]
fn shared_get(shared: &SharedSerializeMap, identity: usize) -> (pos: Option<usize>)
    ensures
        pos == (if shared_positions(*shared).dom().contains(identity) {
            Some(shared_positions(*shared)[identity])
        } else {
            None
        }),
{
    shared.get_shared_ptr(core::ptr::without_provenance(identity))
}

/// `SharedSerializeRegistry::add_shared_ptr` of `SharedSerializeMap`: holds
/// `pos` for the address from now on, unless the address has a position, in
/// which case the map stays as it is and the call fails.
#[verifier::external_body]
fn shared_add(shared: &mut SharedSerializeMap, identity: usize, pos: usize) -> (r: Result<
    (),
    SharedSerializeMapError,
>)
    ensures
        r is Ok <==> !shared_positions(*old(shared)).dom().contains(identity),
        r is Ok ==> shared_positions(*final(shared)) == shared_positions(*old(shared)).insert(
            identity,
            pos,
        ),
        r is Err ==> shared_positions(*final(shared)) == shared_positions(*old(shared)),
{
    shared.add_shared_ptr(core::ptr::without_provenance(identity), pos)
}

/// The writer of one serialize pass.
pub struct CacheableSerializer<'a, C> {
    serializer: AlignedSerializer<AlignedVec>,
    shared: SharedSerializeMap,
    context: &'a C,
}

impl<'a, C> CacheableSerializer<'a, C> {
    /// The bytes written so far.
    pub closed spec fn bytes(&self) -> Seq<u8> {
        written_bytes(self.serializer)
    }

    /// The position at which each shared value was written, by identity.
    pub closed spec fn shared(&self) -> Map<usize, usize> {
        shared_positions(self.shared)
    }

    /// The context of the pass.
    pub closed spec fn ctx(&self) -> C {
        *self.context
    }

    pub fn new(context: &'a C) -> (serializer: Self)
        ensures
            serializer.bytes() == Seq::<u8>::empty(),
            serializer.shared() == Map::<usize, usize>::empty(),
            serializer.ctx() == *context,
    {
        Self { serializer: writer_new(), shared: shared_new(), context }
    }

    pub fn context(&self) -> (context: &'a C)
        ensures
            *context == self.ctx(),
    {
        self.context
    }

    /// The current position: the number of bytes written so far.
    pub fn pos(&self) -> (pos: usize)
        ensures
            pos == self.bytes().len(),
    {
        writer_pos(&self.serializer)
    }

    /// Appends `bytes`.
    pub fn write(&mut self, bytes: &[u8]) -> (r: Result<(), SerializeError>)
        ensures
            r is Ok,
            final(self).bytes() == old(self).bytes() + bytes@,
            final(self).shared() == old(self).shared(),
            final(self).ctx() == old(self).ctx(),
    {
        match writer_write(&mut self.serializer, bytes) {
            Ok(()) => Ok(()),
            Err(e) => Err(SerializeError::SerializerError(e)),
        }
    }

    /// Appends `padding` zero bytes.
    pub fn pad(&mut self, padding: usize) -> (r: Result<(), SerializeError>)
        requires
            padding < MAX_PADDING,
        ensures
            r is Ok,
            final(self).bytes() == old(self).bytes() + zeroes(padding as int),
            final(self).shared() == old(self).shared(),
            final(self).ctx() == old(self).ctx(),
    {
        match writer_pad(&mut self.serializer, padding) {
            Ok(()) => Ok(()),
            Err(e) => Err(SerializeError::SerializerError(e)),
        }
    }

    /// Pads with zero bytes up to the next multiple of `align` and returns
    /// the position reached.
    pub fn align(&mut self, align: usize) -> (r: Result<usize, SerializeError>)
        requires
            is_power_of_two(align),
            padding_for(old(self).bytes().len() as int, align as int) < MAX_PADDING,
        ensures
            r matches Ok(pos) && pos == final(self).bytes().len() && pos as int % align as int
                == 0,
            final(self).bytes() == old(self).bytes() + zeroes(
                padding_for(old(self).bytes().len() as int, align as int),
            ),
            final(self).shared() == old(self).shared(),
            final(self).ctx() == old(self).ctx(),
    {
        proof {
            lemma_padding_aligns(self.bytes().len() as int, align as int);
        }
        match writer_align(&mut self.serializer, align) {
            Ok(pos) => Ok(pos),
            Err(e) => Err(SerializeError::SerializerError(e)),
        }
    }

    /// Pads with zero bytes up to the next position at which a `T` may
    /// stand and returns the position reached.
    pub fn align_for<T>(&mut self) -> (r: Result<usize, SerializeError>)
        requires
            vstd::layout::align_of::<T>() <= usize::MAX,
            is_power_of_two(vstd::layout::align_of::<T>() as usize),
            padding_for(old(self).bytes().len() as int, vstd::layout::align_of::<T>() as int)
                < MAX_PADDING,
        ensures
            r matches Ok(pos) && pos == final(self).bytes().len() && pos as int
                % vstd::layout::align_of::<T>() as int == 0,
            final(self).bytes() == old(self).bytes() + zeroes(
                padding_for(old(self).bytes().len() as int, vstd::layout::align_of::<T>() as int),
            ),
            final(self).shared() == old(self).shared(),
            final(self).ctx() == old(self).ctx(),
    {
        self.align(core::mem::align_of::<T>())
    }

    /// The position at which the shared value `identity` was written, if it
    /// was.
    pub fn get_shared_ptr(&self, identity: usize) -> (pos: Option<usize>)
        ensures
            pos == (if self.shared().dom().contains(identity) {
                Some(self.shared()[identity])
            } else {
                None
            }),
    {
        shared_get(&self.shared, identity)
    }

    /// Records that the shared value `identity` was written at `pos`. A
    /// second registration of one identity is refused and changes nothing.
    pub fn add_shared_ptr(&mut self, identity: usize, pos: usize) -> (r: Result<
        (),
        SerializeError,
    >)
        ensures
            r is Ok <==> !old(self).shared().dom().contains(identity),
            r is Ok ==> final(self).shared() == old(self).shared().insert(identity, pos),
            r matches Err(e) ==> e is SharedError && final(self).shared() == old(self).shared(),
            final(self).bytes() == old(self).bytes(),
            final(self).ctx() == old(self).ctx(),
    {
        match shared_add(&mut self.shared, identity, pos) {
            Ok(()) => Ok(()),
            Err(e) => Err(SerializeError::SharedError(e)),
        }
    }

    /// Archives `value` and appends the archive at the next position that
    /// is a multiple of `ARCHIVE_ALIGNMENT`. Returns that position. Where
    /// the value cannot be archived nothing is written.
    pub fn serialize_value<T: Serialize<C>>(&mut self, value: &T) -> (r: Result<
        usize,
        SerializeError,
    >)
        ensures
            r matches Ok(pos) ==> {
                &&& pos == old(self).bytes().len() + padding_for(
                    old(self).bytes().len() as int,
                    ARCHIVE_ALIGNMENT as int,
                )
                &&& pos <= final(self).bytes().len()
                &&& final(self).bytes().subrange(0, pos as int) == old(self).bytes() + zeroes(
                    padding_for(old(self).bytes().len() as int, ARCHIVE_ALIGNMENT as int),
                )
                &&& T::archives(
                    final(self).bytes().subrange(pos as int, final(self).bytes().len() as int),
                    value.model(),
                    old(self).ctx(),
                )
            },
            r matches Err(e) ==> {
                &&& final(self).bytes() == old(self).bytes()
                &&& T::refuses(value.model(), old(self).ctx(), e)
            },
            final(self).shared() == old(self).shared(),
            final(self).ctx() == old(self).ctx(),
    {
        let archive = match value.serialize(&*self) {
            Ok(archive) => archive,
            Err(e) => { return Err(e); },
        };
        assert(16usize & 15usize == 0) by (bit_vector);
        proof {
            lemma_padding_aligns(self.bytes().len() as int, ARCHIVE_ALIGNMENT as int);
        }
        let pos = match self.align(ARCHIVE_ALIGNMENT) {
            Ok(pos) => pos,
            Err(e) => { return Err(e); },
        };
        let ghost padded = self.bytes();
        match self.write(archive.as_slice()) {
            Ok(()) => {},
            Err(e) => { return Err(e); },
        }
        proof {
            assert(self.bytes().subrange(0, pos as int) =~= padded);
            assert(self.bytes().subrange(pos as int, self.bytes().len() as int) =~= archive@);
        }
        Ok(pos)
    }

    /// Archives the shared value `identity` unless the pass has archived it
    /// before, and returns its position. A value that several places refer
    /// to is thus archived once, and every place is given the one position.
    pub fn serialize_shared<T: Serialize<C>>(&mut self, identity: usize, value: &T) -> (r: Result<
        usize,
        SerializeError,
    >)
        ensures
            old(self).shared().dom().contains(identity) ==> {
                &&& r == Ok::<usize, SerializeError>(old(self).shared()[identity])
                &&& final(self).bytes() == old(self).bytes()
                &&& final(self).shared() == old(self).shared()
            },
            !old(self).shared().dom().contains(identity) ==> {
                &&& r matches Ok(pos) ==> {
                    &&& pos == old(self).bytes().len() + padding_for(
                        old(self).bytes().len() as int,
                        ARCHIVE_ALIGNMENT as int,
                    )
                    &&& pos <= final(self).bytes().len()
                    &&& final(self).bytes().subrange(0, pos as int) == old(self).bytes() + zeroes(
                        padding_for(old(self).bytes().len() as int, ARCHIVE_ALIGNMENT as int),
                    )
                    &&& T::archives(
                        final(self).bytes().subrange(pos as int, final(self).bytes().len() as int),
                        value.model(),
                        old(self).ctx(),
                    )
                    &&& final(self).shared() == old(self).shared().insert(identity, pos)
                }
                &&& r matches Err(e) ==> {
                    &&& final(self).bytes() == old(self).bytes()
                    &&& final(self).shared() == old(self).shared()
                    &&& T::refuses(value.model(), old(self).ctx(), e)
                }
            },
            final(self).ctx() == old(self).ctx(),
    {
        if let Some(pos) = self.get_shared_ptr(identity) {
            return Ok(pos);
        }
        let pos = match self.serialize_value(value) {
            Ok(pos) => pos,
            Err(e) => { return Err(e); },
        };
        match self.add_shared_ptr(identity, pos) {
            Ok(()) => Ok(pos),
            Err(e) => Err(e),
        }
    }

    /// Ends the pass and hands out what was written.
    pub fn into_bytes(self) -> (bytes: Vec<u8>)
        ensures
            bytes@ == self.bytes(),
    {
        writer_into_bytes(self.serializer)
    }
}

/// The alignment at which a pass places each archive in its buffer.
pub const ARCHIVE_ALIGNMENT: usize = 16;

/// A value that has an archived form.
pub trait Serialize<C>: Model {
    /// Whether `bytes` is an archived form of `value` under context `ctx`.
    spec fn archives(bytes: Seq<u8>, value: Self::M, ctx: C) -> bool;

    /// Whether `value` is refused with error `e`: it has a part that
    /// cannot be archived, and `e` is the error of that part.
    spec fn refuses(value: Self::M, ctx: C, e: SerializeError) -> bool;

    /// Archives the value. It fails only where the value is refused, and
    /// then with an error with which it is refused.
    fn serialize(&self, serializer: &CacheableSerializer<'_, C>) -> (r: Result<
        Vec<u8>,
        SerializeError,
    >)
        ensures
            r matches Ok(bytes) ==> Self::archives(bytes@, self.model(), serializer.ctx()),
            r matches Err(e) ==> Self::refuses(self.model(), serializer.ctx(), e),
    ;
}

/// Archives `data` under context `ctx` in a pass of its own.
pub fn to_bytes<T: Serialize<C>, C>(data: &T, ctx: &C) -> (r: Result<Vec<u8>, SerializeError>)
    ensures
        r matches Ok(bytes) ==> T::archives(bytes@, data.model(), *ctx),
        r matches Err(e) ==> T::refuses(data.model(), *ctx, e),
{
    let mut serializer = CacheableSerializer::new(ctx);
    assert(padding_for(0, ARCHIVE_ALIGNMENT as int) == 0) by {
        assert(0int % 16 == 0);
        assert(16int % 16 == 0);
    }
    match serializer.serialize_value(data) {
        Ok(_) => {},
        Err(e) => { return Err(e); },
    }
    proof {
        assert(zeroes(0) =~= Seq::<u8>::empty());
        assert(serializer.bytes().subrange(0, serializer.bytes().len() as int)
            =~= serializer.bytes());
    }
    Ok(serializer.into_bytes())
}

/// Padding as `padding_for` counts it brings a position up to a multiple of
/// the alignment, with fewer bytes than the alignment.
pub proof fn lemma_padding_aligns(pos: int, align: int)
    requires
        0 <= pos,
        0 < align,
    ensures
        0 <= padding_for(pos, align) < align,
        (pos + padding_for(pos, align)) % align == 0,
{
    let r = pos % align;
    if r == 0 {
        assert((align - r) % align == 0) by (nonlinear_arith)
            requires
                r == 0,
                align > 0,
        ;
    } else {
        assert(0 < align - r < align);
        assert((align - r) % align == align - r) by (nonlinear_arith)
            requires
                0 < align - r < align,
        ;
        assert((pos + (align - r)) % align == 0) by (nonlinear_arith)
            requires
                r == pos % align,
                0 < align,
                0 <= pos,
        ;
    }
}

} // verus!
