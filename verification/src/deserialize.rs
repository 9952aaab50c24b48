//! The archive reader: the tracker of the shared values that one deserialize
//! pass has rebuilt, and the pass's context.

use crate::model::Model;
use rkyv::de::deserializers::SharedDeserializeMap;
use rkyv::de::deserializers::SharedDeserializeMapError;
use rkyv::de::SharedDeserializeRegistry;
use rkyv::de::SharedPointer;
use std::sync::Arc;
use vstd::prelude::*;
use vstd::string::StringExecFns;

verus! {

#[verifier::external_type_specification]
#[verifier::external_body]
pub struct ExSharedDeserializeMap(SharedDeserializeMap);

#[verifier::external_type_specification]
#[verifier::external_body]
pub struct ExSharedDeserializeMapError(SharedDeserializeMapError);

/// The values that a `SharedDeserializeMap` holds: for each address of a
/// shared value in the archive, the data address of the value rebuilt for
/// it.
pub uninterp spec fn rebuilt_values(shared: SharedDeserializeMap) -> Map<usize, usize>;

/// The reader's tracker at the start of a pass: nothing rebuilt yet.
pub open spec fn no_values() -> Map<usize, usize> {
    Map::empty()
}

#[derive(Debug)]
pub enum DeserializeError {
    /// A validation error occurred
    CheckBytesError,
    /// A shared pointer was added multiple times
    DuplicateSharedPointer,
    /// A polymorphic value names a concrete type that is not registered
    UnknownPolymorphicType,
    /// A deserialize failed occurred
    DeserializeFailed(&'static str),
}

impl DeserializeError {
    /// The text that describes the error.
    pub open spec fn message(self) -> Seq<char> {
        match self {
            DeserializeError::CheckBytesError => "CheckBytesError"@,
            DeserializeError::DuplicateSharedPointer => "DuplicateSharedPointer"@,
            DeserializeError::UnknownPolymorphicType => "UnknownPolymorphicType"@,
            DeserializeError::DeserializeFailed(s) => "DeserializeFailed "@ + s@,
        }
    }

    pub fn to_string(&self) -> (text: String)
        ensures
            text@ == self.message(),
    {
        match self {
            DeserializeError::CheckBytesError => String::from_str("CheckBytesError"),
            DeserializeError::DuplicateSharedPointer => String::from_str("DuplicateSharedPointer"),
            DeserializeError::UnknownPolymorphicType => String::from_str("UnknownPolymorphicType"),
            DeserializeError::DeserializeFailed(s) => String::from_str("DeserializeFailed ").concat(
                s,
            ),
        }
    }
}

/// The outcome of a read that gave `value`.
pub open spec fn read_ok<T>(value: T) -> Result<T, DeserializeError> {
    Ok(value)
}

/// The outcome of a read that failed with `error`.
pub open spec fn read_err<T>(error: DeserializeError) -> Result<T, DeserializeError> {
    Err(error)
}

/// `SharedDeserializeMap::default`: a map that holds no value.
#[verifier::external_body]
fn rebuilt_new() -> (map: SharedDeserializeMap)
    ensures
        rebuilt_values(map) == no_values(),
{
    SharedDeserializeMap::default()
}

/// `SharedDeserializeRegistry::get_shared_ptr` of `SharedDeserializeMap`:
/// the value held for the address, if there is one, of which the wrapper
/// hands on the data address. The map stays as it is.
#[verifier::external_body]
fn rebuilt_get(shared: &mut SharedDeserializeMap, identity: usize) -> (address: Option<usize>)
    ensures
        address == (if rebuilt_values(*old(shared)).dom().contains(identity) {
            Some(rebuilt_values(*old(shared))[identity])
        } else {
            None
        }),
        rebuilt_values(*final(shared)) == rebuilt_values(*old(shared)),
{
    match shared.get_shared_ptr(core::ptr::without_provenance(identity)) {
        Some(p) => Some(p.data_address().addr()),
        None => None,
    }
}

/// `SharedDeserializeRegistry::add_shared_ptr` of `SharedDeserializeMap`:
/// holds `value` for the address from now on, unless the address has a
/// value, in which case the map stays as it is and the call fails. Where
/// the value is taken, the wrapper hands on its data address, which is
/// `Arc::as_ptr` of it.
#[verifier::external_body]
fn rebuilt_add<T: 'static>(shared: &mut SharedDeserializeMap, identity: usize, value: Arc<T>) -> (r:
    Result<usize, SharedDeserializeMapError>)
    ensures
        r is Ok <==> !rebuilt_values(*old(shared)).dom().contains(identity),
        r matches Ok(address) ==> rebuilt_values(*final(shared)) == rebuilt_values(
            *old(shared),
        ).insert(identity, address),
        r is Err ==> rebuilt_values(*final(shared)) == rebuilt_values(*old(shared)),
{
    let address = Arc::as_ptr(&value).addr();
    match shared.add_shared_ptr(core::ptr::without_provenance(identity), Box::new(value)) {
        Ok(()) => Ok(address),
        Err(e) => Err(e),
    }
}

/// The reader of one deserialize pass.
pub struct CacheableDeserializer<'a, C> {
    shared: SharedDeserializeMap,
    context: &'a C,
}

impl<'a, C> CacheableDeserializer<'a, C> {
    /// The shared values that have been rebuilt: for each identity, the
    /// address of the value that stands for it.
    pub closed spec fn shared(&self) -> Map<usize, usize> {
        rebuilt_values(self.shared)
    }

    /// The context of the pass.
    pub closed spec fn ctx(&self) -> C {
        *self.context
    }

    pub fn new(context: &'a C) -> (deserializer: Self)
        ensures
            deserializer.shared() == no_values(),
            deserializer.ctx() == *context,
    {
        Self { shared: rebuilt_new(), context }
    }

    pub fn context(&self) -> (context: &'a C)
        ensures
            *context == self.ctx(),
    {
        self.context
    }

    /// The address of the value rebuilt for the shared value `identity`, if
    /// one was. Every place that refers to the identity is given this one
    /// value.
    pub fn get_shared_ptr(&mut self, identity: usize) -> (address: Option<usize>)
        ensures
            address == (if old(self).shared().dom().contains(identity) {
                Some(old(self).shared()[identity])
            } else {
                None
            }),
            final(self).shared() == old(self).shared(),
            final(self).ctx() == old(self).ctx(),
    {
        rebuilt_get(&mut self.shared, identity)
    }

    /// Records the value rebuilt for the shared value `identity`. A second
    /// registration of one identity is refused and changes nothing: the
    /// value registered first stays.
    pub fn add_shared_ptr<T: 'static>(&mut self, identity: usize, shared: Arc<T>) -> (r: Result<
        (),
        DeserializeError,
    >)
        ensures
            r is Ok <==> !old(self).shared().dom().contains(identity),
            r is Ok ==> final(self).shared().dom().contains(identity),
            r is Ok ==> final(self).shared().remove(identity) == old(self).shared(),
            r matches Err(e) ==> e is DuplicateSharedPointer && final(self).shared() == old(
                self,
            ).shared(),
            final(self).ctx() == old(self).ctx(),
    {
        match rebuilt_add(&mut self.shared, identity, shared) {
            Ok(_) => {
                assert(self.shared().remove(identity) =~= old(self).shared());
                Ok(())
            },
            Err(_) => Err(DeserializeError::DuplicateSharedPointer),
        }
    }
}

/// A value that can be rebuilt from its archived form.
pub trait Deserialize<C>: Model + Sized {
    /// What reading `bytes` under context `ctx` gives: the value that they
    /// stand for, or the error with which they are rejected.
    spec fn restores(bytes: Seq<u8>, ctx: C) -> Result<Self::M, DeserializeError>;

    /// Checks `bytes` and rebuilds the value from them.
    fn deserialize(bytes: &[u8], deserializer: &CacheableDeserializer<'_, C>) -> (r: Result<
        Self,
        DeserializeError,
    >)
        ensures
            r matches Ok(value) ==> Self::restores(bytes@, deserializer.ctx()) == read_ok(
                value.model(),
            ),
            r matches Err(e) ==> Self::restores(bytes@, deserializer.ctx()) == read_err::<Self::M>(
                e,
            ),
    ;
}

/// The value that `entries` holds for `identity`, if it holds one: the one
/// that was entered last.
pub open spec fn value_for<T>(entries: Seq<(usize, Arc<T>)>, identity: usize) -> Option<Arc<T>>
    decreases entries.len(),
{
    if entries.len() == 0 {
        None
    } else if entries.last().0 == identity {
        Some(entries.last().1)
    } else {
        value_for(entries.drop_last(), identity)
    }
}

/// The shared values of one type that a pass has rebuilt, each beside the
/// identity that it stands for.
pub struct SharedValues<T> {
    entries: Vec<(usize, Arc<T>)>,
}

impl<T> SharedValues<T> {
    /// The rebuilt values, in the order in which they were rebuilt.
    pub closed spec fn entries(&self) -> Seq<(usize, Arc<T>)> {
        self.entries@
    }

    /// The value rebuilt for `identity`, if one was.
    pub open spec fn held(&self, identity: usize) -> Option<Arc<T>> {
        value_for(self.entries(), identity)
    }

    pub fn new() -> (rebuilt: Self)
        ensures
            rebuilt.entries() == Seq::<(usize, Arc<T>)>::empty(),
    {
        Self { entries: Vec::new() }
    }

    pub fn len(&self) -> (len: usize)
        ensures
            len == self.entries().len(),
    {
        self.entries.len()
    }

    /// Another reference to the value rebuilt for `identity`, if one was.
    pub fn get(&self, identity: usize) -> (value: Option<Arc<T>>)
        ensures
            value == self.held(identity),
    {
        let mut i: usize = self.entries.len();
        assert(self.entries@.subrange(0, i as int) =~= self.entries@);
        while i > 0
            invariant
                i <= self.entries@.len(),
                value_for(self.entries@, identity) == value_for(
                    self.entries@.subrange(0, i as int),
                    identity,
                ),
            decreases i,
        {
            let ghost upto = self.entries@.subrange(0, i as int);
            i = i - 1;
            assert(upto.drop_last() =~= self.entries@.subrange(0, i as int));
            assert(upto.last() == self.entries@[i as int]);
            if self.entries[i].0 == identity {
                return Some(another(&self.entries[i].1));
            }
        }
        assert(self.entries@.subrange(0, 0).len() == 0);
        None
    }
}

/// `Arc::clone`: another reference to the one value.
#[verifier::external_body]
fn another<T>(value: &Arc<T>) -> (other: Arc<T>)
    ensures
        other == *value,
{
    Arc::clone(value)
}

impl<'a, C> CacheableDeserializer<'a, C> {
    /// Rebuilds the shared value `identity` from `bytes` unless the pass
    /// has rebuilt it before. Every place that refers to one identity is
    /// given a reference to the one value: a second call for it reads no
    /// byte and builds nothing.
    pub fn deserialize_shared<T: Deserialize<C> + 'static>(
        &mut self,
        rebuilt: &mut SharedValues<T>,
        identity: usize,
        bytes: &[u8],
    ) -> (r: Result<Arc<T>, DeserializeError>)
        ensures
            final(self).ctx() == old(self).ctx(),
            old(rebuilt).held(identity) matches Some(value) ==> {
                &&& r == read_ok(value)
                &&& final(rebuilt).entries() == old(rebuilt).entries()
                &&& final(self).shared() == old(self).shared()
            },
            old(rebuilt).held(identity) is None ==> match T::restores(bytes@, old(self).ctx()) {
                Err(e) => {
                    &&& r == read_err::<Arc<T>>(e)
                    &&& final(rebuilt).entries() == old(rebuilt).entries()
                    &&& final(self).shared() == old(self).shared()
                },
                Ok(model) => if old(self).shared().dom().contains(identity) {
                    &&& r == read_err::<Arc<T>>(DeserializeError::DuplicateSharedPointer)
                    &&& final(rebuilt).entries() == old(rebuilt).entries()
                    &&& final(self).shared() == old(self).shared()
                } else {
                    &&& r matches Ok(value)
                    &&& value.model() == model
                    &&& final(rebuilt).entries() == old(rebuilt).entries().push((identity, value))
                    &&& final(rebuilt).held(identity) == Some(value)
                    &&& final(self).shared().dom().contains(identity)
                    &&& final(self).shared().remove(identity) == old(self).shared()
                },
            },
    {
        if let Some(value) = rebuilt.get(identity) {
            return Ok(value);
        }
        let value = match T::deserialize(bytes, &*self) {
            Ok(value) => Arc::new(value),
            Err(e) => { return Err(e); },
        };
        match self.add_shared_ptr(identity, another(&value)) {
            Ok(()) => {
                rebuilt.entries.push((identity, another(&value)));
                Ok(value)
            },
            Err(e) => Err(e),
        }
    }
}

/// Checks `bytes` and rebuilds a value from them under context `context`,
/// in a pass of its own.
pub fn from_bytes<T: Deserialize<C>, C>(bytes: &[u8], context: &C) -> (r: Result<
    T,
    DeserializeError,
>)
    ensures
        r matches Ok(value) ==> T::restores(bytes@, *context) == read_ok(value.model()),
        r matches Err(e) ==> T::restores(bytes@, *context) == read_err::<T::M>(e),
{
    let deserializer = CacheableDeserializer::new(context);
    T::deserialize(bytes, &deserializer)
}

} // verus!
