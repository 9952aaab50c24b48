//! The archived forms of numbers and truth values: their bytes, least
//! significant first.

use crate::cacheable::Cacheable;
use crate::deserialize::CacheableDeserializer;
use crate::deserialize::Deserialize;
use crate::deserialize::DeserializeError;
use crate::serialize::CacheableSerializer;
use crate::serialize::Serialize;
use crate::serialize::SerializeError;
use vstd::bytes::lemma_auto_spec_u32_to_from_le_bytes;
use vstd::bytes::lemma_auto_spec_u64_to_from_le_bytes;
use vstd::bytes::spec_u32_from_le_bytes;
use vstd::bytes::spec_u32_to_le_bytes;
use vstd::bytes::spec_u64_from_le_bytes;
use vstd::bytes::spec_u64_to_le_bytes;
use vstd::bytes::u32_from_le_bytes;
use vstd::bytes::u32_to_le_bytes;
use vstd::bytes::u64_from_le_bytes;
use vstd::bytes::u64_to_le_bytes;
use vstd::prelude::*;

verus! {

/// The number of bytes in the archived form of a `u64`.
pub const U64_SIZE: usize = 8;

/// The number of bytes in the archived form of a `u32`.
pub const U32_SIZE: usize = 4;

impl<C> Serialize<C> for u64 {
    open spec fn archives(bytes: Seq<u8>, value: u64, ctx: C) -> bool {
        bytes == spec_u64_to_le_bytes(value)
    }

    open spec fn refuses(value: u64, ctx: C, e: SerializeError) -> bool {
        false
    }

    fn serialize(&self, serializer: &CacheableSerializer<'_, C>) -> (r: Result<
        Vec<u8>,
        SerializeError,
    >)
        ensures
            r is Ok,
    {
        Ok(u64_to_le_bytes(*self))
    }
}

impl<C> Deserialize<C> for u64 {
    open spec fn restores(bytes: Seq<u8>, ctx: C) -> Result<u64, DeserializeError> {
        if bytes.len() == U64_SIZE {
            Ok(spec_u64_from_le_bytes(bytes))
        } else {
            Err(DeserializeError::CheckBytesError)
        }
    }

    fn deserialize(bytes: &[u8], deserializer: &CacheableDeserializer<'_, C>) -> (r: Result<
        u64,
        DeserializeError,
    >) {
        if bytes.len() == U64_SIZE {
            Ok(u64_from_le_bytes(bytes))
        } else {
            Err(DeserializeError::CheckBytesError)
        }
    }
}

impl<C> Cacheable<C> for u64 {
    open spec fn faithful() -> bool {
        true
    }

    proof fn lemma_round_trip(bytes: Seq<u8>, value: u64, ctx: C) {
        lemma_auto_spec_u64_to_from_le_bytes();
    }
}

impl<C> Serialize<C> for u32 {
    open spec fn archives(bytes: Seq<u8>, value: u32, ctx: C) -> bool {
        bytes == spec_u32_to_le_bytes(value)
    }

    open spec fn refuses(value: u32, ctx: C, e: SerializeError) -> bool {
        false
    }

    fn serialize(&self, serializer: &CacheableSerializer<'_, C>) -> (r: Result<
        Vec<u8>,
        SerializeError,
    >)
        ensures
            r is Ok,
    {
        Ok(u32_to_le_bytes(*self))
    }
}

impl<C> Deserialize<C> for u32 {
    open spec fn restores(bytes: Seq<u8>, ctx: C) -> Result<u32, DeserializeError> {
        if bytes.len() == U32_SIZE {
            Ok(spec_u32_from_le_bytes(bytes))
        } else {
            Err(DeserializeError::CheckBytesError)
        }
    }

    fn deserialize(bytes: &[u8], deserializer: &CacheableDeserializer<'_, C>) -> (r: Result<
        u32,
        DeserializeError,
    >) {
        if bytes.len() == U32_SIZE {
            Ok(u32_from_le_bytes(bytes))
        } else {
            Err(DeserializeError::CheckBytesError)
        }
    }
}

impl<C> Cacheable<C> for u32 {
    open spec fn faithful() -> bool {
        true
    }

    proof fn lemma_round_trip(bytes: Seq<u8>, value: u32, ctx: C) {
        lemma_auto_spec_u32_to_from_le_bytes();
    }
}

impl<C> Serialize<C> for usize {
    open spec fn archives(bytes: Seq<u8>, value: usize, ctx: C) -> bool {
        bytes == spec_u64_to_le_bytes(value as u64)
    }

    open spec fn refuses(value: usize, ctx: C, e: SerializeError) -> bool {
        false
    }

    fn serialize(&self, serializer: &CacheableSerializer<'_, C>) -> (r: Result<
        Vec<u8>,
        SerializeError,
    >)
        ensures
            r is Ok,
    {
        Ok(u64_to_le_bytes(*self as u64))
    }
}

impl<C> Deserialize<C> for usize {
    open spec fn restores(bytes: Seq<u8>, ctx: C) -> Result<usize, DeserializeError> {
        if bytes.len() == U64_SIZE && spec_u64_from_le_bytes(bytes) <= usize::MAX {
            Ok(spec_u64_from_le_bytes(bytes) as usize)
        } else {
            Err(DeserializeError::CheckBytesError)
        }
    }

    fn deserialize(bytes: &[u8], deserializer: &CacheableDeserializer<'_, C>) -> (r: Result<
        usize,
        DeserializeError,
    >) {
        if bytes.len() != U64_SIZE {
            return Err(DeserializeError::CheckBytesError);
        }
        let wide = u64_from_le_bytes(bytes);
        if wide <= usize::MAX as u64 {
            Ok(wide as usize)
        } else {
            Err(DeserializeError::CheckBytesError)
        }
    }
}

impl<C> Cacheable<C> for usize {
    open spec fn faithful() -> bool {
        true
    }

    proof fn lemma_round_trip(bytes: Seq<u8>, value: usize, ctx: C) {
        lemma_auto_spec_u64_to_from_le_bytes();
    }
}

impl<C> Serialize<C> for u8 {
    open spec fn archives(bytes: Seq<u8>, value: u8, ctx: C) -> bool {
        bytes == seq![value]
    }

    open spec fn refuses(value: u8, ctx: C, e: SerializeError) -> bool {
        false
    }

    fn serialize(&self, serializer: &CacheableSerializer<'_, C>) -> (r: Result<
        Vec<u8>,
        SerializeError,
    >)
        ensures
            r is Ok,
    {
        let mut bytes = Vec::new();
        bytes.push(*self);
        assert(bytes@ =~= seq![*self]);
        Ok(bytes)
    }
}

impl<C> Deserialize<C> for u8 {
    open spec fn restores(bytes: Seq<u8>, ctx: C) -> Result<u8, DeserializeError> {
        if bytes.len() == 1 {
            Ok(bytes[0])
        } else {
            Err(DeserializeError::CheckBytesError)
        }
    }

    fn deserialize(bytes: &[u8], deserializer: &CacheableDeserializer<'_, C>) -> (r: Result<
        u8,
        DeserializeError,
    >) {
        if bytes.len() == 1 {
            Ok(bytes[0])
        } else {
            Err(DeserializeError::CheckBytesError)
        }
    }
}

impl<C> Cacheable<C> for u8 {
    open spec fn faithful() -> bool {
        true
    }

    proof fn lemma_round_trip(bytes: Seq<u8>, value: u8, ctx: C) {
    }
}

impl<C> Serialize<C> for bool {
    open spec fn archives(bytes: Seq<u8>, value: bool, ctx: C) -> bool {
        bytes == seq![if value { 1u8 } else { 0u8 }]
    }

    open spec fn refuses(value: bool, ctx: C, e: SerializeError) -> bool {
        false
    }

    fn serialize(&self, serializer: &CacheableSerializer<'_, C>) -> (r: Result<
        Vec<u8>,
        SerializeError,
    >)
        ensures
            r is Ok,
    {
        let byte: u8 = if *self { 1 } else { 0 };
        let mut bytes = Vec::new();
        bytes.push(byte);
        assert(bytes@ =~= seq![byte]);
        Ok(bytes)
    }
}

impl<C> Deserialize<C> for bool {
    open spec fn restores(bytes: Seq<u8>, ctx: C) -> Result<bool, DeserializeError> {
        if bytes.len() == 1 && bytes[0] <= 1 {
            Ok(bytes[0] == 1)
        } else {
            Err(DeserializeError::CheckBytesError)
        }
    }

    fn deserialize(bytes: &[u8], deserializer: &CacheableDeserializer<'_, C>) -> (r: Result<
        bool,
        DeserializeError,
    >) {
        if bytes.len() == 1 && bytes[0] <= 1 {
            Ok(bytes[0] == 1)
        } else {
            Err(DeserializeError::CheckBytesError)
        }
    }
}

impl<C> Cacheable<C> for bool {
    open spec fn faithful() -> bool {
        true
    }

    proof fn lemma_round_trip(bytes: Seq<u8>, value: bool, ctx: C) {
    }
}

} // verus!
