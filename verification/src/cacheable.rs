//! What it means for a type to be cacheable: it can be archived, it can be
//! rebuilt, and what is rebuilt from an archive of a value is that value.

use crate::deserialize::read_ok;
use crate::deserialize::Deserialize;
use crate::serialize::Serialize;
use vstd::prelude::*;

verus! {

/// A type whose values come back from their archives, where it promises so.
pub trait Cacheable<C>: Serialize<C> + Deserialize<C> {
    /// Whether the type promises that its values come back. A type that
    /// takes a value from elsewhere than the archive does not.
    spec fn faithful() -> bool;

    /// Reading an archived form of `value` gives `value`.
    proof fn lemma_round_trip(bytes: Seq<u8>, value: Self::M, ctx: C)
        requires
            Self::faithful(),
            Self::archives(bytes, value, ctx),
        ensures
            Self::restores(bytes, ctx) == read_ok(value),
    ;
}

/// Round trip: whatever `to_bytes` returns for a value of a faithful
/// cacheable type, `from_bytes` rebuilds that value from it under the same
/// context.
pub proof fn theorem_round_trip<T: Cacheable<C>, C>(value: T::M, ctx: C, bytes: Seq<u8>)
    requires
        T::faithful(),
        T::archives(bytes, value, ctx),
    ensures
        T::restores(bytes, ctx) == read_ok(value),
{
    T::lemma_round_trip(bytes, value, ctx);
}

} // verus!
