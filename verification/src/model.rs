//! The mathematical model of a value: what the contracts of this library
//! say a value is.

use vstd::prelude::*;

verus! {

/// The model of a run of bytes. Code that is compiled without Verus names
/// it where it implements a trait of this library.
pub type ByteSeq = Seq<u8>;

/// The model of a text.
pub type TextSeq = Seq<char>;

/// A value with a mathematical model. Two values with one model are the
/// same value to every contract of this library.
pub trait Model {
    type M;

    spec fn model(&self) -> Self::M;
}

impl Model for () {
    type M = ();

    open spec fn model(&self) -> () {
        ()
    }
}

impl Model for bool {
    type M = bool;

    open spec fn model(&self) -> bool {
        *self
    }
}

impl Model for u8 {
    type M = u8;

    open spec fn model(&self) -> u8 {
        *self
    }
}

impl Model for u32 {
    type M = u32;

    open spec fn model(&self) -> u32 {
        *self
    }
}

impl Model for u64 {
    type M = u64;

    open spec fn model(&self) -> u64 {
        *self
    }
}

impl Model for usize {
    type M = usize;

    open spec fn model(&self) -> usize {
        *self
    }
}

impl Model for String {
    type M = Seq<char>;

    open spec fn model(&self) -> Seq<char> {
        self@
    }
}

impl<T: Model> Model for Option<T> {
    type M = Option<T::M>;

    open spec fn model(&self) -> Option<T::M> {
        match self {
            Some(value) => Some(value.model()),
            None => None,
        }
    }
}

impl<T: Model> Model for Vec<T> {
    type M = Seq<T::M>;

    open spec fn model(&self) -> Seq<T::M> {
        models(self@)
    }
}

impl<A: Model, B: Model> Model for (A, B) {
    type M = (A::M, B::M);

    open spec fn model(&self) -> (A::M, B::M) {
        (self.0.model(), self.1.model())
    }
}

impl<A: Model, B: Model, C: Model> Model for (A, B, C) {
    type M = (A::M, B::M, C::M);

    open spec fn model(&self) -> (A::M, B::M, C::M) {
        (self.0.model(), self.1.model(), self.2.model())
    }
}

impl<'a, T: Model> Model for &'a T {
    type M = T::M;

    open spec fn model(&self) -> T::M {
        (**self).model()
    }
}

/// The models of the items of a sequence, in its order.
pub open spec fn models<T: Model>(items: Seq<T>) -> Seq<T::M> {
    Seq::new(items.len(), |i: int| items[i].model())
}

/// The contents of a list of byte runs.
pub open spec fn runs(parts: Seq<Vec<u8>>) -> Seq<Seq<u8>> {
    Seq::new(parts.len(), |i: int| parts[i]@)
}

} // verus!
