//! Equality of values that hold numbers: two values are alike when they have
//! the same shape and every pair of numbers in them is equal as numbers. A
//! value with a NaN in it is not even like itself.

use crate::scalar::{Point2, Scalar};
use vstd::prelude::*;

verus! {

pub trait Alike: Sized {
    spec fn alike(self, other: Self) -> bool;

    fn same(&self, other: &Self) -> (result: bool)
        ensures
            result == self.alike(*other),
    ;
}

impl Alike for bool {
    open spec fn alike(self, other: Self) -> bool {
        self == other
    }

    fn same(&self, other: &Self) -> (result: bool) {
        *self == *other
    }
}

impl Alike for u8 {
    open spec fn alike(self, other: Self) -> bool {
        self == other
    }

    fn same(&self, other: &Self) -> (result: bool) {
        *self == *other
    }
}

impl Alike for u64 {
    open spec fn alike(self, other: Self) -> bool {
        self == other
    }

    fn same(&self, other: &Self) -> (result: bool) {
        *self == *other
    }
}

impl Alike for String {
    open spec fn alike(self, other: Self) -> bool {
        self@ == other@
    }

    fn same(&self, other: &Self) -> (result: bool) {
        *self == *other
    }
}

impl Alike for Scalar {
    open spec fn alike(self, other: Self) -> bool {
        self.eq_num(other)
    }

    fn same(&self, other: &Self) -> (result: bool) {
        self.equals(*other)
    }
}

impl Alike for Point2 {
    open spec fn alike(self, other: Self) -> bool {
        self.eq_point(other)
    }

    fn same(&self, other: &Self) -> (result: bool) {
        self.equals(*other)
    }
}

impl<T: Alike> Alike for Option<T> {
    open spec fn alike(self, other: Self) -> bool {
        match (self, other) {
            (None, None) => true,
            (Some(left), Some(right)) => left.alike(right),
            _ => false,
        }
    }

    fn same(&self, other: &Self) -> (result: bool) {
        match (self, other) {
            (None, None) => true,
            (Some(left), Some(right)) => left.same(right),
            _ => false,
        }
    }
}

/// Sequences are alike when they are so element by element.
pub open spec fn alike_seq<T: Alike>(left: Seq<T>, right: Seq<T>) -> bool {
    &&& left.len() == right.len()
    &&& forall|i: int| 0 <= i < left.len() ==> (#[trigger] left[i]).alike(right[i])
}

impl<T: Alike> Alike for Vec<T> {
    open spec fn alike(self, other: Self) -> bool {
        alike_seq(self@, other@)
    }

    fn same(&self, other: &Self) -> (result: bool) {
        if self.len() != other.len() {
            return false;
        }
        let mut index: usize = 0;
        while index < self.len()
            invariant
                index <= self@.len(),
                self@.len() == other@.len(),
                forall|i: int| 0 <= i < index ==> (#[trigger] self@[i]).alike(other@[i]),
            decreases self@.len() - index,
        {
            if !self[index].same(&other[index]) {
                assert(!self@[index as int].alike(other@[index as int]));
                return false;
            }
            index = index + 1;
        }
        true
    }
}

} // verus!
