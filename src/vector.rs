pub mod v2;
pub mod v3;
pub mod v4;

use crate::model::dot;
use crate::numeric::{wrap, Numeric};
use vstd::prelude::*;

verus! {

/// A vector of two scalars.
#[derive(Default, Copy, Clone, PartialEq, Debug)]
pub struct V2<T>(pub [T; 2]);

/// A vector of three scalars.
#[derive(Default, Copy, Clone, PartialEq, Debug)]
pub struct V3<T>(pub [T; 3]);

/// A vector of four scalars.
#[derive(Default, Copy, Clone, PartialEq, Debug)]
pub struct V4<T>(pub [T; 4]);

impl<T: Numeric> View for V2<T> {
    type V = Seq<int>;

    open spec fn view(&self) -> Seq<int> {
        seq![self.0[0].value(), self.0[1].value()]
    }
}

impl<T: Numeric> View for V3<T> {
    type V = Seq<int>;

    open spec fn view(&self) -> Seq<int> {
        seq![self.0[0].value(), self.0[1].value(), self.0[2].value()]
    }
}

impl<T: Numeric> View for V4<T> {
    type V = Seq<int>;

    open spec fn view(&self) -> Seq<int> {
        seq![self.0[0].value(), self.0[1].value(), self.0[2].value(), self.0[3].value()]
    }
}

/// A vector over the scalar `T`, viewed as the sequence of its entries' values.
pub trait Vector<T: Numeric>: View<V = Seq<int>> + Sized {
    /// The dot product.
    fn dot(&self, rhs: Self) -> (r: T)
        ensures
            r.value() == wrap::<T>(dot(self@, rhs@)),
    ;
}

/// The cross product, always a 3-vector.
pub trait Cross<T, RHS = Self> {
    fn cross(&self, rhs: RHS) -> V3<T>;
}

} // verus!
