use crate::matrix::M3;
use crate::model::{cross, lemma_dot3, nonzero_entries, vec_add, vec_div, vec_div_scalar, vec_mat, vec_mul, vec_scale, vec_sub, wrap_vec};
use crate::numeric::{group_reduce, Numeric};
use crate::vector::{Cross, Vector, V3};
use std::ops::{Add, Div, Mul, Sub};
use vstd::prelude::*;

verus! {

broadcast use group_reduce;

impl<T: Numeric> Vector<T> for V3<T> {
    fn dot(&self, rhs: Self) -> (r: T) {
        proof {
            lemma_dot3(self@, rhs@);
        }
        self.0[0].times(rhs.0[0]).plus(self.0[1].times(rhs.0[1])).plus(self.0[2].times(rhs.0[2]))
    }
}

impl<T: Numeric> Cross<T> for V3<T> {
    fn cross(&self, rhs: Self) -> (r: V3<T>)
        ensures
            r@ == wrap_vec::<T>(cross(self@, rhs@)),
    {
        let r = V3([
            self.0[1].times(rhs.0[2]).minus(self.0[2].times(rhs.0[1])),
            self.0[2].times(rhs.0[0]).minus(self.0[0].times(rhs.0[2])),
            self.0[0].times(rhs.0[1]).minus(self.0[1].times(rhs.0[0])),
        ]);
        assert(r@ =~= wrap_vec::<T>(cross(self@, rhs@)));
        r
    }
}

impl<T: Numeric> Add for V3<T> {
    type Output = V3<T>;

    /// Entrywise sum.
    fn add(self, rhs: V3<T>) -> (r: V3<T>)
        ensures
            r@ == wrap_vec::<T>(vec_add(self@, rhs@)),
    {
        let r = V3([self.0[0].plus(rhs.0[0]), self.0[1].plus(rhs.0[1]), self.0[2].plus(rhs.0[2])]);
        assert(r@ =~= wrap_vec::<T>(vec_add(self@, rhs@)));
        r
    }
}

impl<T: Numeric> vstd::std_specs::ops::AddSpecImpl for V3<T> {
    /// Callers go by the contract of `add` itself.
    open spec fn obeys_add_spec() -> bool {
        false
    }

    open spec fn add_req(self, rhs: V3<T>) -> bool {
        true
    }

    open spec fn add_spec(self, rhs: V3<T>) -> V3<T> {
        arbitrary()
    }
}

impl<T: Numeric> Sub for V3<T> {
    type Output = V3<T>;

    /// Entrywise difference.
    fn sub(self, rhs: V3<T>) -> (r: V3<T>)
        ensures
            r@ == wrap_vec::<T>(vec_sub(self@, rhs@)),
    {
        let r = V3([self.0[0].minus(rhs.0[0]), self.0[1].minus(rhs.0[1]), self.0[2].minus(rhs.0[2])]);
        assert(r@ =~= wrap_vec::<T>(vec_sub(self@, rhs@)));
        r
    }
}

impl<T: Numeric> vstd::std_specs::ops::SubSpecImpl for V3<T> {
    /// Callers go by the contract of `sub` itself.
    open spec fn obeys_sub_spec() -> bool {
        false
    }

    open spec fn sub_req(self, rhs: V3<T>) -> bool {
        true
    }

    open spec fn sub_spec(self, rhs: V3<T>) -> V3<T> {
        arbitrary()
    }
}

impl<T: Numeric> Mul for V3<T> {
    type Output = V3<T>;

    /// Entrywise product.
    fn mul(self, rhs: V3<T>) -> (r: V3<T>)
        ensures
            r@ == wrap_vec::<T>(vec_mul(self@, rhs@)),
    {
        let r = V3([self.0[0].times(rhs.0[0]), self.0[1].times(rhs.0[1]), self.0[2].times(rhs.0[2])]);
        assert(r@ =~= wrap_vec::<T>(vec_mul(self@, rhs@)));
        r
    }
}

impl<T: Numeric> vstd::std_specs::ops::MulSpecImpl for V3<T> {
    /// Callers go by the contract of `mul` itself.
    open spec fn obeys_mul_spec() -> bool {
        false
    }

    open spec fn mul_req(self, rhs: V3<T>) -> bool {
        true
    }

    open spec fn mul_spec(self, rhs: V3<T>) -> V3<T> {
        arbitrary()
    }
}

impl<T: Numeric> Mul<T> for V3<T> {
    type Output = V3<T>;

    /// Every entry times the scalar.
    fn mul(self, rhs: T) -> (r: V3<T>)
        ensures
            r@ == wrap_vec::<T>(vec_scale(self@, rhs.value())),
    {
        let r = V3([self.0[0].times(rhs), self.0[1].times(rhs), self.0[2].times(rhs)]);
        assert(r@ =~= wrap_vec::<T>(vec_scale(self@, rhs.value())));
        r
    }
}

impl<T: Numeric> vstd::std_specs::ops::MulSpecImpl<T> for V3<T> {
    /// Callers go by the contract of `mul` itself.
    open spec fn obeys_mul_spec() -> bool {
        false
    }

    open spec fn mul_req(self, rhs: T) -> bool {
        true
    }

    open spec fn mul_spec(self, rhs: T) -> V3<T> {
        arbitrary()
    }
}

impl<T: Numeric> Mul<M3<T>> for V3<T> {
    type Output = V3<T>;

    /// The vector as a row, times the matrix: entry `j` is the vector dotted with column `j`.
    fn mul(self, rhs: M3<T>) -> (r: V3<T>)
        ensures
            r@ == wrap_vec::<T>(vec_mat(self@, rhs@)),
    {
        proof {
            lemma_dot3(self@, crate::model::column(rhs@, 0));
            lemma_dot3(self@, crate::model::column(rhs@, 1));
            lemma_dot3(self@, crate::model::column(rhs@, 2));
        }
        let r = V3([self.0[0].times(rhs.0[0][0]).plus(self.0[1].times(rhs.0[1][0])).plus(self.0[2].times(rhs.0[2][0])), self.0[0].times(rhs.0[0][1]).plus(self.0[1].times(rhs.0[1][1])).plus(self.0[2].times(rhs.0[2][1])), self.0[0].times(rhs.0[0][2]).plus(self.0[1].times(rhs.0[1][2])).plus(self.0[2].times(rhs.0[2][2]))]);
        assert(r@ =~= wrap_vec::<T>(vec_mat(self@, rhs@)));
        r
    }
}

impl<T: Numeric> vstd::std_specs::ops::MulSpecImpl<M3<T>> for V3<T> {
    /// Callers go by the contract of `mul` itself.
    open spec fn obeys_mul_spec() -> bool {
        false
    }

    open spec fn mul_req(self, rhs: M3<T>) -> bool {
        true
    }

    open spec fn mul_spec(self, rhs: M3<T>) -> V3<T> {
        arbitrary()
    }
}

impl<T: Numeric> Div for V3<T> {
    type Output = V3<T>;

    /// Entrywise truncating quotient; no entry of `rhs` may be zero.
    fn div(self, rhs: V3<T>) -> (r: V3<T>)
        ensures
            r@ == wrap_vec::<T>(vec_div(self@, rhs@)),
    {
        proof {
            assert(rhs@[0] != 0);
            assert(rhs@[1] != 0);
            assert(rhs@[2] != 0);
        }
        let r = V3([self.0[0].quot(rhs.0[0]), self.0[1].quot(rhs.0[1]), self.0[2].quot(rhs.0[2])]);
        assert(r@ =~= wrap_vec::<T>(vec_div(self@, rhs@)));
        r
    }
}

impl<T: Numeric> vstd::std_specs::ops::DivSpecImpl for V3<T> {
    /// Callers go by the contract of `div` itself.
    open spec fn obeys_div_spec() -> bool {
        false
    }

    open spec fn div_req(self, rhs: V3<T>) -> bool {
        nonzero_entries(rhs@)
    }

    open spec fn div_spec(self, rhs: V3<T>) -> V3<T> {
        arbitrary()
    }
}

impl<T: Numeric> Div<T> for V3<T> {
    type Output = V3<T>;

    /// Every entry divided by the scalar, truncating; the scalar may not be zero.
    fn div(self, rhs: T) -> (r: V3<T>)
        ensures
            r@ == wrap_vec::<T>(vec_div_scalar(self@, rhs.value())),
    {
        let r = V3([self.0[0].quot(rhs), self.0[1].quot(rhs), self.0[2].quot(rhs)]);
        assert(r@ =~= wrap_vec::<T>(vec_div_scalar(self@, rhs.value())));
        r
    }
}

impl<T: Numeric> vstd::std_specs::ops::DivSpecImpl<T> for V3<T> {
    /// Callers go by the contract of `div` itself.
    open spec fn obeys_div_spec() -> bool {
        false
    }

    open spec fn div_req(self, rhs: T) -> bool {
        rhs.value() != 0
    }

    open spec fn div_spec(self, rhs: T) -> V3<T> {
        arbitrary()
    }
}

} // verus!
