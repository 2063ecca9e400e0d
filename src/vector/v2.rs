use crate::matrix::M2;
use crate::model::{cross2, lemma_dot2, nonzero_entries, vec_add, vec_div, vec_div_scalar, vec_mat, vec_mul, vec_scale, vec_sub, wrap_vec};
use crate::numeric::{group_reduce, Numeric};
use crate::vector::{Cross, Vector, V2, V3};
use std::ops::{Add, Div, Mul, Sub};
use vstd::prelude::*;

verus! {

broadcast use group_reduce;

impl<T: Numeric> Vector<T> for V2<T> {
    fn dot(&self, rhs: Self) -> (r: T) {
        proof {
            lemma_dot2(self@, rhs@);
        }
        self.0[0].times(rhs.0[0]).plus(self.0[1].times(rhs.0[1]))
    }
}

impl<T: Numeric> Cross<T> for V2<T> {
    /// The two vectors taken in the plane `z = 0`: only the third entry can be nonzero.
    fn cross(&self, rhs: Self) -> (r: V3<T>)
        ensures
            r@ == wrap_vec::<T>(cross2(self@, rhs@)),
    {
        let zero = T::zero();
        let r = V3([zero, zero, self.0[0].times(rhs.0[1]).minus(self.0[1].times(rhs.0[0]))]);
        proof {
            zero.lemma_value(zero);
            crate::numeric::lemma_reduce_small(0, T::modulus());
            assert(r@ =~= wrap_vec::<T>(cross2(self@, rhs@)));
        }
        r
    }
}

impl<T: Numeric> Add for V2<T> {
    type Output = V2<T>;

    /// Entrywise sum.
    fn add(self, rhs: V2<T>) -> (r: V2<T>)
        ensures
            r@ == wrap_vec::<T>(vec_add(self@, rhs@)),
    {
        let r = V2([self.0[0].plus(rhs.0[0]), self.0[1].plus(rhs.0[1])]);
        assert(r@ =~= wrap_vec::<T>(vec_add(self@, rhs@)));
        r
    }
}

impl<T: Numeric> vstd::std_specs::ops::AddSpecImpl for V2<T> {
    /// Callers go by the contract of `add` itself.
    open spec fn obeys_add_spec() -> bool {
        false
    }

    open spec fn add_req(self, rhs: V2<T>) -> bool {
        true
    }

    open spec fn add_spec(self, rhs: V2<T>) -> V2<T> {
        arbitrary()
    }
}

impl<T: Numeric> Sub for V2<T> {
    type Output = V2<T>;

    /// Entrywise difference.
    fn sub(self, rhs: V2<T>) -> (r: V2<T>)
        ensures
            r@ == wrap_vec::<T>(vec_sub(self@, rhs@)),
    {
        let r = V2([self.0[0].minus(rhs.0[0]), self.0[1].minus(rhs.0[1])]);
        assert(r@ =~= wrap_vec::<T>(vec_sub(self@, rhs@)));
        r
    }
}

impl<T: Numeric> vstd::std_specs::ops::SubSpecImpl for V2<T> {
    /// Callers go by the contract of `sub` itself.
    open spec fn obeys_sub_spec() -> bool {
        false
    }

    open spec fn sub_req(self, rhs: V2<T>) -> bool {
        true
    }

    open spec fn sub_spec(self, rhs: V2<T>) -> V2<T> {
        arbitrary()
    }
}

impl<T: Numeric> Mul for V2<T> {
    type Output = V2<T>;

    /// Entrywise product.
    fn mul(self, rhs: V2<T>) -> (r: V2<T>)
        ensures
            r@ == wrap_vec::<T>(vec_mul(self@, rhs@)),
    {
        let r = V2([self.0[0].times(rhs.0[0]), self.0[1].times(rhs.0[1])]);
        assert(r@ =~= wrap_vec::<T>(vec_mul(self@, rhs@)));
        r
    }
}

impl<T: Numeric> vstd::std_specs::ops::MulSpecImpl for V2<T> {
    /// Callers go by the contract of `mul` itself.
    open spec fn obeys_mul_spec() -> bool {
        false
    }

    open spec fn mul_req(self, rhs: V2<T>) -> bool {
        true
    }

    open spec fn mul_spec(self, rhs: V2<T>) -> V2<T> {
        arbitrary()
    }
}

impl<T: Numeric> Mul<T> for V2<T> {
    type Output = V2<T>;

    /// Every entry times the scalar.
    fn mul(self, rhs: T) -> (r: V2<T>)
        ensures
            r@ == wrap_vec::<T>(vec_scale(self@, rhs.value())),
    {
        let r = V2([self.0[0].times(rhs), self.0[1].times(rhs)]);
        assert(r@ =~= wrap_vec::<T>(vec_scale(self@, rhs.value())));
        r
    }
}

impl<T: Numeric> vstd::std_specs::ops::MulSpecImpl<T> for V2<T> {
    /// Callers go by the contract of `mul` itself.
    open spec fn obeys_mul_spec() -> bool {
        false
    }

    open spec fn mul_req(self, rhs: T) -> bool {
        true
    }

    open spec fn mul_spec(self, rhs: T) -> V2<T> {
        arbitrary()
    }
}

impl<T: Numeric> Mul<M2<T>> for V2<T> {
    type Output = V2<T>;

    /// The vector as a row, times the matrix: entry `j` is the vector dotted with column `j`.
    fn mul(self, rhs: M2<T>) -> (r: V2<T>)
        ensures
            r@ == wrap_vec::<T>(vec_mat(self@, rhs@)),
    {
        proof {
            lemma_dot2(self@, crate::model::column(rhs@, 0));
            lemma_dot2(self@, crate::model::column(rhs@, 1));
        }
        let r = V2([self.0[0].times(rhs.0[0][0]).plus(self.0[1].times(rhs.0[1][0])), self.0[0].times(rhs.0[0][1]).plus(self.0[1].times(rhs.0[1][1]))]);
        assert(r@ =~= wrap_vec::<T>(vec_mat(self@, rhs@)));
        r
    }
}

impl<T: Numeric> vstd::std_specs::ops::MulSpecImpl<M2<T>> for V2<T> {
    /// Callers go by the contract of `mul` itself.
    open spec fn obeys_mul_spec() -> bool {
        false
    }

    open spec fn mul_req(self, rhs: M2<T>) -> bool {
        true
    }

    open spec fn mul_spec(self, rhs: M2<T>) -> V2<T> {
        arbitrary()
    }
}

impl<T: Numeric> Div for V2<T> {
    type Output = V2<T>;

    /// Entrywise truncating quotient; no entry of `rhs` may be zero.
    fn div(self, rhs: V2<T>) -> (r: V2<T>)
        ensures
            r@ == wrap_vec::<T>(vec_div(self@, rhs@)),
    {
        proof {
            assert(rhs@[0] != 0);
            assert(rhs@[1] != 0);
        }
        let r = V2([self.0[0].quot(rhs.0[0]), self.0[1].quot(rhs.0[1])]);
        assert(r@ =~= wrap_vec::<T>(vec_div(self@, rhs@)));
        r
    }
}

impl<T: Numeric> vstd::std_specs::ops::DivSpecImpl for V2<T> {
    /// Callers go by the contract of `div` itself.
    open spec fn obeys_div_spec() -> bool {
        false
    }

    open spec fn div_req(self, rhs: V2<T>) -> bool {
        nonzero_entries(rhs@)
    }

    open spec fn div_spec(self, rhs: V2<T>) -> V2<T> {
        arbitrary()
    }
}

impl<T: Numeric> Div<T> for V2<T> {
    type Output = V2<T>;

    /// Every entry divided by the scalar, truncating; the scalar may not be zero.
    fn div(self, rhs: T) -> (r: V2<T>)
        ensures
            r@ == wrap_vec::<T>(vec_div_scalar(self@, rhs.value())),
    {
        let r = V2([self.0[0].quot(rhs), self.0[1].quot(rhs)]);
        assert(r@ =~= wrap_vec::<T>(vec_div_scalar(self@, rhs.value())));
        r
    }
}

impl<T: Numeric> vstd::std_specs::ops::DivSpecImpl<T> for V2<T> {
    /// Callers go by the contract of `div` itself.
    open spec fn obeys_div_spec() -> bool {
        false
    }

    open spec fn div_req(self, rhs: T) -> bool {
        rhs.value() != 0
    }

    open spec fn div_spec(self, rhs: T) -> V2<T> {
        arbitrary()
    }
}

} // verus!
