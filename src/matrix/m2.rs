use crate::expansion::{lemma_adjugate2, lemma_det2};
use crate::matrix::{FloatMatrix, FromVectors, IntoVectors, Matrix, M2};
use crate::model::{
    adjugate, mat_add, mat_div_scalar, mat_mul, mat_sub, mat_vec, transpose, wrap_mat, wrap_vec,
};
use crate::numeric::{
    lemma_reduce_sub_left, lemma_reduce_sub_right, lemma_wrap_value, reduce, Numeric,
};
use crate::vector::{Vector, V2};
use std::ops::{Add, Div, Mul, Sub};
use vstd::prelude::*;

verus! {

impl<T: Numeric> IntoVectors<(V2<T>, V2<T>)> for M2<T> {
    /// The columns, left to right.
    fn into_cols(&self) -> (r: (V2<T>, V2<T>))
        ensures
            seq![r.0@, r.1@] == transpose(self@),
    {
        let m = self.0;
        let r = (
            V2([m[0][0], m[1][0]]),
            V2([m[0][1], m[1][1]]),
        );
        assert(seq![r.0@, r.1@] =~~= transpose(self@));
        r
    }

    /// The rows, top to bottom.
    fn into_rows(&self) -> (r: (V2<T>, V2<T>))
        ensures
            seq![r.0@, r.1@] == self@,
    {
        let m = self.0;
        let r = (V2(m[0]), V2(m[1]));
        assert(seq![r.0@, r.1@] =~~= self@);
        r
    }
}

impl<T: Numeric> FromVectors<(V2<T>, V2<T>)> for M2<T> {
    /// The matrix whose columns are the given vectors.
    fn from_cols(v: (V2<T>, V2<T>)) -> (r: Self)
        ensures
            r@ == transpose(seq![v.0@, v.1@]),
    {
        let r = M2([
            [v.0.0[0], v.1.0[0]],
            [v.0.0[1], v.1.0[1]],
        ]);
        assert(r@ =~~= transpose(seq![v.0@, v.1@]));
        r
    }

    /// The matrix whose rows are the given vectors.
    fn from_rows(v: (V2<T>, V2<T>)) -> (r: Self)
        ensures
            r@ == seq![v.0@, v.1@],
    {
        let r = M2([v.0.0, v.1.0]);
        assert(r@ =~~= seq![v.0@, v.1@]);
        r
    }
}

impl<T: Numeric> Matrix for M2<T> {
    fn transpose(&mut self) {
        let t = self.0[0][1];
        self.0[0][1] = self.0[1][0];
        self.0[1][0] = t;
        assert(self@ =~~= transpose(old(self)@));
    }
}

impl<T: Numeric> FloatMatrix<T> for M2<T> {
    fn determinant(&self) -> (r: T) {
        let m = self.0;
        let ghost x00 = m[0][0].value();
        let ghost x01 = m[0][1].value();
        let ghost x10 = m[1][0].value();
        let ghost x11 = m[1][1].value();
        let ghost md = T::modulus();
        proof {
            lemma_det2(self@);
            lemma_reduce_sub_left(x00 * x11, reduce(x01 * x10, md), md);
            lemma_reduce_sub_right(x00 * x11, x01 * x10, md);
        }
        m[0][0].times(m[1][1])
            .minus(m[0][1].times(m[1][0]))
    }

    fn cofactor(&self) -> (r: Self) {
        let m = self.0;
        let c00 = m[1][1];
        proof {
            lemma_wrap_value(m[1][1]);
        }
        let c01 = m[0][1].negate();
        let c10 = m[1][0].negate();
        let c11 = m[0][0];
        proof {
            lemma_wrap_value(m[0][0]);
        }
        let r = M2([
            [c00, c01],
            [c10, c11],
        ]);
        proof {
            lemma_adjugate2(self@);
            assert(r@[0] =~= wrap_mat::<T>(adjugate(self@))[0]);
            assert(r@[1] =~= wrap_mat::<T>(adjugate(self@))[1]);
            assert(r@ =~= wrap_mat::<T>(adjugate(self@)));
        }
        r
    }

    fn inverse(&self) -> (r: Self) {
        self.cofactor() / self.determinant()
    }
}

impl<T: Numeric> Add for M2<T> {
    type Output = M2<T>;

    /// Entrywise sum.
    fn add(self, rhs: M2<T>) -> (r: M2<T>)
        ensures
            r@ == wrap_mat::<T>(mat_add(self@, rhs@)),
    {
        let r = M2([
            [self.0[0][0].plus(rhs.0[0][0]), self.0[0][1].plus(rhs.0[0][1])],
            [self.0[1][0].plus(rhs.0[1][0]), self.0[1][1].plus(rhs.0[1][1])],
        ]);
        proof {
            assert(r@[0] =~= wrap_mat::<T>(mat_add(self@, rhs@))[0]);
            assert(r@[1] =~= wrap_mat::<T>(mat_add(self@, rhs@))[1]);
            assert(r@ =~= wrap_mat::<T>(mat_add(self@, rhs@)));
        }
        r
    }
}

impl<T: Numeric> vstd::std_specs::ops::AddSpecImpl for M2<T> {
    /// Callers go by the contract of `add` itself.
    open spec fn obeys_add_spec() -> bool {
        false
    }

    open spec fn add_req(self, rhs: M2<T>) -> bool {
        true
    }

    open spec fn add_spec(self, rhs: M2<T>) -> M2<T> {
        arbitrary()
    }
}

impl<T: Numeric> Sub for M2<T> {
    type Output = M2<T>;

    /// Entrywise difference.
    fn sub(self, rhs: M2<T>) -> (r: M2<T>)
        ensures
            r@ == wrap_mat::<T>(mat_sub(self@, rhs@)),
    {
        let r = M2([
            [self.0[0][0].minus(rhs.0[0][0]), self.0[0][1].minus(rhs.0[0][1])],
            [self.0[1][0].minus(rhs.0[1][0]), self.0[1][1].minus(rhs.0[1][1])],
        ]);
        proof {
            assert(r@[0] =~= wrap_mat::<T>(mat_sub(self@, rhs@))[0]);
            assert(r@[1] =~= wrap_mat::<T>(mat_sub(self@, rhs@))[1]);
            assert(r@ =~= wrap_mat::<T>(mat_sub(self@, rhs@)));
        }
        r
    }
}

impl<T: Numeric> vstd::std_specs::ops::SubSpecImpl for M2<T> {
    /// Callers go by the contract of `sub` itself.
    open spec fn obeys_sub_spec() -> bool {
        false
    }

    open spec fn sub_req(self, rhs: M2<T>) -> bool {
        true
    }

    open spec fn sub_spec(self, rhs: M2<T>) -> M2<T> {
        arbitrary()
    }
}

impl<T: Numeric> Mul for M2<T> {
    type Output = M2<T>;

    /// The matrix product: entry `(i, j)` is row `i` of `self` dotted with column `j` of `rhs`.
    fn mul(self, rhs: M2<T>) -> (r: M2<T>)
        ensures
            r@ == wrap_mat::<T>(mat_mul(self@, rhs@)),
    {
        let (r0, r1) = self.into_rows();
        let (c0, c1) = rhs.into_cols();
        proof {
            assert(r0@ == self@[0]);
            assert(c0@ =~= crate::model::column(rhs@, 0));
            assert(r1@ == self@[1]);
            assert(c1@ =~= crate::model::column(rhs@, 1));
        }
        let r = M2([
            [r0.dot(c0), r0.dot(c1)],
            [r1.dot(c0), r1.dot(c1)],
        ]);
        proof {
            assert(r@[0] =~= wrap_mat::<T>(mat_mul(self@, rhs@))[0]);
            assert(r@[1] =~= wrap_mat::<T>(mat_mul(self@, rhs@))[1]);
            assert(r@ =~= wrap_mat::<T>(mat_mul(self@, rhs@)));
        }
        r
    }
}

impl<T: Numeric> vstd::std_specs::ops::MulSpecImpl for M2<T> {
    /// Callers go by the contract of `mul` itself.
    open spec fn obeys_mul_spec() -> bool {
        false
    }

    open spec fn mul_req(self, rhs: M2<T>) -> bool {
        true
    }

    open spec fn mul_spec(self, rhs: M2<T>) -> M2<T> {
        arbitrary()
    }
}

impl<T: Numeric> Mul<V2<T>> for M2<T> {
    type Output = V2<T>;

    /// The matrix times the vector taken as a column: entry `i` is row `i` dotted with the vector.
    fn mul(self, rhs: V2<T>) -> (r: V2<T>)
        ensures
            r@ == wrap_vec::<T>(mat_vec(self@, rhs@)),
    {
        let (r0, r1) = self.into_rows();
        proof {
            assert(r0@ == self@[0]);
            assert(r1@ == self@[1]);
        }
        let r = V2([r0.dot(rhs), r1.dot(rhs)]);
        proof {
            assert(r@ =~= wrap_vec::<T>(mat_vec(self@, rhs@)));
        }
        r
    }
}

impl<T: Numeric> vstd::std_specs::ops::MulSpecImpl<V2<T>> for M2<T> {
    /// Callers go by the contract of `mul` itself.
    open spec fn obeys_mul_spec() -> bool {
        false
    }

    open spec fn mul_req(self, rhs: V2<T>) -> bool {
        true
    }

    open spec fn mul_spec(self, rhs: V2<T>) -> V2<T> {
        arbitrary()
    }
}

impl<T: Numeric> Div<T> for M2<T> {
    type Output = M2<T>;

    /// Every entry divided by the scalar, truncating; the scalar may not be zero.
    fn div(self, rhs: T) -> (r: M2<T>)
        ensures
            r@ == wrap_mat::<T>(mat_div_scalar(self@, rhs.value())),
    {
        let r = M2([
            [self.0[0][0].quot(rhs), self.0[0][1].quot(rhs)],
            [self.0[1][0].quot(rhs), self.0[1][1].quot(rhs)],
        ]);
        proof {
            assert(r@[0] =~= wrap_mat::<T>(mat_div_scalar(self@, rhs.value()))[0]);
            assert(r@[1] =~= wrap_mat::<T>(mat_div_scalar(self@, rhs.value()))[1]);
            assert(r@ =~= wrap_mat::<T>(mat_div_scalar(self@, rhs.value())));
        }
        r
    }
}

impl<T: Numeric> vstd::std_specs::ops::DivSpecImpl<T> for M2<T> {
    /// Callers go by the contract of `div` itself.
    open spec fn obeys_div_spec() -> bool {
        false
    }

    open spec fn div_req(self, rhs: T) -> bool {
        rhs.value() != 0
    }

    open spec fn div_spec(self, rhs: T) -> M2<T> {
        arbitrary()
    }
}

} // verus!
