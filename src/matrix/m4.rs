use crate::expansion::{lemma_adjugate4, lemma_det4};
use crate::matrix::{FloatMatrix, FromVectors, IntoVectors, Matrix, M4};
use crate::model::{
    adjugate, mat_add, mat_div_scalar, mat_mul, mat_sub, mat_vec, transpose, wrap_mat, wrap_vec,
};
use crate::numeric::{
    lemma_reduce_add_left, lemma_reduce_add_right, lemma_reduce_mul_left, lemma_reduce_sub_left,
    lemma_reduce_sub_right, reduce, Numeric,
};
use crate::vector::{Vector, V4};
use std::ops::{Add, Div, Mul, Sub};
use vstd::prelude::*;

verus! {

impl<T: Numeric> IntoVectors<(V4<T>, V4<T>, V4<T>, V4<T>)> for M4<T> {
    /// The columns, left to right.
    fn into_cols(&self) -> (r: (V4<T>, V4<T>, V4<T>, V4<T>))
        ensures
            seq![r.0@, r.1@, r.2@, r.3@] == transpose(self@),
    {
        let m = self.0;
        let r = (
            V4([m[0][0], m[1][0], m[2][0], m[3][0]]),
            V4([m[0][1], m[1][1], m[2][1], m[3][1]]),
            V4([m[0][2], m[1][2], m[2][2], m[3][2]]),
            V4([m[0][3], m[1][3], m[2][3], m[3][3]]),
        );
        assert(seq![r.0@, r.1@, r.2@, r.3@] =~~= transpose(self@));
        r
    }

    /// The rows, top to bottom.
    fn into_rows(&self) -> (r: (V4<T>, V4<T>, V4<T>, V4<T>))
        ensures
            seq![r.0@, r.1@, r.2@, r.3@] == self@,
    {
        let m = self.0;
        let r = (V4(m[0]), V4(m[1]), V4(m[2]), V4(m[3]));
        assert(seq![r.0@, r.1@, r.2@, r.3@] =~~= self@);
        r
    }
}

impl<T: Numeric> FromVectors<(V4<T>, V4<T>, V4<T>, V4<T>)> for M4<T> {
    /// The matrix whose columns are the given vectors.
    fn from_cols(v: (V4<T>, V4<T>, V4<T>, V4<T>)) -> (r: Self)
        ensures
            r@ == transpose(seq![v.0@, v.1@, v.2@, v.3@]),
    {
        let r = M4([
            [v.0.0[0], v.1.0[0], v.2.0[0], v.3.0[0]],
            [v.0.0[1], v.1.0[1], v.2.0[1], v.3.0[1]],
            [v.0.0[2], v.1.0[2], v.2.0[2], v.3.0[2]],
            [v.0.0[3], v.1.0[3], v.2.0[3], v.3.0[3]],
        ]);
        assert(r@ =~~= transpose(seq![v.0@, v.1@, v.2@, v.3@]));
        r
    }

    /// The matrix whose rows are the given vectors.
    fn from_rows(v: (V4<T>, V4<T>, V4<T>, V4<T>)) -> (r: Self)
        ensures
            r@ == seq![v.0@, v.1@, v.2@, v.3@],
    {
        let r = M4([v.0.0, v.1.0, v.2.0, v.3.0]);
        assert(r@ =~~= seq![v.0@, v.1@, v.2@, v.3@]);
        r
    }
}

impl<T: Numeric> Matrix for M4<T> {
    fn transpose(&mut self) {
        let t = self.0[0][1];
        self.0[0][1] = self.0[1][0];
        self.0[1][0] = t;
        let t = self.0[0][2];
        self.0[0][2] = self.0[2][0];
        self.0[2][0] = t;
        let t = self.0[0][3];
        self.0[0][3] = self.0[3][0];
        self.0[3][0] = t;
        let t = self.0[1][2];
        self.0[1][2] = self.0[2][1];
        self.0[2][1] = t;
        let t = self.0[1][3];
        self.0[1][3] = self.0[3][1];
        self.0[3][1] = t;
        let t = self.0[2][3];
        self.0[2][3] = self.0[3][2];
        self.0[3][2] = t;
        assert(self@ =~~= transpose(old(self)@));
    }
}

impl<T: Numeric> FloatMatrix<T> for M4<T> {
    fn determinant(&self) -> (r: T) {
        let m = self.0;
        let ghost x00 = m[0][0].value();
        let ghost x01 = m[0][1].value();
        let ghost x02 = m[0][2].value();
        let ghost x03 = m[0][3].value();
        let ghost x10 = m[1][0].value();
        let ghost x11 = m[1][1].value();
        let ghost x12 = m[1][2].value();
        let ghost x13 = m[1][3].value();
        let ghost x20 = m[2][0].value();
        let ghost x21 = m[2][1].value();
        let ghost x22 = m[2][2].value();
        let ghost x23 = m[2][3].value();
        let ghost x30 = m[3][0].value();
        let ghost x31 = m[3][1].value();
        let ghost x32 = m[3][2].value();
        let ghost x33 = m[3][3].value();
        let ghost md = T::modulus();
        let mut r = m[0][3].times(m[1][2]).times(m[2][1]).times(m[3][0]);
        let ghost mut e: int = x03 * x12 * x21 * x30;
        proof {
            lemma_reduce_mul_left(x03 * x12, x21, md);
            lemma_reduce_mul_left(x03 * x12 * x21, x30, md);
        }
        let t = m[0][2].times(m[1][3]).times(m[2][1]).times(m[3][0]);
        proof {
            lemma_reduce_mul_left(x02 * x13, x21, md);
            lemma_reduce_mul_left(x02 * x13 * x21, x30, md);
            lemma_reduce_sub_left(e, reduce(x02 * x13 * x21 * x30, md), md);
            lemma_reduce_sub_right(e, x02 * x13 * x21 * x30, md);
            e = e - x02 * x13 * x21 * x30;
        }
        r = r.minus(t);
        let t = m[0][3].times(m[1][1]).times(m[2][2]).times(m[3][0]);
        proof {
            lemma_reduce_mul_left(x03 * x11, x22, md);
            lemma_reduce_mul_left(x03 * x11 * x22, x30, md);
            lemma_reduce_sub_left(e, reduce(x03 * x11 * x22 * x30, md), md);
            lemma_reduce_sub_right(e, x03 * x11 * x22 * x30, md);
            e = e - x03 * x11 * x22 * x30;
        }
        r = r.minus(t);
        let t = m[0][1].times(m[1][3]).times(m[2][2]).times(m[3][0]);
        proof {
            lemma_reduce_mul_left(x01 * x13, x22, md);
            lemma_reduce_mul_left(x01 * x13 * x22, x30, md);
            lemma_reduce_add_left(e, reduce(x01 * x13 * x22 * x30, md), md);
            lemma_reduce_add_right(e, x01 * x13 * x22 * x30, md);
            e = e + x01 * x13 * x22 * x30;
        }
        r = r.plus(t);
        let t = m[0][2].times(m[1][1]).times(m[2][3]).times(m[3][0]);
        proof {
            lemma_reduce_mul_left(x02 * x11, x23, md);
            lemma_reduce_mul_left(x02 * x11 * x23, x30, md);
            lemma_reduce_add_left(e, reduce(x02 * x11 * x23 * x30, md), md);
            lemma_reduce_add_right(e, x02 * x11 * x23 * x30, md);
            e = e + x02 * x11 * x23 * x30;
        }
        r = r.plus(t);
        let t = m[0][1].times(m[1][2]).times(m[2][3]).times(m[3][0]);
        proof {
            lemma_reduce_mul_left(x01 * x12, x23, md);
            lemma_reduce_mul_left(x01 * x12 * x23, x30, md);
            lemma_reduce_sub_left(e, reduce(x01 * x12 * x23 * x30, md), md);
            lemma_reduce_sub_right(e, x01 * x12 * x23 * x30, md);
            e = e - x01 * x12 * x23 * x30;
        }
        r = r.minus(t);
        let t = m[0][3].times(m[1][2]).times(m[2][0]).times(m[3][1]);
        proof {
            lemma_reduce_mul_left(x03 * x12, x20, md);
            lemma_reduce_mul_left(x03 * x12 * x20, x31, md);
            lemma_reduce_sub_left(e, reduce(x03 * x12 * x20 * x31, md), md);
            lemma_reduce_sub_right(e, x03 * x12 * x20 * x31, md);
            e = e - x03 * x12 * x20 * x31;
        }
        r = r.minus(t);
        let t = m[0][2].times(m[1][3]).times(m[2][0]).times(m[3][1]);
        proof {
            lemma_reduce_mul_left(x02 * x13, x20, md);
            lemma_reduce_mul_left(x02 * x13 * x20, x31, md);
            lemma_reduce_add_left(e, reduce(x02 * x13 * x20 * x31, md), md);
            lemma_reduce_add_right(e, x02 * x13 * x20 * x31, md);
            e = e + x02 * x13 * x20 * x31;
        }
        r = r.plus(t);
        let t = m[0][3].times(m[1][0]).times(m[2][2]).times(m[3][1]);
        proof {
            lemma_reduce_mul_left(x03 * x10, x22, md);
            lemma_reduce_mul_left(x03 * x10 * x22, x31, md);
            lemma_reduce_add_left(e, reduce(x03 * x10 * x22 * x31, md), md);
            lemma_reduce_add_right(e, x03 * x10 * x22 * x31, md);
            e = e + x03 * x10 * x22 * x31;
        }
        r = r.plus(t);
        let t = m[0][0].times(m[1][3]).times(m[2][2]).times(m[3][1]);
        proof {
            lemma_reduce_mul_left(x00 * x13, x22, md);
            lemma_reduce_mul_left(x00 * x13 * x22, x31, md);
            lemma_reduce_sub_left(e, reduce(x00 * x13 * x22 * x31, md), md);
            lemma_reduce_sub_right(e, x00 * x13 * x22 * x31, md);
            e = e - x00 * x13 * x22 * x31;
        }
        r = r.minus(t);
        let t = m[0][2].times(m[1][0]).times(m[2][3]).times(m[3][1]);
        proof {
            lemma_reduce_mul_left(x02 * x10, x23, md);
            lemma_reduce_mul_left(x02 * x10 * x23, x31, md);
            lemma_reduce_sub_left(e, reduce(x02 * x10 * x23 * x31, md), md);
            lemma_reduce_sub_right(e, x02 * x10 * x23 * x31, md);
            e = e - x02 * x10 * x23 * x31;
        }
        r = r.minus(t);
        let t = m[0][0].times(m[1][2]).times(m[2][3]).times(m[3][1]);
        proof {
            lemma_reduce_mul_left(x00 * x12, x23, md);
            lemma_reduce_mul_left(x00 * x12 * x23, x31, md);
            lemma_reduce_add_left(e, reduce(x00 * x12 * x23 * x31, md), md);
            lemma_reduce_add_right(e, x00 * x12 * x23 * x31, md);
            e = e + x00 * x12 * x23 * x31;
        }
        r = r.plus(t);
        let t = m[0][3].times(m[1][1]).times(m[2][0]).times(m[3][2]);
        proof {
            lemma_reduce_mul_left(x03 * x11, x20, md);
            lemma_reduce_mul_left(x03 * x11 * x20, x32, md);
            lemma_reduce_add_left(e, reduce(x03 * x11 * x20 * x32, md), md);
            lemma_reduce_add_right(e, x03 * x11 * x20 * x32, md);
            e = e + x03 * x11 * x20 * x32;
        }
        r = r.plus(t);
        let t = m[0][1].times(m[1][3]).times(m[2][0]).times(m[3][2]);
        proof {
            lemma_reduce_mul_left(x01 * x13, x20, md);
            lemma_reduce_mul_left(x01 * x13 * x20, x32, md);
            lemma_reduce_sub_left(e, reduce(x01 * x13 * x20 * x32, md), md);
            lemma_reduce_sub_right(e, x01 * x13 * x20 * x32, md);
            e = e - x01 * x13 * x20 * x32;
        }
        r = r.minus(t);
        let t = m[0][3].times(m[1][0]).times(m[2][1]).times(m[3][2]);
        proof {
            lemma_reduce_mul_left(x03 * x10, x21, md);
            lemma_reduce_mul_left(x03 * x10 * x21, x32, md);
            lemma_reduce_sub_left(e, reduce(x03 * x10 * x21 * x32, md), md);
            lemma_reduce_sub_right(e, x03 * x10 * x21 * x32, md);
            e = e - x03 * x10 * x21 * x32;
        }
        r = r.minus(t);
        let t = m[0][0].times(m[1][3]).times(m[2][1]).times(m[3][2]);
        proof {
            lemma_reduce_mul_left(x00 * x13, x21, md);
            lemma_reduce_mul_left(x00 * x13 * x21, x32, md);
            lemma_reduce_add_left(e, reduce(x00 * x13 * x21 * x32, md), md);
            lemma_reduce_add_right(e, x00 * x13 * x21 * x32, md);
            e = e + x00 * x13 * x21 * x32;
        }
        r = r.plus(t);
        let t = m[0][1].times(m[1][0]).times(m[2][3]).times(m[3][2]);
        proof {
            lemma_reduce_mul_left(x01 * x10, x23, md);
            lemma_reduce_mul_left(x01 * x10 * x23, x32, md);
            lemma_reduce_add_left(e, reduce(x01 * x10 * x23 * x32, md), md);
            lemma_reduce_add_right(e, x01 * x10 * x23 * x32, md);
            e = e + x01 * x10 * x23 * x32;
        }
        r = r.plus(t);
        let t = m[0][0].times(m[1][1]).times(m[2][3]).times(m[3][2]);
        proof {
            lemma_reduce_mul_left(x00 * x11, x23, md);
            lemma_reduce_mul_left(x00 * x11 * x23, x32, md);
            lemma_reduce_sub_left(e, reduce(x00 * x11 * x23 * x32, md), md);
            lemma_reduce_sub_right(e, x00 * x11 * x23 * x32, md);
            e = e - x00 * x11 * x23 * x32;
        }
        r = r.minus(t);
        let t = m[0][2].times(m[1][1]).times(m[2][0]).times(m[3][3]);
        proof {
            lemma_reduce_mul_left(x02 * x11, x20, md);
            lemma_reduce_mul_left(x02 * x11 * x20, x33, md);
            lemma_reduce_sub_left(e, reduce(x02 * x11 * x20 * x33, md), md);
            lemma_reduce_sub_right(e, x02 * x11 * x20 * x33, md);
            e = e - x02 * x11 * x20 * x33;
        }
        r = r.minus(t);
        let t = m[0][1].times(m[1][2]).times(m[2][0]).times(m[3][3]);
        proof {
            lemma_reduce_mul_left(x01 * x12, x20, md);
            lemma_reduce_mul_left(x01 * x12 * x20, x33, md);
            lemma_reduce_add_left(e, reduce(x01 * x12 * x20 * x33, md), md);
            lemma_reduce_add_right(e, x01 * x12 * x20 * x33, md);
            e = e + x01 * x12 * x20 * x33;
        }
        r = r.plus(t);
        let t = m[0][2].times(m[1][0]).times(m[2][1]).times(m[3][3]);
        proof {
            lemma_reduce_mul_left(x02 * x10, x21, md);
            lemma_reduce_mul_left(x02 * x10 * x21, x33, md);
            lemma_reduce_add_left(e, reduce(x02 * x10 * x21 * x33, md), md);
            lemma_reduce_add_right(e, x02 * x10 * x21 * x33, md);
            e = e + x02 * x10 * x21 * x33;
        }
        r = r.plus(t);
        let t = m[0][0].times(m[1][2]).times(m[2][1]).times(m[3][3]);
        proof {
            lemma_reduce_mul_left(x00 * x12, x21, md);
            lemma_reduce_mul_left(x00 * x12 * x21, x33, md);
            lemma_reduce_sub_left(e, reduce(x00 * x12 * x21 * x33, md), md);
            lemma_reduce_sub_right(e, x00 * x12 * x21 * x33, md);
            e = e - x00 * x12 * x21 * x33;
        }
        r = r.minus(t);
        let t = m[0][1].times(m[1][0]).times(m[2][2]).times(m[3][3]);
        proof {
            lemma_reduce_mul_left(x01 * x10, x22, md);
            lemma_reduce_mul_left(x01 * x10 * x22, x33, md);
            lemma_reduce_sub_left(e, reduce(x01 * x10 * x22 * x33, md), md);
            lemma_reduce_sub_right(e, x01 * x10 * x22 * x33, md);
            e = e - x01 * x10 * x22 * x33;
        }
        r = r.minus(t);
        let t = m[0][0].times(m[1][1]).times(m[2][2]).times(m[3][3]);
        proof {
            lemma_reduce_mul_left(x00 * x11, x22, md);
            lemma_reduce_mul_left(x00 * x11 * x22, x33, md);
            lemma_reduce_add_left(e, reduce(x00 * x11 * x22 * x33, md), md);
            lemma_reduce_add_right(e, x00 * x11 * x22 * x33, md);
            e = e + x00 * x11 * x22 * x33;
        }
        r = r.plus(t);
        proof {
            lemma_det4(self@);
        }
        r
    }

    fn cofactor(&self) -> (r: Self) {
        let m = self.0;
        let c0 = adjugate_row0(m);
        let c1 = adjugate_row1(m);
        let c2 = adjugate_row2(m);
        let c3 = adjugate_row3(m);
        let r = M4([c0, c1, c2, c3]);
        proof {
            lemma_adjugate4(self@);
            assert(r@[0] =~= wrap_mat::<T>(adjugate(self@))[0]);
            assert(r@[1] =~= wrap_mat::<T>(adjugate(self@))[1]);
            assert(r@[2] =~= wrap_mat::<T>(adjugate(self@))[2]);
            assert(r@[3] =~= wrap_mat::<T>(adjugate(self@))[3]);
            assert(r@ =~= wrap_mat::<T>(adjugate(self@)));
        }
        r
    }

    fn inverse(&self) -> (r: Self) {
        self.cofactor() / self.determinant()
    }
}

impl<T: Numeric> Add for M4<T> {
    type Output = M4<T>;

    /// Entrywise sum.
    fn add(self, rhs: M4<T>) -> (r: M4<T>)
        ensures
            r@ == wrap_mat::<T>(mat_add(self@, rhs@)),
    {
        let r = M4([
            [self.0[0][0].plus(rhs.0[0][0]), self.0[0][1].plus(rhs.0[0][1]), self.0[0][2].plus(rhs.0[0][2]), self.0[0][3].plus(rhs.0[0][3])],
            [self.0[1][0].plus(rhs.0[1][0]), self.0[1][1].plus(rhs.0[1][1]), self.0[1][2].plus(rhs.0[1][2]), self.0[1][3].plus(rhs.0[1][3])],
            [self.0[2][0].plus(rhs.0[2][0]), self.0[2][1].plus(rhs.0[2][1]), self.0[2][2].plus(rhs.0[2][2]), self.0[2][3].plus(rhs.0[2][3])],
            [self.0[3][0].plus(rhs.0[3][0]), self.0[3][1].plus(rhs.0[3][1]), self.0[3][2].plus(rhs.0[3][2]), self.0[3][3].plus(rhs.0[3][3])],
        ]);
        proof {
            assert(r@[0] =~= wrap_mat::<T>(mat_add(self@, rhs@))[0]);
            assert(r@[1] =~= wrap_mat::<T>(mat_add(self@, rhs@))[1]);
            assert(r@[2] =~= wrap_mat::<T>(mat_add(self@, rhs@))[2]);
            assert(r@[3] =~= wrap_mat::<T>(mat_add(self@, rhs@))[3]);
            assert(r@ =~= wrap_mat::<T>(mat_add(self@, rhs@)));
        }
        r
    }
}

impl<T: Numeric> vstd::std_specs::ops::AddSpecImpl for M4<T> {
    /// Callers go by the contract of `add` itself.
    open spec fn obeys_add_spec() -> bool {
        false
    }

    open spec fn add_req(self, rhs: M4<T>) -> bool {
        true
    }

    open spec fn add_spec(self, rhs: M4<T>) -> M4<T> {
        arbitrary()
    }
}

impl<T: Numeric> Sub for M4<T> {
    type Output = M4<T>;

    /// Entrywise difference.
    fn sub(self, rhs: M4<T>) -> (r: M4<T>)
        ensures
            r@ == wrap_mat::<T>(mat_sub(self@, rhs@)),
    {
        let r = M4([
            [self.0[0][0].minus(rhs.0[0][0]), self.0[0][1].minus(rhs.0[0][1]), self.0[0][2].minus(rhs.0[0][2]), self.0[0][3].minus(rhs.0[0][3])],
            [self.0[1][0].minus(rhs.0[1][0]), self.0[1][1].minus(rhs.0[1][1]), self.0[1][2].minus(rhs.0[1][2]), self.0[1][3].minus(rhs.0[1][3])],
            [self.0[2][0].minus(rhs.0[2][0]), self.0[2][1].minus(rhs.0[2][1]), self.0[2][2].minus(rhs.0[2][2]), self.0[2][3].minus(rhs.0[2][3])],
            [self.0[3][0].minus(rhs.0[3][0]), self.0[3][1].minus(rhs.0[3][1]), self.0[3][2].minus(rhs.0[3][2]), self.0[3][3].minus(rhs.0[3][3])],
        ]);
        proof {
            assert(r@[0] =~= wrap_mat::<T>(mat_sub(self@, rhs@))[0]);
            assert(r@[1] =~= wrap_mat::<T>(mat_sub(self@, rhs@))[1]);
            assert(r@[2] =~= wrap_mat::<T>(mat_sub(self@, rhs@))[2]);
            assert(r@[3] =~= wrap_mat::<T>(mat_sub(self@, rhs@))[3]);
            assert(r@ =~= wrap_mat::<T>(mat_sub(self@, rhs@)));
        }
        r
    }
}

impl<T: Numeric> vstd::std_specs::ops::SubSpecImpl for M4<T> {
    /// Callers go by the contract of `sub` itself.
    open spec fn obeys_sub_spec() -> bool {
        false
    }

    open spec fn sub_req(self, rhs: M4<T>) -> bool {
        true
    }

    open spec fn sub_spec(self, rhs: M4<T>) -> M4<T> {
        arbitrary()
    }
}

impl<T: Numeric> Mul for M4<T> {
    type Output = M4<T>;

    /// The matrix product: entry `(i, j)` is row `i` of `self` dotted with column `j` of `rhs`.
    fn mul(self, rhs: M4<T>) -> (r: M4<T>)
        ensures
            r@ == wrap_mat::<T>(mat_mul(self@, rhs@)),
    {
        let (r0, r1, r2, r3) = self.into_rows();
        let (c0, c1, c2, c3) = rhs.into_cols();
        proof {
            assert(r0@ == self@[0]);
            assert(c0@ =~= crate::model::column(rhs@, 0));
            assert(r1@ == self@[1]);
            assert(c1@ =~= crate::model::column(rhs@, 1));
            assert(r2@ == self@[2]);
            assert(c2@ =~= crate::model::column(rhs@, 2));
            assert(r3@ == self@[3]);
            assert(c3@ =~= crate::model::column(rhs@, 3));
        }
        let r = M4([
            [r0.dot(c0), r0.dot(c1), r0.dot(c2), r0.dot(c3)],
            [r1.dot(c0), r1.dot(c1), r1.dot(c2), r1.dot(c3)],
            [r2.dot(c0), r2.dot(c1), r2.dot(c2), r2.dot(c3)],
            [r3.dot(c0), r3.dot(c1), r3.dot(c2), r3.dot(c3)],
        ]);
        proof {
            assert(r@[0] =~= wrap_mat::<T>(mat_mul(self@, rhs@))[0]);
            assert(r@[1] =~= wrap_mat::<T>(mat_mul(self@, rhs@))[1]);
            assert(r@[2] =~= wrap_mat::<T>(mat_mul(self@, rhs@))[2]);
            assert(r@[3] =~= wrap_mat::<T>(mat_mul(self@, rhs@))[3]);
            assert(r@ =~= wrap_mat::<T>(mat_mul(self@, rhs@)));
        }
        r
    }
}

impl<T: Numeric> vstd::std_specs::ops::MulSpecImpl for M4<T> {
    /// Callers go by the contract of `mul` itself.
    open spec fn obeys_mul_spec() -> bool {
        false
    }

    open spec fn mul_req(self, rhs: M4<T>) -> bool {
        true
    }

    open spec fn mul_spec(self, rhs: M4<T>) -> M4<T> {
        arbitrary()
    }
}

impl<T: Numeric> Mul<V4<T>> for M4<T> {
    type Output = V4<T>;

    /// The matrix times the vector taken as a column: entry `i` is row `i` dotted with the vector.
    fn mul(self, rhs: V4<T>) -> (r: V4<T>)
        ensures
            r@ == wrap_vec::<T>(mat_vec(self@, rhs@)),
    {
        let (r0, r1, r2, r3) = self.into_rows();
        proof {
            assert(r0@ == self@[0]);
            assert(r1@ == self@[1]);
            assert(r2@ == self@[2]);
            assert(r3@ == self@[3]);
        }
        let r = V4([r0.dot(rhs), r1.dot(rhs), r2.dot(rhs), r3.dot(rhs)]);
        proof {
            assert(r@ =~= wrap_vec::<T>(mat_vec(self@, rhs@)));
        }
        r
    }
}

impl<T: Numeric> vstd::std_specs::ops::MulSpecImpl<V4<T>> for M4<T> {
    /// Callers go by the contract of `mul` itself.
    open spec fn obeys_mul_spec() -> bool {
        false
    }

    open spec fn mul_req(self, rhs: V4<T>) -> bool {
        true
    }

    open spec fn mul_spec(self, rhs: V4<T>) -> V4<T> {
        arbitrary()
    }
}

impl<T: Numeric> Div<T> for M4<T> {
    type Output = M4<T>;

    /// Every entry divided by the scalar, truncating; the scalar may not be zero.
    fn div(self, rhs: T) -> (r: M4<T>)
        ensures
            r@ == wrap_mat::<T>(mat_div_scalar(self@, rhs.value())),
    {
        let r = M4([
            [self.0[0][0].quot(rhs), self.0[0][1].quot(rhs), self.0[0][2].quot(rhs), self.0[0][3].quot(rhs)],
            [self.0[1][0].quot(rhs), self.0[1][1].quot(rhs), self.0[1][2].quot(rhs), self.0[1][3].quot(rhs)],
            [self.0[2][0].quot(rhs), self.0[2][1].quot(rhs), self.0[2][2].quot(rhs), self.0[2][3].quot(rhs)],
            [self.0[3][0].quot(rhs), self.0[3][1].quot(rhs), self.0[3][2].quot(rhs), self.0[3][3].quot(rhs)],
        ]);
        proof {
            assert(r@[0] =~= wrap_mat::<T>(mat_div_scalar(self@, rhs.value()))[0]);
            assert(r@[1] =~= wrap_mat::<T>(mat_div_scalar(self@, rhs.value()))[1]);
            assert(r@[2] =~= wrap_mat::<T>(mat_div_scalar(self@, rhs.value()))[2]);
            assert(r@[3] =~= wrap_mat::<T>(mat_div_scalar(self@, rhs.value()))[3]);
            assert(r@ =~= wrap_mat::<T>(mat_div_scalar(self@, rhs.value())));
        }
        r
    }
}

impl<T: Numeric> vstd::std_specs::ops::DivSpecImpl<T> for M4<T> {
    /// Callers go by the contract of `div` itself.
    open spec fn obeys_div_spec() -> bool {
        false
    }

    open spec fn div_req(self, rhs: T) -> bool {
        rhs.value() != 0
    }

    open spec fn div_spec(self, rhs: T) -> M4<T> {
        arbitrary()
    }
}

/// Row 0 of the adjugate of `m`, entry by entry in the closed form of `lemma_adjugate4`.
fn adjugate_row0<T: Numeric>(m: [[T; 4]; 4]) -> (r: [T; 4])
    ensures
        r[0].value() == reduce(m[1][2].value() * m[2][3].value() * m[3][1].value() - m[1][3].value() * m[2][2].value() * m[3][1].value() + m[1][3].value() * m[2][1].value() * m[3][2].value() - m[1][1].value() * m[2][3].value() * m[3][2].value() - m[1][2].value() * m[2][1].value() * m[3][3].value() + m[1][1].value() * m[2][2].value() * m[3][3].value(), T::modulus()),
        r[1].value() == reduce(m[0][3].value() * m[2][2].value() * m[3][1].value() - m[0][2].value() * m[2][3].value() * m[3][1].value() - m[0][3].value() * m[2][1].value() * m[3][2].value() + m[0][1].value() * m[2][3].value() * m[3][2].value() + m[0][2].value() * m[2][1].value() * m[3][3].value() - m[0][1].value() * m[2][2].value() * m[3][3].value(), T::modulus()),
        r[2].value() == reduce(m[0][2].value() * m[1][3].value() * m[3][1].value() - m[0][3].value() * m[1][2].value() * m[3][1].value() + m[0][3].value() * m[1][1].value() * m[3][2].value() - m[0][1].value() * m[1][3].value() * m[3][2].value() - m[0][2].value() * m[1][1].value() * m[3][3].value() + m[0][1].value() * m[1][2].value() * m[3][3].value(), T::modulus()),
        r[3].value() == reduce(m[0][3].value() * m[1][2].value() * m[2][1].value() - m[0][2].value() * m[1][3].value() * m[2][1].value() - m[0][3].value() * m[1][1].value() * m[2][2].value() + m[0][1].value() * m[1][3].value() * m[2][2].value() + m[0][2].value() * m[1][1].value() * m[2][3].value() - m[0][1].value() * m[1][2].value() * m[2][3].value(), T::modulus()),
{
    let ghost x01 = m[0][1].value();
    let ghost x02 = m[0][2].value();
    let ghost x03 = m[0][3].value();
    let ghost x11 = m[1][1].value();
    let ghost x12 = m[1][2].value();
    let ghost x13 = m[1][3].value();
    let ghost x21 = m[2][1].value();
    let ghost x22 = m[2][2].value();
    let ghost x23 = m[2][3].value();
    let ghost x31 = m[3][1].value();
    let ghost x32 = m[3][2].value();
    let ghost x33 = m[3][3].value();
    let ghost md = T::modulus();
    let c0 = m[1][2].times(m[2][3]).times(m[3][1])
        .minus(m[1][3].times(m[2][2]).times(m[3][1]))
        .plus(m[1][3].times(m[2][1]).times(m[3][2]))
        .minus(m[1][1].times(m[2][3]).times(m[3][2]))
        .minus(m[1][2].times(m[2][1]).times(m[3][3]))
        .plus(m[1][1].times(m[2][2]).times(m[3][3]));
    proof {
        lemma_reduce_mul_left(x12 * x23, x31, md);
        lemma_reduce_mul_left(x13 * x22, x31, md);
        lemma_reduce_mul_left(x13 * x21, x32, md);
        lemma_reduce_mul_left(x11 * x23, x32, md);
        lemma_reduce_mul_left(x12 * x21, x33, md);
        lemma_reduce_mul_left(x11 * x22, x33, md);
        lemma_reduce_sub_left(x12 * x23 * x31, reduce(x13 * x22 * x31, md), md);
        lemma_reduce_sub_right(x12 * x23 * x31, x13 * x22 * x31, md);
        lemma_reduce_add_left(x12 * x23 * x31 - x13 * x22 * x31, reduce(x13 * x21 * x32, md), md);
        lemma_reduce_add_right(x12 * x23 * x31 - x13 * x22 * x31, x13 * x21 * x32, md);
        lemma_reduce_sub_left(x12 * x23 * x31 - x13 * x22 * x31 + x13 * x21 * x32, reduce(x11 * x23 * x32, md), md);
        lemma_reduce_sub_right(x12 * x23 * x31 - x13 * x22 * x31 + x13 * x21 * x32, x11 * x23 * x32, md);
        lemma_reduce_sub_left(x12 * x23 * x31 - x13 * x22 * x31 + x13 * x21 * x32 - x11 * x23 * x32, reduce(x12 * x21 * x33, md), md);
        lemma_reduce_sub_right(x12 * x23 * x31 - x13 * x22 * x31 + x13 * x21 * x32 - x11 * x23 * x32, x12 * x21 * x33, md);
        lemma_reduce_add_left(x12 * x23 * x31 - x13 * x22 * x31 + x13 * x21 * x32 - x11 * x23 * x32 - x12 * x21 * x33, reduce(x11 * x22 * x33, md), md);
        lemma_reduce_add_right(x12 * x23 * x31 - x13 * x22 * x31 + x13 * x21 * x32 - x11 * x23 * x32 - x12 * x21 * x33, x11 * x22 * x33, md);
    }
    let c1 = m[0][3].times(m[2][2]).times(m[3][1])
        .minus(m[0][2].times(m[2][3]).times(m[3][1]))
        .minus(m[0][3].times(m[2][1]).times(m[3][2]))
        .plus(m[0][1].times(m[2][3]).times(m[3][2]))
        .plus(m[0][2].times(m[2][1]).times(m[3][3]))
        .minus(m[0][1].times(m[2][2]).times(m[3][3]));
    proof {
        lemma_reduce_mul_left(x03 * x22, x31, md);
        lemma_reduce_mul_left(x02 * x23, x31, md);
        lemma_reduce_mul_left(x03 * x21, x32, md);
        lemma_reduce_mul_left(x01 * x23, x32, md);
        lemma_reduce_mul_left(x02 * x21, x33, md);
        lemma_reduce_mul_left(x01 * x22, x33, md);
        lemma_reduce_sub_left(x03 * x22 * x31, reduce(x02 * x23 * x31, md), md);
        lemma_reduce_sub_right(x03 * x22 * x31, x02 * x23 * x31, md);
        lemma_reduce_sub_left(x03 * x22 * x31 - x02 * x23 * x31, reduce(x03 * x21 * x32, md), md);
        lemma_reduce_sub_right(x03 * x22 * x31 - x02 * x23 * x31, x03 * x21 * x32, md);
        lemma_reduce_add_left(x03 * x22 * x31 - x02 * x23 * x31 - x03 * x21 * x32, reduce(x01 * x23 * x32, md), md);
        lemma_reduce_add_right(x03 * x22 * x31 - x02 * x23 * x31 - x03 * x21 * x32, x01 * x23 * x32, md);
        lemma_reduce_add_left(x03 * x22 * x31 - x02 * x23 * x31 - x03 * x21 * x32 + x01 * x23 * x32, reduce(x02 * x21 * x33, md), md);
        lemma_reduce_add_right(x03 * x22 * x31 - x02 * x23 * x31 - x03 * x21 * x32 + x01 * x23 * x32, x02 * x21 * x33, md);
        lemma_reduce_sub_left(x03 * x22 * x31 - x02 * x23 * x31 - x03 * x21 * x32 + x01 * x23 * x32 + x02 * x21 * x33, reduce(x01 * x22 * x33, md), md);
        lemma_reduce_sub_right(x03 * x22 * x31 - x02 * x23 * x31 - x03 * x21 * x32 + x01 * x23 * x32 + x02 * x21 * x33, x01 * x22 * x33, md);
    }
    let c2 = m[0][2].times(m[1][3]).times(m[3][1])
        .minus(m[0][3].times(m[1][2]).times(m[3][1]))
        .plus(m[0][3].times(m[1][1]).times(m[3][2]))
        .minus(m[0][1].times(m[1][3]).times(m[3][2]))
        .minus(m[0][2].times(m[1][1]).times(m[3][3]))
        .plus(m[0][1].times(m[1][2]).times(m[3][3]));
    proof {
        lemma_reduce_mul_left(x02 * x13, x31, md);
        lemma_reduce_mul_left(x03 * x12, x31, md);
        lemma_reduce_mul_left(x03 * x11, x32, md);
        lemma_reduce_mul_left(x01 * x13, x32, md);
        lemma_reduce_mul_left(x02 * x11, x33, md);
        lemma_reduce_mul_left(x01 * x12, x33, md);
        lemma_reduce_sub_left(x02 * x13 * x31, reduce(x03 * x12 * x31, md), md);
        lemma_reduce_sub_right(x02 * x13 * x31, x03 * x12 * x31, md);
        lemma_reduce_add_left(x02 * x13 * x31 - x03 * x12 * x31, reduce(x03 * x11 * x32, md), md);
        lemma_reduce_add_right(x02 * x13 * x31 - x03 * x12 * x31, x03 * x11 * x32, md);
        lemma_reduce_sub_left(x02 * x13 * x31 - x03 * x12 * x31 + x03 * x11 * x32, reduce(x01 * x13 * x32, md), md);
        lemma_reduce_sub_right(x02 * x13 * x31 - x03 * x12 * x31 + x03 * x11 * x32, x01 * x13 * x32, md);
        lemma_reduce_sub_left(x02 * x13 * x31 - x03 * x12 * x31 + x03 * x11 * x32 - x01 * x13 * x32, reduce(x02 * x11 * x33, md), md);
        lemma_reduce_sub_right(x02 * x13 * x31 - x03 * x12 * x31 + x03 * x11 * x32 - x01 * x13 * x32, x02 * x11 * x33, md);
        lemma_reduce_add_left(x02 * x13 * x31 - x03 * x12 * x31 + x03 * x11 * x32 - x01 * x13 * x32 - x02 * x11 * x33, reduce(x01 * x12 * x33, md), md);
        lemma_reduce_add_right(x02 * x13 * x31 - x03 * x12 * x31 + x03 * x11 * x32 - x01 * x13 * x32 - x02 * x11 * x33, x01 * x12 * x33, md);
    }
    let c3 = m[0][3].times(m[1][2]).times(m[2][1])
        .minus(m[0][2].times(m[1][3]).times(m[2][1]))
        .minus(m[0][3].times(m[1][1]).times(m[2][2]))
        .plus(m[0][1].times(m[1][3]).times(m[2][2]))
        .plus(m[0][2].times(m[1][1]).times(m[2][3]))
        .minus(m[0][1].times(m[1][2]).times(m[2][3]));
    proof {
        lemma_reduce_mul_left(x03 * x12, x21, md);
        lemma_reduce_mul_left(x02 * x13, x21, md);
        lemma_reduce_mul_left(x03 * x11, x22, md);
        lemma_reduce_mul_left(x01 * x13, x22, md);
        lemma_reduce_mul_left(x02 * x11, x23, md);
        lemma_reduce_mul_left(x01 * x12, x23, md);
        lemma_reduce_sub_left(x03 * x12 * x21, reduce(x02 * x13 * x21, md), md);
        lemma_reduce_sub_right(x03 * x12 * x21, x02 * x13 * x21, md);
        lemma_reduce_sub_left(x03 * x12 * x21 - x02 * x13 * x21, reduce(x03 * x11 * x22, md), md);
        lemma_reduce_sub_right(x03 * x12 * x21 - x02 * x13 * x21, x03 * x11 * x22, md);
        lemma_reduce_add_left(x03 * x12 * x21 - x02 * x13 * x21 - x03 * x11 * x22, reduce(x01 * x13 * x22, md), md);
        lemma_reduce_add_right(x03 * x12 * x21 - x02 * x13 * x21 - x03 * x11 * x22, x01 * x13 * x22, md);
        lemma_reduce_add_left(x03 * x12 * x21 - x02 * x13 * x21 - x03 * x11 * x22 + x01 * x13 * x22, reduce(x02 * x11 * x23, md), md);
        lemma_reduce_add_right(x03 * x12 * x21 - x02 * x13 * x21 - x03 * x11 * x22 + x01 * x13 * x22, x02 * x11 * x23, md);
        lemma_reduce_sub_left(x03 * x12 * x21 - x02 * x13 * x21 - x03 * x11 * x22 + x01 * x13 * x22 + x02 * x11 * x23, reduce(x01 * x12 * x23, md), md);
        lemma_reduce_sub_right(x03 * x12 * x21 - x02 * x13 * x21 - x03 * x11 * x22 + x01 * x13 * x22 + x02 * x11 * x23, x01 * x12 * x23, md);
    }
    [c0, c1, c2, c3]
}

/// Row 1 of the adjugate of `m`, entry by entry in the closed form of `lemma_adjugate4`.
fn adjugate_row1<T: Numeric>(m: [[T; 4]; 4]) -> (r: [T; 4])
    ensures
        r[0].value() == reduce(m[1][3].value() * m[2][2].value() * m[3][0].value() - m[1][2].value() * m[2][3].value() * m[3][0].value() - m[1][3].value() * m[2][0].value() * m[3][2].value() + m[1][0].value() * m[2][3].value() * m[3][2].value() + m[1][2].value() * m[2][0].value() * m[3][3].value() - m[1][0].value() * m[2][2].value() * m[3][3].value(), T::modulus()),
        r[1].value() == reduce(m[0][2].value() * m[2][3].value() * m[3][0].value() - m[0][3].value() * m[2][2].value() * m[3][0].value() + m[0][3].value() * m[2][0].value() * m[3][2].value() - m[0][0].value() * m[2][3].value() * m[3][2].value() - m[0][2].value() * m[2][0].value() * m[3][3].value() + m[0][0].value() * m[2][2].value() * m[3][3].value(), T::modulus()),
        r[2].value() == reduce(m[0][3].value() * m[1][2].value() * m[3][0].value() - m[0][2].value() * m[1][3].value() * m[3][0].value() - m[0][3].value() * m[1][0].value() * m[3][2].value() + m[0][0].value() * m[1][3].value() * m[3][2].value() + m[0][2].value() * m[1][0].value() * m[3][3].value() - m[0][0].value() * m[1][2].value() * m[3][3].value(), T::modulus()),
        r[3].value() == reduce(m[0][2].value() * m[1][3].value() * m[2][0].value() - m[0][3].value() * m[1][2].value() * m[2][0].value() + m[0][3].value() * m[1][0].value() * m[2][2].value() - m[0][0].value() * m[1][3].value() * m[2][2].value() - m[0][2].value() * m[1][0].value() * m[2][3].value() + m[0][0].value() * m[1][2].value() * m[2][3].value(), T::modulus()),
{
    let ghost x00 = m[0][0].value();
    let ghost x02 = m[0][2].value();
    let ghost x03 = m[0][3].value();
    let ghost x10 = m[1][0].value();
    let ghost x12 = m[1][2].value();
    let ghost x13 = m[1][3].value();
    let ghost x20 = m[2][0].value();
    let ghost x22 = m[2][2].value();
    let ghost x23 = m[2][3].value();
    let ghost x30 = m[3][0].value();
    let ghost x32 = m[3][2].value();
    let ghost x33 = m[3][3].value();
    let ghost md = T::modulus();
    let c0 = m[1][3].times(m[2][2]).times(m[3][0])
        .minus(m[1][2].times(m[2][3]).times(m[3][0]))
        .minus(m[1][3].times(m[2][0]).times(m[3][2]))
        .plus(m[1][0].times(m[2][3]).times(m[3][2]))
        .plus(m[1][2].times(m[2][0]).times(m[3][3]))
        .minus(m[1][0].times(m[2][2]).times(m[3][3]));
    proof {
        lemma_reduce_mul_left(x13 * x22, x30, md);
        lemma_reduce_mul_left(x12 * x23, x30, md);
        lemma_reduce_mul_left(x13 * x20, x32, md);
        lemma_reduce_mul_left(x10 * x23, x32, md);
        lemma_reduce_mul_left(x12 * x20, x33, md);
        lemma_reduce_mul_left(x10 * x22, x33, md);
        lemma_reduce_sub_left(x13 * x22 * x30, reduce(x12 * x23 * x30, md), md);
        lemma_reduce_sub_right(x13 * x22 * x30, x12 * x23 * x30, md);
        lemma_reduce_sub_left(x13 * x22 * x30 - x12 * x23 * x30, reduce(x13 * x20 * x32, md), md);
        lemma_reduce_sub_right(x13 * x22 * x30 - x12 * x23 * x30, x13 * x20 * x32, md);
        lemma_reduce_add_left(x13 * x22 * x30 - x12 * x23 * x30 - x13 * x20 * x32, reduce(x10 * x23 * x32, md), md);
        lemma_reduce_add_right(x13 * x22 * x30 - x12 * x23 * x30 - x13 * x20 * x32, x10 * x23 * x32, md);
        lemma_reduce_add_left(x13 * x22 * x30 - x12 * x23 * x30 - x13 * x20 * x32 + x10 * x23 * x32, reduce(x12 * x20 * x33, md), md);
        lemma_reduce_add_right(x13 * x22 * x30 - x12 * x23 * x30 - x13 * x20 * x32 + x10 * x23 * x32, x12 * x20 * x33, md);
        lemma_reduce_sub_left(x13 * x22 * x30 - x12 * x23 * x30 - x13 * x20 * x32 + x10 * x23 * x32 + x12 * x20 * x33, reduce(x10 * x22 * x33, md), md);
        lemma_reduce_sub_right(x13 * x22 * x30 - x12 * x23 * x30 - x13 * x20 * x32 + x10 * x23 * x32 + x12 * x20 * x33, x10 * x22 * x33, md);
    }
    let c1 = m[0][2].times(m[2][3]).times(m[3][0])
        .minus(m[0][3].times(m[2][2]).times(m[3][0]))
        .plus(m[0][3].times(m[2][0]).times(m[3][2]))
        .minus(m[0][0].times(m[2][3]).times(m[3][2]))
        .minus(m[0][2].times(m[2][0]).times(m[3][3]))
        .plus(m[0][0].times(m[2][2]).times(m[3][3]));
    proof {
        lemma_reduce_mul_left(x02 * x23, x30, md);
        lemma_reduce_mul_left(x03 * x22, x30, md);
        lemma_reduce_mul_left(x03 * x20, x32, md);
        lemma_reduce_mul_left(x00 * x23, x32, md);
        lemma_reduce_mul_left(x02 * x20, x33, md);
        lemma_reduce_mul_left(x00 * x22, x33, md);
        lemma_reduce_sub_left(x02 * x23 * x30, reduce(x03 * x22 * x30, md), md);
        lemma_reduce_sub_right(x02 * x23 * x30, x03 * x22 * x30, md);
        lemma_reduce_add_left(x02 * x23 * x30 - x03 * x22 * x30, reduce(x03 * x20 * x32, md), md);
        lemma_reduce_add_right(x02 * x23 * x30 - x03 * x22 * x30, x03 * x20 * x32, md);
        lemma_reduce_sub_left(x02 * x23 * x30 - x03 * x22 * x30 + x03 * x20 * x32, reduce(x00 * x23 * x32, md), md);
        lemma_reduce_sub_right(x02 * x23 * x30 - x03 * x22 * x30 + x03 * x20 * x32, x00 * x23 * x32, md);
        lemma_reduce_sub_left(x02 * x23 * x30 - x03 * x22 * x30 + x03 * x20 * x32 - x00 * x23 * x32, reduce(x02 * x20 * x33, md), md);
        lemma_reduce_sub_right(x02 * x23 * x30 - x03 * x22 * x30 + x03 * x20 * x32 - x00 * x23 * x32, x02 * x20 * x33, md);
        lemma_reduce_add_left(x02 * x23 * x30 - x03 * x22 * x30 + x03 * x20 * x32 - x00 * x23 * x32 - x02 * x20 * x33, reduce(x00 * x22 * x33, md), md);
        lemma_reduce_add_right(x02 * x23 * x30 - x03 * x22 * x30 + x03 * x20 * x32 - x00 * x23 * x32 - x02 * x20 * x33, x00 * x22 * x33, md);
    }
    let c2 = m[0][3].times(m[1][2]).times(m[3][0])
        .minus(m[0][2].times(m[1][3]).times(m[3][0]))
        .minus(m[0][3].times(m[1][0]).times(m[3][2]))
        .plus(m[0][0].times(m[1][3]).times(m[3][2]))
        .plus(m[0][2].times(m[1][0]).times(m[3][3]))
        .minus(m[0][0].times(m[1][2]).times(m[3][3]));
    proof {
        lemma_reduce_mul_left(x03 * x12, x30, md);
        lemma_reduce_mul_left(x02 * x13, x30, md);
        lemma_reduce_mul_left(x03 * x10, x32, md);
        lemma_reduce_mul_left(x00 * x13, x32, md);
        lemma_reduce_mul_left(x02 * x10, x33, md);
        lemma_reduce_mul_left(x00 * x12, x33, md);
        lemma_reduce_sub_left(x03 * x12 * x30, reduce(x02 * x13 * x30, md), md);
        lemma_reduce_sub_right(x03 * x12 * x30, x02 * x13 * x30, md);
        lemma_reduce_sub_left(x03 * x12 * x30 - x02 * x13 * x30, reduce(x03 * x10 * x32, md), md);
        lemma_reduce_sub_right(x03 * x12 * x30 - x02 * x13 * x30, x03 * x10 * x32, md);
        lemma_reduce_add_left(x03 * x12 * x30 - x02 * x13 * x30 - x03 * x10 * x32, reduce(x00 * x13 * x32, md), md);
        lemma_reduce_add_right(x03 * x12 * x30 - x02 * x13 * x30 - x03 * x10 * x32, x00 * x13 * x32, md);
        lemma_reduce_add_left(x03 * x12 * x30 - x02 * x13 * x30 - x03 * x10 * x32 + x00 * x13 * x32, reduce(x02 * x10 * x33, md), md);
        lemma_reduce_add_right(x03 * x12 * x30 - x02 * x13 * x30 - x03 * x10 * x32 + x00 * x13 * x32, x02 * x10 * x33, md);
        lemma_reduce_sub_left(x03 * x12 * x30 - x02 * x13 * x30 - x03 * x10 * x32 + x00 * x13 * x32 + x02 * x10 * x33, reduce(x00 * x12 * x33, md), md);
        lemma_reduce_sub_right(x03 * x12 * x30 - x02 * x13 * x30 - x03 * x10 * x32 + x00 * x13 * x32 + x02 * x10 * x33, x00 * x12 * x33, md);
    }
    let c3 = m[0][2].times(m[1][3]).times(m[2][0])
        .minus(m[0][3].times(m[1][2]).times(m[2][0]))
        .plus(m[0][3].times(m[1][0]).times(m[2][2]))
        .minus(m[0][0].times(m[1][3]).times(m[2][2]))
        .minus(m[0][2].times(m[1][0]).times(m[2][3]))
        .plus(m[0][0].times(m[1][2]).times(m[2][3]));
    proof {
        lemma_reduce_mul_left(x02 * x13, x20, md);
        lemma_reduce_mul_left(x03 * x12, x20, md);
        lemma_reduce_mul_left(x03 * x10, x22, md);
        lemma_reduce_mul_left(x00 * x13, x22, md);
        lemma_reduce_mul_left(x02 * x10, x23, md);
        lemma_reduce_mul_left(x00 * x12, x23, md);
        lemma_reduce_sub_left(x02 * x13 * x20, reduce(x03 * x12 * x20, md), md);
        lemma_reduce_sub_right(x02 * x13 * x20, x03 * x12 * x20, md);
        lemma_reduce_add_left(x02 * x13 * x20 - x03 * x12 * x20, reduce(x03 * x10 * x22, md), md);
        lemma_reduce_add_right(x02 * x13 * x20 - x03 * x12 * x20, x03 * x10 * x22, md);
        lemma_reduce_sub_left(x02 * x13 * x20 - x03 * x12 * x20 + x03 * x10 * x22, reduce(x00 * x13 * x22, md), md);
        lemma_reduce_sub_right(x02 * x13 * x20 - x03 * x12 * x20 + x03 * x10 * x22, x00 * x13 * x22, md);
        lemma_reduce_sub_left(x02 * x13 * x20 - x03 * x12 * x20 + x03 * x10 * x22 - x00 * x13 * x22, reduce(x02 * x10 * x23, md), md);
        lemma_reduce_sub_right(x02 * x13 * x20 - x03 * x12 * x20 + x03 * x10 * x22 - x00 * x13 * x22, x02 * x10 * x23, md);
        lemma_reduce_add_left(x02 * x13 * x20 - x03 * x12 * x20 + x03 * x10 * x22 - x00 * x13 * x22 - x02 * x10 * x23, reduce(x00 * x12 * x23, md), md);
        lemma_reduce_add_right(x02 * x13 * x20 - x03 * x12 * x20 + x03 * x10 * x22 - x00 * x13 * x22 - x02 * x10 * x23, x00 * x12 * x23, md);
    }
    [c0, c1, c2, c3]
}

/// Row 2 of the adjugate of `m`, entry by entry in the closed form of `lemma_adjugate4`.
fn adjugate_row2<T: Numeric>(m: [[T; 4]; 4]) -> (r: [T; 4])
    ensures
        r[0].value() == reduce(m[1][1].value() * m[2][3].value() * m[3][0].value() - m[1][3].value() * m[2][1].value() * m[3][0].value() + m[1][3].value() * m[2][0].value() * m[3][1].value() - m[1][0].value() * m[2][3].value() * m[3][1].value() - m[1][1].value() * m[2][0].value() * m[3][3].value() + m[1][0].value() * m[2][1].value() * m[3][3].value(), T::modulus()),
        r[1].value() == reduce(m[0][3].value() * m[2][1].value() * m[3][0].value() - m[0][1].value() * m[2][3].value() * m[3][0].value() - m[0][3].value() * m[2][0].value() * m[3][1].value() + m[0][0].value() * m[2][3].value() * m[3][1].value() + m[0][1].value() * m[2][0].value() * m[3][3].value() - m[0][0].value() * m[2][1].value() * m[3][3].value(), T::modulus()),
        r[2].value() == reduce(m[0][1].value() * m[1][3].value() * m[3][0].value() - m[0][3].value() * m[1][1].value() * m[3][0].value() + m[0][3].value() * m[1][0].value() * m[3][1].value() - m[0][0].value() * m[1][3].value() * m[3][1].value() - m[0][1].value() * m[1][0].value() * m[3][3].value() + m[0][0].value() * m[1][1].value() * m[3][3].value(), T::modulus()),
        r[3].value() == reduce(m[0][3].value() * m[1][1].value() * m[2][0].value() - m[0][1].value() * m[1][3].value() * m[2][0].value() - m[0][3].value() * m[1][0].value() * m[2][1].value() + m[0][0].value() * m[1][3].value() * m[2][1].value() + m[0][1].value() * m[1][0].value() * m[2][3].value() - m[0][0].value() * m[1][1].value() * m[2][3].value(), T::modulus()),
{
    let ghost x00 = m[0][0].value();
    let ghost x01 = m[0][1].value();
    let ghost x03 = m[0][3].value();
    let ghost x10 = m[1][0].value();
    let ghost x11 = m[1][1].value();
    let ghost x13 = m[1][3].value();
    let ghost x20 = m[2][0].value();
    let ghost x21 = m[2][1].value();
    let ghost x23 = m[2][3].value();
    let ghost x30 = m[3][0].value();
    let ghost x31 = m[3][1].value();
    let ghost x33 = m[3][3].value();
    let ghost md = T::modulus();
    let c0 = m[1][1].times(m[2][3]).times(m[3][0])
        .minus(m[1][3].times(m[2][1]).times(m[3][0]))
        .plus(m[1][3].times(m[2][0]).times(m[3][1]))
        .minus(m[1][0].times(m[2][3]).times(m[3][1]))
        .minus(m[1][1].times(m[2][0]).times(m[3][3]))
        .plus(m[1][0].times(m[2][1]).times(m[3][3]));
    proof {
        lemma_reduce_mul_left(x11 * x23, x30, md);
        lemma_reduce_mul_left(x13 * x21, x30, md);
        lemma_reduce_mul_left(x13 * x20, x31, md);
        lemma_reduce_mul_left(x10 * x23, x31, md);
        lemma_reduce_mul_left(x11 * x20, x33, md);
        lemma_reduce_mul_left(x10 * x21, x33, md);
        lemma_reduce_sub_left(x11 * x23 * x30, reduce(x13 * x21 * x30, md), md);
        lemma_reduce_sub_right(x11 * x23 * x30, x13 * x21 * x30, md);
        lemma_reduce_add_left(x11 * x23 * x30 - x13 * x21 * x30, reduce(x13 * x20 * x31, md), md);
        lemma_reduce_add_right(x11 * x23 * x30 - x13 * x21 * x30, x13 * x20 * x31, md);
        lemma_reduce_sub_left(x11 * x23 * x30 - x13 * x21 * x30 + x13 * x20 * x31, reduce(x10 * x23 * x31, md), md);
        lemma_reduce_sub_right(x11 * x23 * x30 - x13 * x21 * x30 + x13 * x20 * x31, x10 * x23 * x31, md);
        lemma_reduce_sub_left(x11 * x23 * x30 - x13 * x21 * x30 + x13 * x20 * x31 - x10 * x23 * x31, reduce(x11 * x20 * x33, md), md);
        lemma_reduce_sub_right(x11 * x23 * x30 - x13 * x21 * x30 + x13 * x20 * x31 - x10 * x23 * x31, x11 * x20 * x33, md);
        lemma_reduce_add_left(x11 * x23 * x30 - x13 * x21 * x30 + x13 * x20 * x31 - x10 * x23 * x31 - x11 * x20 * x33, reduce(x10 * x21 * x33, md), md);
        lemma_reduce_add_right(x11 * x23 * x30 - x13 * x21 * x30 + x13 * x20 * x31 - x10 * x23 * x31 - x11 * x20 * x33, x10 * x21 * x33, md);
    }
    let c1 = m[0][3].times(m[2][1]).times(m[3][0])
        .minus(m[0][1].times(m[2][3]).times(m[3][0]))
        .minus(m[0][3].times(m[2][0]).times(m[3][1]))
        .plus(m[0][0].times(m[2][3]).times(m[3][1]))
        .plus(m[0][1].times(m[2][0]).times(m[3][3]))
        .minus(m[0][0].times(m[2][1]).times(m[3][3]));
    proof {
        lemma_reduce_mul_left(x03 * x21, x30, md);
        lemma_reduce_mul_left(x01 * x23, x30, md);
        lemma_reduce_mul_left(x03 * x20, x31, md);
        lemma_reduce_mul_left(x00 * x23, x31, md);
        lemma_reduce_mul_left(x01 * x20, x33, md);
        lemma_reduce_mul_left(x00 * x21, x33, md);
        lemma_reduce_sub_left(x03 * x21 * x30, reduce(x01 * x23 * x30, md), md);
        lemma_reduce_sub_right(x03 * x21 * x30, x01 * x23 * x30, md);
        lemma_reduce_sub_left(x03 * x21 * x30 - x01 * x23 * x30, reduce(x03 * x20 * x31, md), md);
        lemma_reduce_sub_right(x03 * x21 * x30 - x01 * x23 * x30, x03 * x20 * x31, md);
        lemma_reduce_add_left(x03 * x21 * x30 - x01 * x23 * x30 - x03 * x20 * x31, reduce(x00 * x23 * x31, md), md);
        lemma_reduce_add_right(x03 * x21 * x30 - x01 * x23 * x30 - x03 * x20 * x31, x00 * x23 * x31, md);
        lemma_reduce_add_left(x03 * x21 * x30 - x01 * x23 * x30 - x03 * x20 * x31 + x00 * x23 * x31, reduce(x01 * x20 * x33, md), md);
        lemma_reduce_add_right(x03 * x21 * x30 - x01 * x23 * x30 - x03 * x20 * x31 + x00 * x23 * x31, x01 * x20 * x33, md);
        lemma_reduce_sub_left(x03 * x21 * x30 - x01 * x23 * x30 - x03 * x20 * x31 + x00 * x23 * x31 + x01 * x20 * x33, reduce(x00 * x21 * x33, md), md);
        lemma_reduce_sub_right(x03 * x21 * x30 - x01 * x23 * x30 - x03 * x20 * x31 + x00 * x23 * x31 + x01 * x20 * x33, x00 * x21 * x33, md);
    }
    let c2 = m[0][1].times(m[1][3]).times(m[3][0])
        .minus(m[0][3].times(m[1][1]).times(m[3][0]))
        .plus(m[0][3].times(m[1][0]).times(m[3][1]))
        .minus(m[0][0].times(m[1][3]).times(m[3][1]))
        .minus(m[0][1].times(m[1][0]).times(m[3][3]))
        .plus(m[0][0].times(m[1][1]).times(m[3][3]));
    proof {
        lemma_reduce_mul_left(x01 * x13, x30, md);
        lemma_reduce_mul_left(x03 * x11, x30, md);
        lemma_reduce_mul_left(x03 * x10, x31, md);
        lemma_reduce_mul_left(x00 * x13, x31, md);
        lemma_reduce_mul_left(x01 * x10, x33, md);
        lemma_reduce_mul_left(x00 * x11, x33, md);
        lemma_reduce_sub_left(x01 * x13 * x30, reduce(x03 * x11 * x30, md), md);
        lemma_reduce_sub_right(x01 * x13 * x30, x03 * x11 * x30, md);
        lemma_reduce_add_left(x01 * x13 * x30 - x03 * x11 * x30, reduce(x03 * x10 * x31, md), md);
        lemma_reduce_add_right(x01 * x13 * x30 - x03 * x11 * x30, x03 * x10 * x31, md);
        lemma_reduce_sub_left(x01 * x13 * x30 - x03 * x11 * x30 + x03 * x10 * x31, reduce(x00 * x13 * x31, md), md);
        lemma_reduce_sub_right(x01 * x13 * x30 - x03 * x11 * x30 + x03 * x10 * x31, x00 * x13 * x31, md);
        lemma_reduce_sub_left(x01 * x13 * x30 - x03 * x11 * x30 + x03 * x10 * x31 - x00 * x13 * x31, reduce(x01 * x10 * x33, md), md);
        lemma_reduce_sub_right(x01 * x13 * x30 - x03 * x11 * x30 + x03 * x10 * x31 - x00 * x13 * x31, x01 * x10 * x33, md);
        lemma_reduce_add_left(x01 * x13 * x30 - x03 * x11 * x30 + x03 * x10 * x31 - x00 * x13 * x31 - x01 * x10 * x33, reduce(x00 * x11 * x33, md), md);
        lemma_reduce_add_right(x01 * x13 * x30 - x03 * x11 * x30 + x03 * x10 * x31 - x00 * x13 * x31 - x01 * x10 * x33, x00 * x11 * x33, md);
    }
    let c3 = m[0][3].times(m[1][1]).times(m[2][0])
        .minus(m[0][1].times(m[1][3]).times(m[2][0]))
        .minus(m[0][3].times(m[1][0]).times(m[2][1]))
        .plus(m[0][0].times(m[1][3]).times(m[2][1]))
        .plus(m[0][1].times(m[1][0]).times(m[2][3]))
        .minus(m[0][0].times(m[1][1]).times(m[2][3]));
    proof {
        lemma_reduce_mul_left(x03 * x11, x20, md);
        lemma_reduce_mul_left(x01 * x13, x20, md);
        lemma_reduce_mul_left(x03 * x10, x21, md);
        lemma_reduce_mul_left(x00 * x13, x21, md);
        lemma_reduce_mul_left(x01 * x10, x23, md);
        lemma_reduce_mul_left(x00 * x11, x23, md);
        lemma_reduce_sub_left(x03 * x11 * x20, reduce(x01 * x13 * x20, md), md);
        lemma_reduce_sub_right(x03 * x11 * x20, x01 * x13 * x20, md);
        lemma_reduce_sub_left(x03 * x11 * x20 - x01 * x13 * x20, reduce(x03 * x10 * x21, md), md);
        lemma_reduce_sub_right(x03 * x11 * x20 - x01 * x13 * x20, x03 * x10 * x21, md);
        lemma_reduce_add_left(x03 * x11 * x20 - x01 * x13 * x20 - x03 * x10 * x21, reduce(x00 * x13 * x21, md), md);
        lemma_reduce_add_right(x03 * x11 * x20 - x01 * x13 * x20 - x03 * x10 * x21, x00 * x13 * x21, md);
        lemma_reduce_add_left(x03 * x11 * x20 - x01 * x13 * x20 - x03 * x10 * x21 + x00 * x13 * x21, reduce(x01 * x10 * x23, md), md);
        lemma_reduce_add_right(x03 * x11 * x20 - x01 * x13 * x20 - x03 * x10 * x21 + x00 * x13 * x21, x01 * x10 * x23, md);
        lemma_reduce_sub_left(x03 * x11 * x20 - x01 * x13 * x20 - x03 * x10 * x21 + x00 * x13 * x21 + x01 * x10 * x23, reduce(x00 * x11 * x23, md), md);
        lemma_reduce_sub_right(x03 * x11 * x20 - x01 * x13 * x20 - x03 * x10 * x21 + x00 * x13 * x21 + x01 * x10 * x23, x00 * x11 * x23, md);
    }
    [c0, c1, c2, c3]
}

/// Row 3 of the adjugate of `m`, entry by entry in the closed form of `lemma_adjugate4`.
fn adjugate_row3<T: Numeric>(m: [[T; 4]; 4]) -> (r: [T; 4])
    ensures
        r[0].value() == reduce(m[1][2].value() * m[2][1].value() * m[3][0].value() - m[1][1].value() * m[2][2].value() * m[3][0].value() - m[1][2].value() * m[2][0].value() * m[3][1].value() + m[1][0].value() * m[2][2].value() * m[3][1].value() + m[1][1].value() * m[2][0].value() * m[3][2].value() - m[1][0].value() * m[2][1].value() * m[3][2].value(), T::modulus()),
        r[1].value() == reduce(m[0][1].value() * m[2][2].value() * m[3][0].value() - m[0][2].value() * m[2][1].value() * m[3][0].value() + m[0][2].value() * m[2][0].value() * m[3][1].value() - m[0][0].value() * m[2][2].value() * m[3][1].value() - m[0][1].value() * m[2][0].value() * m[3][2].value() + m[0][0].value() * m[2][1].value() * m[3][2].value(), T::modulus()),
        r[2].value() == reduce(m[0][2].value() * m[1][1].value() * m[3][0].value() - m[0][1].value() * m[1][2].value() * m[3][0].value() - m[0][2].value() * m[1][0].value() * m[3][1].value() + m[0][0].value() * m[1][2].value() * m[3][1].value() + m[0][1].value() * m[1][0].value() * m[3][2].value() - m[0][0].value() * m[1][1].value() * m[3][2].value(), T::modulus()),
        r[3].value() == reduce(m[0][1].value() * m[1][2].value() * m[2][0].value() - m[0][2].value() * m[1][1].value() * m[2][0].value() + m[0][2].value() * m[1][0].value() * m[2][1].value() - m[0][0].value() * m[1][2].value() * m[2][1].value() - m[0][1].value() * m[1][0].value() * m[2][2].value() + m[0][0].value() * m[1][1].value() * m[2][2].value(), T::modulus()),
{
    let ghost x00 = m[0][0].value();
    let ghost x01 = m[0][1].value();
    let ghost x02 = m[0][2].value();
    let ghost x10 = m[1][0].value();
    let ghost x11 = m[1][1].value();
    let ghost x12 = m[1][2].value();
    let ghost x20 = m[2][0].value();
    let ghost x21 = m[2][1].value();
    let ghost x22 = m[2][2].value();
    let ghost x30 = m[3][0].value();
    let ghost x31 = m[3][1].value();
    let ghost x32 = m[3][2].value();
    let ghost md = T::modulus();
    let c0 = m[1][2].times(m[2][1]).times(m[3][0])
        .minus(m[1][1].times(m[2][2]).times(m[3][0]))
        .minus(m[1][2].times(m[2][0]).times(m[3][1]))
        .plus(m[1][0].times(m[2][2]).times(m[3][1]))
        .plus(m[1][1].times(m[2][0]).times(m[3][2]))
        .minus(m[1][0].times(m[2][1]).times(m[3][2]));
    proof {
        lemma_reduce_mul_left(x12 * x21, x30, md);
        lemma_reduce_mul_left(x11 * x22, x30, md);
        lemma_reduce_mul_left(x12 * x20, x31, md);
        lemma_reduce_mul_left(x10 * x22, x31, md);
        lemma_reduce_mul_left(x11 * x20, x32, md);
        lemma_reduce_mul_left(x10 * x21, x32, md);
        lemma_reduce_sub_left(x12 * x21 * x30, reduce(x11 * x22 * x30, md), md);
        lemma_reduce_sub_right(x12 * x21 * x30, x11 * x22 * x30, md);
        lemma_reduce_sub_left(x12 * x21 * x30 - x11 * x22 * x30, reduce(x12 * x20 * x31, md), md);
        lemma_reduce_sub_right(x12 * x21 * x30 - x11 * x22 * x30, x12 * x20 * x31, md);
        lemma_reduce_add_left(x12 * x21 * x30 - x11 * x22 * x30 - x12 * x20 * x31, reduce(x10 * x22 * x31, md), md);
        lemma_reduce_add_right(x12 * x21 * x30 - x11 * x22 * x30 - x12 * x20 * x31, x10 * x22 * x31, md);
        lemma_reduce_add_left(x12 * x21 * x30 - x11 * x22 * x30 - x12 * x20 * x31 + x10 * x22 * x31, reduce(x11 * x20 * x32, md), md);
        lemma_reduce_add_right(x12 * x21 * x30 - x11 * x22 * x30 - x12 * x20 * x31 + x10 * x22 * x31, x11 * x20 * x32, md);
        lemma_reduce_sub_left(x12 * x21 * x30 - x11 * x22 * x30 - x12 * x20 * x31 + x10 * x22 * x31 + x11 * x20 * x32, reduce(x10 * x21 * x32, md), md);
        lemma_reduce_sub_right(x12 * x21 * x30 - x11 * x22 * x30 - x12 * x20 * x31 + x10 * x22 * x31 + x11 * x20 * x32, x10 * x21 * x32, md);
    }
    let c1 = m[0][1].times(m[2][2]).times(m[3][0])
        .minus(m[0][2].times(m[2][1]).times(m[3][0]))
        .plus(m[0][2].times(m[2][0]).times(m[3][1]))
        .minus(m[0][0].times(m[2][2]).times(m[3][1]))
        .minus(m[0][1].times(m[2][0]).times(m[3][2]))
        .plus(m[0][0].times(m[2][1]).times(m[3][2]));
    proof {
        lemma_reduce_mul_left(x01 * x22, x30, md);
        lemma_reduce_mul_left(x02 * x21, x30, md);
        lemma_reduce_mul_left(x02 * x20, x31, md);
        lemma_reduce_mul_left(x00 * x22, x31, md);
        lemma_reduce_mul_left(x01 * x20, x32, md);
        lemma_reduce_mul_left(x00 * x21, x32, md);
        lemma_reduce_sub_left(x01 * x22 * x30, reduce(x02 * x21 * x30, md), md);
        lemma_reduce_sub_right(x01 * x22 * x30, x02 * x21 * x30, md);
        lemma_reduce_add_left(x01 * x22 * x30 - x02 * x21 * x30, reduce(x02 * x20 * x31, md), md);
        lemma_reduce_add_right(x01 * x22 * x30 - x02 * x21 * x30, x02 * x20 * x31, md);
        lemma_reduce_sub_left(x01 * x22 * x30 - x02 * x21 * x30 + x02 * x20 * x31, reduce(x00 * x22 * x31, md), md);
        lemma_reduce_sub_right(x01 * x22 * x30 - x02 * x21 * x30 + x02 * x20 * x31, x00 * x22 * x31, md);
        lemma_reduce_sub_left(x01 * x22 * x30 - x02 * x21 * x30 + x02 * x20 * x31 - x00 * x22 * x31, reduce(x01 * x20 * x32, md), md);
        lemma_reduce_sub_right(x01 * x22 * x30 - x02 * x21 * x30 + x02 * x20 * x31 - x00 * x22 * x31, x01 * x20 * x32, md);
        lemma_reduce_add_left(x01 * x22 * x30 - x02 * x21 * x30 + x02 * x20 * x31 - x00 * x22 * x31 - x01 * x20 * x32, reduce(x00 * x21 * x32, md), md);
        lemma_reduce_add_right(x01 * x22 * x30 - x02 * x21 * x30 + x02 * x20 * x31 - x00 * x22 * x31 - x01 * x20 * x32, x00 * x21 * x32, md);
    }
    let c2 = m[0][2].times(m[1][1]).times(m[3][0])
        .minus(m[0][1].times(m[1][2]).times(m[3][0]))
        .minus(m[0][2].times(m[1][0]).times(m[3][1]))
        .plus(m[0][0].times(m[1][2]).times(m[3][1]))
        .plus(m[0][1].times(m[1][0]).times(m[3][2]))
        .minus(m[0][0].times(m[1][1]).times(m[3][2]));
    proof {
        lemma_reduce_mul_left(x02 * x11, x30, md);
        lemma_reduce_mul_left(x01 * x12, x30, md);
        lemma_reduce_mul_left(x02 * x10, x31, md);
        lemma_reduce_mul_left(x00 * x12, x31, md);
        lemma_reduce_mul_left(x01 * x10, x32, md);
        lemma_reduce_mul_left(x00 * x11, x32, md);
        lemma_reduce_sub_left(x02 * x11 * x30, reduce(x01 * x12 * x30, md), md);
        lemma_reduce_sub_right(x02 * x11 * x30, x01 * x12 * x30, md);
        lemma_reduce_sub_left(x02 * x11 * x30 - x01 * x12 * x30, reduce(x02 * x10 * x31, md), md);
        lemma_reduce_sub_right(x02 * x11 * x30 - x01 * x12 * x30, x02 * x10 * x31, md);
        lemma_reduce_add_left(x02 * x11 * x30 - x01 * x12 * x30 - x02 * x10 * x31, reduce(x00 * x12 * x31, md), md);
        lemma_reduce_add_right(x02 * x11 * x30 - x01 * x12 * x30 - x02 * x10 * x31, x00 * x12 * x31, md);
        lemma_reduce_add_left(x02 * x11 * x30 - x01 * x12 * x30 - x02 * x10 * x31 + x00 * x12 * x31, reduce(x01 * x10 * x32, md), md);
        lemma_reduce_add_right(x02 * x11 * x30 - x01 * x12 * x30 - x02 * x10 * x31 + x00 * x12 * x31, x01 * x10 * x32, md);
        lemma_reduce_sub_left(x02 * x11 * x30 - x01 * x12 * x30 - x02 * x10 * x31 + x00 * x12 * x31 + x01 * x10 * x32, reduce(x00 * x11 * x32, md), md);
        lemma_reduce_sub_right(x02 * x11 * x30 - x01 * x12 * x30 - x02 * x10 * x31 + x00 * x12 * x31 + x01 * x10 * x32, x00 * x11 * x32, md);
    }
    let c3 = m[0][1].times(m[1][2]).times(m[2][0])
        .minus(m[0][2].times(m[1][1]).times(m[2][0]))
        .plus(m[0][2].times(m[1][0]).times(m[2][1]))
        .minus(m[0][0].times(m[1][2]).times(m[2][1]))
        .minus(m[0][1].times(m[1][0]).times(m[2][2]))
        .plus(m[0][0].times(m[1][1]).times(m[2][2]));
    proof {
        lemma_reduce_mul_left(x01 * x12, x20, md);
        lemma_reduce_mul_left(x02 * x11, x20, md);
        lemma_reduce_mul_left(x02 * x10, x21, md);
        lemma_reduce_mul_left(x00 * x12, x21, md);
        lemma_reduce_mul_left(x01 * x10, x22, md);
        lemma_reduce_mul_left(x00 * x11, x22, md);
        lemma_reduce_sub_left(x01 * x12 * x20, reduce(x02 * x11 * x20, md), md);
        lemma_reduce_sub_right(x01 * x12 * x20, x02 * x11 * x20, md);
        lemma_reduce_add_left(x01 * x12 * x20 - x02 * x11 * x20, reduce(x02 * x10 * x21, md), md);
        lemma_reduce_add_right(x01 * x12 * x20 - x02 * x11 * x20, x02 * x10 * x21, md);
        lemma_reduce_sub_left(x01 * x12 * x20 - x02 * x11 * x20 + x02 * x10 * x21, reduce(x00 * x12 * x21, md), md);
        lemma_reduce_sub_right(x01 * x12 * x20 - x02 * x11 * x20 + x02 * x10 * x21, x00 * x12 * x21, md);
        lemma_reduce_sub_left(x01 * x12 * x20 - x02 * x11 * x20 + x02 * x10 * x21 - x00 * x12 * x21, reduce(x01 * x10 * x22, md), md);
        lemma_reduce_sub_right(x01 * x12 * x20 - x02 * x11 * x20 + x02 * x10 * x21 - x00 * x12 * x21, x01 * x10 * x22, md);
        lemma_reduce_add_left(x01 * x12 * x20 - x02 * x11 * x20 + x02 * x10 * x21 - x00 * x12 * x21 - x01 * x10 * x22, reduce(x00 * x11 * x22, md), md);
        lemma_reduce_add_right(x01 * x12 * x20 - x02 * x11 * x20 + x02 * x10 * x21 - x00 * x12 * x21 - x01 * x10 * x22, x00 * x11 * x22, md);
    }
    [c0, c1, c2, c3]
}

} // verus!
