use crate::expansion::{lemma_adjugate3, lemma_det3};
use crate::matrix::{FloatMatrix, FromVectors, IntoVectors, Matrix, M3};
use crate::model::{
    adjugate, mat_add, mat_div_scalar, mat_mul, mat_sub, mat_vec, transpose, wrap_mat, wrap_vec,
};
use crate::numeric::{
    lemma_reduce_add_left, lemma_reduce_add_right, lemma_reduce_mul_left, lemma_reduce_sub_left,
    lemma_reduce_sub_right, reduce, Numeric,
};
use crate::vector::{Vector, V3};
use std::ops::{Add, Div, Mul, Sub};
use vstd::prelude::*;

verus! {

impl<T: Numeric> IntoVectors<(V3<T>, V3<T>, V3<T>)> for M3<T> {
    /// The columns, left to right.
    fn into_cols(&self) -> (r: (V3<T>, V3<T>, V3<T>))
        ensures
            seq![r.0@, r.1@, r.2@] == transpose(self@),
    {
        let m = self.0;
        let r = (
            V3([m[0][0], m[1][0], m[2][0]]),
            V3([m[0][1], m[1][1], m[2][1]]),
            V3([m[0][2], m[1][2], m[2][2]]),
        );
        assert(seq![r.0@, r.1@, r.2@] =~~= transpose(self@));
        r
    }

    /// The rows, top to bottom.
    fn into_rows(&self) -> (r: (V3<T>, V3<T>, V3<T>))
        ensures
            seq![r.0@, r.1@, r.2@] == self@,
    {
        let m = self.0;
        let r = (V3(m[0]), V3(m[1]), V3(m[2]));
        assert(seq![r.0@, r.1@, r.2@] =~~= self@);
        r
    }
}

impl<T: Numeric> FromVectors<(V3<T>, V3<T>, V3<T>)> for M3<T> {
    /// The matrix whose columns are the given vectors.
    fn from_cols(v: (V3<T>, V3<T>, V3<T>)) -> (r: Self)
        ensures
            r@ == transpose(seq![v.0@, v.1@, v.2@]),
    {
        let r = M3([
            [v.0.0[0], v.1.0[0], v.2.0[0]],
            [v.0.0[1], v.1.0[1], v.2.0[1]],
            [v.0.0[2], v.1.0[2], v.2.0[2]],
        ]);
        assert(r@ =~~= transpose(seq![v.0@, v.1@, v.2@]));
        r
    }

    /// The matrix whose rows are the given vectors.
    fn from_rows(v: (V3<T>, V3<T>, V3<T>)) -> (r: Self)
        ensures
            r@ == seq![v.0@, v.1@, v.2@],
    {
        let r = M3([v.0.0, v.1.0, v.2.0]);
        assert(r@ =~~= seq![v.0@, v.1@, v.2@]);
        r
    }
}

impl<T: Numeric> Matrix for M3<T> {
    fn transpose(&mut self) {
        let t = self.0[0][1];
        self.0[0][1] = self.0[1][0];
        self.0[1][0] = t;
        let t = self.0[0][2];
        self.0[0][2] = self.0[2][0];
        self.0[2][0] = t;
        let t = self.0[1][2];
        self.0[1][2] = self.0[2][1];
        self.0[2][1] = t;
        assert(self@ =~~= transpose(old(self)@));
    }
}

impl<T: Numeric> FloatMatrix<T> for M3<T> {
    fn determinant(&self) -> (r: T) {
        let m = self.0;
        let ghost x00 = m[0][0].value();
        let ghost x01 = m[0][1].value();
        let ghost x02 = m[0][2].value();
        let ghost x10 = m[1][0].value();
        let ghost x11 = m[1][1].value();
        let ghost x12 = m[1][2].value();
        let ghost x20 = m[2][0].value();
        let ghost x21 = m[2][1].value();
        let ghost x22 = m[2][2].value();
        let ghost md = T::modulus();
        proof {
            lemma_det3(self@);
            lemma_reduce_mul_left(x00 * x11, x22, md);
            lemma_reduce_mul_left(x01 * x12, x20, md);
            lemma_reduce_mul_left(x02 * x10, x21, md);
            lemma_reduce_mul_left(x00 * x12, x21, md);
            lemma_reduce_mul_left(x01 * x10, x22, md);
            lemma_reduce_mul_left(x02 * x11, x20, md);
            lemma_reduce_add_left(x00 * x11 * x22, reduce(x01 * x12 * x20, md), md);
            lemma_reduce_add_right(x00 * x11 * x22, x01 * x12 * x20, md);
            lemma_reduce_add_left(x00 * x11 * x22 + x01 * x12 * x20, reduce(x02 * x10 * x21, md), md);
            lemma_reduce_add_right(x00 * x11 * x22 + x01 * x12 * x20, x02 * x10 * x21, md);
            lemma_reduce_sub_left(x00 * x11 * x22 + x01 * x12 * x20 + x02 * x10 * x21, reduce(x00 * x12 * x21, md), md);
            lemma_reduce_sub_right(x00 * x11 * x22 + x01 * x12 * x20 + x02 * x10 * x21, x00 * x12 * x21, md);
            lemma_reduce_sub_left(x00 * x11 * x22 + x01 * x12 * x20 + x02 * x10 * x21 - x00 * x12 * x21, reduce(x01 * x10 * x22, md), md);
            lemma_reduce_sub_right(x00 * x11 * x22 + x01 * x12 * x20 + x02 * x10 * x21 - x00 * x12 * x21, x01 * x10 * x22, md);
            lemma_reduce_sub_left(x00 * x11 * x22 + x01 * x12 * x20 + x02 * x10 * x21 - x00 * x12 * x21 - x01 * x10 * x22, reduce(x02 * x11 * x20, md), md);
            lemma_reduce_sub_right(x00 * x11 * x22 + x01 * x12 * x20 + x02 * x10 * x21 - x00 * x12 * x21 - x01 * x10 * x22, x02 * x11 * x20, md);
        }
        m[0][0].times(m[1][1]).times(m[2][2])
            .plus(m[0][1].times(m[1][2]).times(m[2][0]))
            .plus(m[0][2].times(m[1][0]).times(m[2][1]))
            .minus(m[0][0].times(m[1][2]).times(m[2][1]))
            .minus(m[0][1].times(m[1][0]).times(m[2][2]))
            .minus(m[0][2].times(m[1][1]).times(m[2][0]))
    }

    fn cofactor(&self) -> (r: Self) {
        let m = self.0;
        let ghost x00 = m[0][0].value();
        let ghost x01 = m[0][1].value();
        let ghost x02 = m[0][2].value();
        let ghost x10 = m[1][0].value();
        let ghost x11 = m[1][1].value();
        let ghost x12 = m[1][2].value();
        let ghost x20 = m[2][0].value();
        let ghost x21 = m[2][1].value();
        let ghost x22 = m[2][2].value();
        let ghost md = T::modulus();
        let c00 = m[1][1].times(m[2][2])
            .minus(m[1][2].times(m[2][1]));
        proof {
            lemma_reduce_sub_left(x11 * x22, reduce(x12 * x21, md), md);
            lemma_reduce_sub_right(x11 * x22, x12 * x21, md);
        }
        let c01 = m[0][2].times(m[2][1])
            .minus(m[0][1].times(m[2][2]));
        proof {
            lemma_reduce_sub_left(x02 * x21, reduce(x01 * x22, md), md);
            lemma_reduce_sub_right(x02 * x21, x01 * x22, md);
        }
        let c02 = m[0][1].times(m[1][2])
            .minus(m[0][2].times(m[1][1]));
        proof {
            lemma_reduce_sub_left(x01 * x12, reduce(x02 * x11, md), md);
            lemma_reduce_sub_right(x01 * x12, x02 * x11, md);
        }
        let c10 = m[1][2].times(m[2][0])
            .minus(m[1][0].times(m[2][2]));
        proof {
            lemma_reduce_sub_left(x12 * x20, reduce(x10 * x22, md), md);
            lemma_reduce_sub_right(x12 * x20, x10 * x22, md);
        }
        let c11 = m[0][0].times(m[2][2])
            .minus(m[0][2].times(m[2][0]));
        proof {
            lemma_reduce_sub_left(x00 * x22, reduce(x02 * x20, md), md);
            lemma_reduce_sub_right(x00 * x22, x02 * x20, md);
        }
        let c12 = m[0][2].times(m[1][0])
            .minus(m[0][0].times(m[1][2]));
        proof {
            lemma_reduce_sub_left(x02 * x10, reduce(x00 * x12, md), md);
            lemma_reduce_sub_right(x02 * x10, x00 * x12, md);
        }
        let c20 = m[1][0].times(m[2][1])
            .minus(m[1][1].times(m[2][0]));
        proof {
            lemma_reduce_sub_left(x10 * x21, reduce(x11 * x20, md), md);
            lemma_reduce_sub_right(x10 * x21, x11 * x20, md);
        }
        let c21 = m[0][1].times(m[2][0])
            .minus(m[0][0].times(m[2][1]));
        proof {
            lemma_reduce_sub_left(x01 * x20, reduce(x00 * x21, md), md);
            lemma_reduce_sub_right(x01 * x20, x00 * x21, md);
        }
        let c22 = m[0][0].times(m[1][1])
            .minus(m[0][1].times(m[1][0]));
        proof {
            lemma_reduce_sub_left(x00 * x11, reduce(x01 * x10, md), md);
            lemma_reduce_sub_right(x00 * x11, x01 * x10, md);
        }
        let r = M3([
            [c00, c01, c02],
            [c10, c11, c12],
            [c20, c21, c22],
        ]);
        proof {
            lemma_adjugate3(self@);
            assert(r@[0] =~= wrap_mat::<T>(adjugate(self@))[0]);
            assert(r@[1] =~= wrap_mat::<T>(adjugate(self@))[1]);
            assert(r@[2] =~= wrap_mat::<T>(adjugate(self@))[2]);
            assert(r@ =~= wrap_mat::<T>(adjugate(self@)));
        }
        r
    }

    fn inverse(&self) -> (r: Self) {
        self.cofactor() / self.determinant()
    }
}

impl<T: Numeric> Add for M3<T> {
    type Output = M3<T>;

    /// Entrywise sum.
    fn add(self, rhs: M3<T>) -> (r: M3<T>)
        ensures
            r@ == wrap_mat::<T>(mat_add(self@, rhs@)),
    {
        let r = M3([
            [self.0[0][0].plus(rhs.0[0][0]), self.0[0][1].plus(rhs.0[0][1]), self.0[0][2].plus(rhs.0[0][2])],
            [self.0[1][0].plus(rhs.0[1][0]), self.0[1][1].plus(rhs.0[1][1]), self.0[1][2].plus(rhs.0[1][2])],
            [self.0[2][0].plus(rhs.0[2][0]), self.0[2][1].plus(rhs.0[2][1]), self.0[2][2].plus(rhs.0[2][2])],
        ]);
        proof {
            assert(r@[0] =~= wrap_mat::<T>(mat_add(self@, rhs@))[0]);
            assert(r@[1] =~= wrap_mat::<T>(mat_add(self@, rhs@))[1]);
            assert(r@[2] =~= wrap_mat::<T>(mat_add(self@, rhs@))[2]);
            assert(r@ =~= wrap_mat::<T>(mat_add(self@, rhs@)));
        }
        r
    }
}

impl<T: Numeric> vstd::std_specs::ops::AddSpecImpl for M3<T> {
    /// Callers go by the contract of `add` itself.
    open spec fn obeys_add_spec() -> bool {
        false
    }

    open spec fn add_req(self, rhs: M3<T>) -> bool {
        true
    }

    open spec fn add_spec(self, rhs: M3<T>) -> M3<T> {
        arbitrary()
    }
}

impl<T: Numeric> Sub for M3<T> {
    type Output = M3<T>;

    /// Entrywise difference.
    fn sub(self, rhs: M3<T>) -> (r: M3<T>)
        ensures
            r@ == wrap_mat::<T>(mat_sub(self@, rhs@)),
    {
        let r = M3([
            [self.0[0][0].minus(rhs.0[0][0]), self.0[0][1].minus(rhs.0[0][1]), self.0[0][2].minus(rhs.0[0][2])],
            [self.0[1][0].minus(rhs.0[1][0]), self.0[1][1].minus(rhs.0[1][1]), self.0[1][2].minus(rhs.0[1][2])],
            [self.0[2][0].minus(rhs.0[2][0]), self.0[2][1].minus(rhs.0[2][1]), self.0[2][2].minus(rhs.0[2][2])],
        ]);
        proof {
            assert(r@[0] =~= wrap_mat::<T>(mat_sub(self@, rhs@))[0]);
            assert(r@[1] =~= wrap_mat::<T>(mat_sub(self@, rhs@))[1]);
            assert(r@[2] =~= wrap_mat::<T>(mat_sub(self@, rhs@))[2]);
            assert(r@ =~= wrap_mat::<T>(mat_sub(self@, rhs@)));
        }
        r
    }
}

impl<T: Numeric> vstd::std_specs::ops::SubSpecImpl for M3<T> {
    /// Callers go by the contract of `sub` itself.
    open spec fn obeys_sub_spec() -> bool {
        false
    }

    open spec fn sub_req(self, rhs: M3<T>) -> bool {
        true
    }

    open spec fn sub_spec(self, rhs: M3<T>) -> M3<T> {
        arbitrary()
    }
}

impl<T: Numeric> Mul for M3<T> {
    type Output = M3<T>;

    /// The matrix product: entry `(i, j)` is row `i` of `self` dotted with column `j` of `rhs`.
    fn mul(self, rhs: M3<T>) -> (r: M3<T>)
        ensures
            r@ == wrap_mat::<T>(mat_mul(self@, rhs@)),
    {
        let (r0, r1, r2) = self.into_rows();
        let (c0, c1, c2) = rhs.into_cols();
        proof {
            assert(r0@ == self@[0]);
            assert(c0@ =~= crate::model::column(rhs@, 0));
            assert(r1@ == self@[1]);
            assert(c1@ =~= crate::model::column(rhs@, 1));
            assert(r2@ == self@[2]);
            assert(c2@ =~= crate::model::column(rhs@, 2));
        }
        let r = M3([
            [r0.dot(c0), r0.dot(c1), r0.dot(c2)],
            [r1.dot(c0), r1.dot(c1), r1.dot(c2)],
            [r2.dot(c0), r2.dot(c1), r2.dot(c2)],
        ]);
        proof {
            assert(r@[0] =~= wrap_mat::<T>(mat_mul(self@, rhs@))[0]);
            assert(r@[1] =~= wrap_mat::<T>(mat_mul(self@, rhs@))[1]);
            assert(r@[2] =~= wrap_mat::<T>(mat_mul(self@, rhs@))[2]);
            assert(r@ =~= wrap_mat::<T>(mat_mul(self@, rhs@)));
        }
        r
    }
}

impl<T: Numeric> vstd::std_specs::ops::MulSpecImpl for M3<T> {
    /// Callers go by the contract of `mul` itself.
    open spec fn obeys_mul_spec() -> bool {
        false
    }

    open spec fn mul_req(self, rhs: M3<T>) -> bool {
        true
    }

    open spec fn mul_spec(self, rhs: M3<T>) -> M3<T> {
        arbitrary()
    }
}

impl<T: Numeric> Mul<V3<T>> for M3<T> {
    type Output = V3<T>;

    /// The matrix times the vector taken as a column: entry `i` is row `i` dotted with the vector.
    fn mul(self, rhs: V3<T>) -> (r: V3<T>)
        ensures
            r@ == wrap_vec::<T>(mat_vec(self@, rhs@)),
    {
        let (r0, r1, r2) = self.into_rows();
        proof {
            assert(r0@ == self@[0]);
            assert(r1@ == self@[1]);
            assert(r2@ == self@[2]);
        }
        let r = V3([r0.dot(rhs), r1.dot(rhs), r2.dot(rhs)]);
        proof {
            assert(r@ =~= wrap_vec::<T>(mat_vec(self@, rhs@)));
        }
        r
    }
}

impl<T: Numeric> vstd::std_specs::ops::MulSpecImpl<V3<T>> for M3<T> {
    /// Callers go by the contract of `mul` itself.
    open spec fn obeys_mul_spec() -> bool {
        false
    }

    open spec fn mul_req(self, rhs: V3<T>) -> bool {
        true
    }

    open spec fn mul_spec(self, rhs: V3<T>) -> V3<T> {
        arbitrary()
    }
}

impl<T: Numeric> Div<T> for M3<T> {
    type Output = M3<T>;

    /// Every entry divided by the scalar, truncating; the scalar may not be zero.
    fn div(self, rhs: T) -> (r: M3<T>)
        ensures
            r@ == wrap_mat::<T>(mat_div_scalar(self@, rhs.value())),
    {
        let r = M3([
            [self.0[0][0].quot(rhs), self.0[0][1].quot(rhs), self.0[0][2].quot(rhs)],
            [self.0[1][0].quot(rhs), self.0[1][1].quot(rhs), self.0[1][2].quot(rhs)],
            [self.0[2][0].quot(rhs), self.0[2][1].quot(rhs), self.0[2][2].quot(rhs)],
        ]);
        proof {
            assert(r@[0] =~= wrap_mat::<T>(mat_div_scalar(self@, rhs.value()))[0]);
            assert(r@[1] =~= wrap_mat::<T>(mat_div_scalar(self@, rhs.value()))[1]);
            assert(r@[2] =~= wrap_mat::<T>(mat_div_scalar(self@, rhs.value()))[2]);
            assert(r@ =~= wrap_mat::<T>(mat_div_scalar(self@, rhs.value())));
        }
        r
    }
}

impl<T: Numeric> vstd::std_specs::ops::DivSpecImpl<T> for M3<T> {
    /// Callers go by the contract of `div` itself.
    open spec fn obeys_div_spec() -> bool {
        false
    }

    open spec fn div_req(self, rhs: T) -> bool {
        rhs.value() != 0
    }

    open spec fn div_spec(self, rhs: T) -> M3<T> {
        arbitrary()
    }
}

} // verus!
