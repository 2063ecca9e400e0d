//! The adjugate identity `m * adjugate(m) == det(m) * I` for 2 by 2, 3 by 3
//! and 4 by 4 matrices.
use crate::expansion::{
    lemma_adjugate2, lemma_adjugate3, lemma_adjugate4, lemma_det2, lemma_det3, lemma_det4,
};
use crate::model::{adjugate, column, det, dot, is_square, lemma_dot2, lemma_dot3, lemma_dot4};
use vstd::arithmetic::mul::{lemma_mul_is_distributive_add, lemma_mul_is_distributive_sub};
use vstd::prelude::*;

verus! {

proof fn lemma_ring_mul_adjugate2(m00: int, m01: int, m10: int, m11: int)
    ensures
        m00 * (m11) + m01 * (-(m10)) == m00 * m11 - m01 * m10,
        m00 * (-(m01)) + m01 * (m00) == 0,
        m10 * (m11) + m11 * (-(m10)) == 0,
        m10 * (-(m01)) + m11 * (m00) == m00 * m11 - m01 * m10,
{
    assert(m00 * (m11) == m00 * m11) by (nonlinear_arith);
    assert(m01 * (-(m10)) == -(m01 * m10)) by (nonlinear_arith);
    assert(m00 * (-(m01)) == -(m00 * m01)) by (nonlinear_arith);
    assert(m01 * (m00) == m00 * m01) by (nonlinear_arith);
    assert(m10 * (m11) == m10 * m11) by (nonlinear_arith);
    assert(m11 * (-(m10)) == -(m10 * m11)) by (nonlinear_arith);
    assert(m10 * (-(m01)) == -(m01 * m10)) by (nonlinear_arith);
    assert(m11 * (m00) == m00 * m11) by (nonlinear_arith);
}

/// Row `i` of `m` dotted with column `j` of its adjugate is `det(m)` where
/// `i == j` and 0 elsewhere.
pub proof fn lemma_mul_adjugate2(m: Seq<Seq<int>>)
    requires
        is_square(m, 2),
    ensures
        forall|i: int, j: int|
            0 <= i < 2 && 0 <= j < 2 ==> #[trigger] dot(m[i], column(adjugate(m), j)) == if i == j {
                det(m)
            } else {
                0
            },
{
    lemma_adjugate2(m);
    lemma_det2(m);
    lemma_ring_mul_adjugate2(m[0][0], m[0][1], m[1][0], m[1][1]);
    lemma_dot2(m[0], column(adjugate(m), 0));
    lemma_dot2(m[0], column(adjugate(m), 1));
    lemma_dot2(m[1], column(adjugate(m), 0));
    lemma_dot2(m[1], column(adjugate(m), 1));
}

proof fn lemma_ring_mul_adjugate3(m00: int, m01: int, m02: int, m10: int, m11: int, m12: int, m20: int, m21: int, m22: int)
    ensures
        m00 * (m11 * m22 - m12 * m21) + m01 * (m12 * m20 - m10 * m22) + m02 * (m10 * m21 - m11 * m20) == m00 * m11 * m22 + m01 * m12 * m20 + m02 * m10 * m21 - m00 * m12 * m21 - m01 * m10 * m22 - m02 * m11 * m20,
        m00 * (m02 * m21 - m01 * m22) + m01 * (m00 * m22 - m02 * m20) + m02 * (m01 * m20 - m00 * m21) == 0,
        m00 * (m01 * m12 - m02 * m11) + m01 * (m02 * m10 - m00 * m12) + m02 * (m00 * m11 - m01 * m10) == 0,
        m10 * (m11 * m22 - m12 * m21) + m11 * (m12 * m20 - m10 * m22) + m12 * (m10 * m21 - m11 * m20) == 0,
        m10 * (m02 * m21 - m01 * m22) + m11 * (m00 * m22 - m02 * m20) + m12 * (m01 * m20 - m00 * m21) == m00 * m11 * m22 + m01 * m12 * m20 + m02 * m10 * m21 - m00 * m12 * m21 - m01 * m10 * m22 - m02 * m11 * m20,
        m10 * (m01 * m12 - m02 * m11) + m11 * (m02 * m10 - m00 * m12) + m12 * (m00 * m11 - m01 * m10) == 0,
        m20 * (m11 * m22 - m12 * m21) + m21 * (m12 * m20 - m10 * m22) + m22 * (m10 * m21 - m11 * m20) == 0,
        m20 * (m02 * m21 - m01 * m22) + m21 * (m00 * m22 - m02 * m20) + m22 * (m01 * m20 - m00 * m21) == 0,
        m20 * (m01 * m12 - m02 * m11) + m21 * (m02 * m10 - m00 * m12) + m22 * (m00 * m11 - m01 * m10) == m00 * m11 * m22 + m01 * m12 * m20 + m02 * m10 * m21 - m00 * m12 * m21 - m01 * m10 * m22 - m02 * m11 * m20,
{
    assert(m00 * (m11 * m22 - m12 * m21) == m00 * m11 * m22 - m00 * m12 * m21) by (nonlinear_arith);
    assert(m01 * (m12 * m20 - m10 * m22) == m01 * m12 * m20 - m01 * m10 * m22) by (nonlinear_arith);
    assert(m02 * (m10 * m21 - m11 * m20) == m02 * m10 * m21 - m02 * m11 * m20) by (nonlinear_arith);
    assert(m00 * (m02 * m21 - m01 * m22) == m00 * m02 * m21 - m00 * m01 * m22) by (nonlinear_arith);
    assert(m01 * (m00 * m22 - m02 * m20) == m00 * m01 * m22 - m01 * m02 * m20) by (nonlinear_arith);
    assert(m02 * (m01 * m20 - m00 * m21) == m01 * m02 * m20 - m00 * m02 * m21) by (nonlinear_arith);
    assert(m00 * (m01 * m12 - m02 * m11) == m00 * m01 * m12 - m00 * m02 * m11) by (nonlinear_arith);
    assert(m01 * (m02 * m10 - m00 * m12) == m01 * m02 * m10 - m00 * m01 * m12) by (nonlinear_arith);
    assert(m02 * (m00 * m11 - m01 * m10) == m00 * m02 * m11 - m01 * m02 * m10) by (nonlinear_arith);
    assert(m10 * (m11 * m22 - m12 * m21) == m10 * m11 * m22 - m10 * m12 * m21) by (nonlinear_arith);
    assert(m11 * (m12 * m20 - m10 * m22) == m11 * m12 * m20 - m10 * m11 * m22) by (nonlinear_arith);
    assert(m12 * (m10 * m21 - m11 * m20) == m10 * m12 * m21 - m11 * m12 * m20) by (nonlinear_arith);
    assert(m10 * (m02 * m21 - m01 * m22) == m02 * m10 * m21 - m01 * m10 * m22) by (nonlinear_arith);
    assert(m11 * (m00 * m22 - m02 * m20) == m00 * m11 * m22 - m02 * m11 * m20) by (nonlinear_arith);
    assert(m12 * (m01 * m20 - m00 * m21) == m01 * m12 * m20 - m00 * m12 * m21) by (nonlinear_arith);
    assert(m10 * (m01 * m12 - m02 * m11) == m01 * m10 * m12 - m02 * m10 * m11) by (nonlinear_arith);
    assert(m11 * (m02 * m10 - m00 * m12) == m02 * m10 * m11 - m00 * m11 * m12) by (nonlinear_arith);
    assert(m12 * (m00 * m11 - m01 * m10) == m00 * m11 * m12 - m01 * m10 * m12) by (nonlinear_arith);
    assert(m20 * (m11 * m22 - m12 * m21) == m11 * m20 * m22 - m12 * m20 * m21) by (nonlinear_arith);
    assert(m21 * (m12 * m20 - m10 * m22) == m12 * m20 * m21 - m10 * m21 * m22) by (nonlinear_arith);
    assert(m22 * (m10 * m21 - m11 * m20) == m10 * m21 * m22 - m11 * m20 * m22) by (nonlinear_arith);
    assert(m20 * (m02 * m21 - m01 * m22) == m02 * m20 * m21 - m01 * m20 * m22) by (nonlinear_arith);
    assert(m21 * (m00 * m22 - m02 * m20) == m00 * m21 * m22 - m02 * m20 * m21) by (nonlinear_arith);
    assert(m22 * (m01 * m20 - m00 * m21) == m01 * m20 * m22 - m00 * m21 * m22) by (nonlinear_arith);
    assert(m20 * (m01 * m12 - m02 * m11) == m01 * m12 * m20 - m02 * m11 * m20) by (nonlinear_arith);
    assert(m21 * (m02 * m10 - m00 * m12) == m02 * m10 * m21 - m00 * m12 * m21) by (nonlinear_arith);
    assert(m22 * (m00 * m11 - m01 * m10) == m00 * m11 * m22 - m01 * m10 * m22) by (nonlinear_arith);
}

/// Row `i` of `m` dotted with column `j` of its adjugate is `det(m)` where
/// `i == j` and 0 elsewhere.
pub proof fn lemma_mul_adjugate3(m: Seq<Seq<int>>)
    requires
        is_square(m, 3),
    ensures
        forall|i: int, j: int|
            0 <= i < 3 && 0 <= j < 3 ==> #[trigger] dot(m[i], column(adjugate(m), j)) == if i == j {
                det(m)
            } else {
                0
            },
{
    lemma_adjugate3(m);
    lemma_det3(m);
    lemma_ring_mul_adjugate3(m[0][0], m[0][1], m[0][2], m[1][0], m[1][1], m[1][2], m[2][0], m[2][1], m[2][2]);
    lemma_dot3(m[0], column(adjugate(m), 0));
    lemma_dot3(m[0], column(adjugate(m), 1));
    lemma_dot3(m[0], column(adjugate(m), 2));
    lemma_dot3(m[1], column(adjugate(m), 0));
    lemma_dot3(m[1], column(adjugate(m), 1));
    lemma_dot3(m[1], column(adjugate(m), 2));
    lemma_dot3(m[2], column(adjugate(m), 0));
    lemma_dot3(m[2], column(adjugate(m), 1));
    lemma_dot3(m[2], column(adjugate(m), 2));
}


proof fn lemma_ring_mul_adjugate4_00(m00: int, m01: int, m02: int, m03: int, m10: int, m11: int, m12: int, m13: int, m20: int, m21: int, m22: int, m23: int, m30: int, m31: int, m32: int, m33: int)
    ensures
        m00 * (m12 * m23 * m31 - m13 * m22 * m31 + m13 * m21 * m32 - m11 * m23 * m32 - m12 * m21 * m33 + m11 * m22 * m33) + m01 * (m13 * m22 * m30 - m12 * m23 * m30 - m13 * m20 * m32 + m10 * m23 * m32 + m12 * m20 * m33 - m10 * m22 * m33) + m02 * (m11 * m23 * m30 - m13 * m21 * m30 + m13 * m20 * m31 - m10 * m23 * m31 - m11 * m20 * m33 + m10 * m21 * m33) + m03 * (m12 * m21 * m30 - m11 * m22 * m30 - m12 * m20 * m31 + m10 * m22 * m31 + m11 * m20 * m32 - m10 * m21 * m32) == m03 * m12 * m21 * m30 - m02 * m13 * m21 * m30 - m03 * m11 * m22 * m30 + m01 * m13 * m22 * m30 + m02 * m11 * m23 * m30 - m01 * m12 * m23 * m30 - m03 * m12 * m20 * m31 + m02 * m13 * m20 * m31 + m03 * m10 * m22 * m31 - m00 * m13 * m22 * m31 - m02 * m10 * m23 * m31 + m00 * m12 * m23 * m31 + m03 * m11 * m20 * m32 - m01 * m13 * m20 * m32 - m03 * m10 * m21 * m32 + m00 * m13 * m21 * m32 + m01 * m10 * m23 * m32 - m00 * m11 * m23 * m32 - m02 * m11 * m20 * m33 + m01 * m12 * m20 * m33 + m02 * m10 * m21 * m33 - m00 * m12 * m21 * m33 - m01 * m10 * m22 * m33 + m00 * m11 * m22 * m33,
{
    lemma_mul_is_distributive_sub(m00, m12 * m23 * m31, m13 * m22 * m31);
    lemma_mul_is_distributive_add(m00, m12 * m23 * m31 - m13 * m22 * m31, m13 * m21 * m32);
    lemma_mul_is_distributive_sub(m00, m12 * m23 * m31 - m13 * m22 * m31 + m13 * m21 * m32, m11 * m23 * m32);
    lemma_mul_is_distributive_sub(m00, m12 * m23 * m31 - m13 * m22 * m31 + m13 * m21 * m32 - m11 * m23 * m32, m12 * m21 * m33);
    lemma_mul_is_distributive_add(m00, m12 * m23 * m31 - m13 * m22 * m31 + m13 * m21 * m32 - m11 * m23 * m32 - m12 * m21 * m33, m11 * m22 * m33);
    assert(m00 * (m12 * m23 * m31) == m00 * m12 * m23 * m31) by (nonlinear_arith);
    assert(m00 * (m13 * m22 * m31) == m00 * m13 * m22 * m31) by (nonlinear_arith);
    assert(m00 * (m13 * m21 * m32) == m00 * m13 * m21 * m32) by (nonlinear_arith);
    assert(m00 * (m11 * m23 * m32) == m00 * m11 * m23 * m32) by (nonlinear_arith);
    assert(m00 * (m12 * m21 * m33) == m00 * m12 * m21 * m33) by (nonlinear_arith);
    assert(m00 * (m11 * m22 * m33) == m00 * m11 * m22 * m33) by (nonlinear_arith);
    lemma_mul_is_distributive_sub(m01, m13 * m22 * m30, m12 * m23 * m30);
    lemma_mul_is_distributive_sub(m01, m13 * m22 * m30 - m12 * m23 * m30, m13 * m20 * m32);
    lemma_mul_is_distributive_add(m01, m13 * m22 * m30 - m12 * m23 * m30 - m13 * m20 * m32, m10 * m23 * m32);
    lemma_mul_is_distributive_add(m01, m13 * m22 * m30 - m12 * m23 * m30 - m13 * m20 * m32 + m10 * m23 * m32, m12 * m20 * m33);
    lemma_mul_is_distributive_sub(m01, m13 * m22 * m30 - m12 * m23 * m30 - m13 * m20 * m32 + m10 * m23 * m32 + m12 * m20 * m33, m10 * m22 * m33);
    assert(m01 * (m13 * m22 * m30) == m01 * m13 * m22 * m30) by (nonlinear_arith);
    assert(m01 * (m12 * m23 * m30) == m01 * m12 * m23 * m30) by (nonlinear_arith);
    assert(m01 * (m13 * m20 * m32) == m01 * m13 * m20 * m32) by (nonlinear_arith);
    assert(m01 * (m10 * m23 * m32) == m01 * m10 * m23 * m32) by (nonlinear_arith);
    assert(m01 * (m12 * m20 * m33) == m01 * m12 * m20 * m33) by (nonlinear_arith);
    assert(m01 * (m10 * m22 * m33) == m01 * m10 * m22 * m33) by (nonlinear_arith);
    lemma_mul_is_distributive_sub(m02, m11 * m23 * m30, m13 * m21 * m30);
    lemma_mul_is_distributive_add(m02, m11 * m23 * m30 - m13 * m21 * m30, m13 * m20 * m31);
    lemma_mul_is_distributive_sub(m02, m11 * m23 * m30 - m13 * m21 * m30 + m13 * m20 * m31, m10 * m23 * m31);
    lemma_mul_is_distributive_sub(m02, m11 * m23 * m30 - m13 * m21 * m30 + m13 * m20 * m31 - m10 * m23 * m31, m11 * m20 * m33);
    lemma_mul_is_distributive_add(m02, m11 * m23 * m30 - m13 * m21 * m30 + m13 * m20 * m31 - m10 * m23 * m31 - m11 * m20 * m33, m10 * m21 * m33);
    assert(m02 * (m11 * m23 * m30) == m02 * m11 * m23 * m30) by (nonlinear_arith);
    assert(m02 * (m13 * m21 * m30) == m02 * m13 * m21 * m30) by (nonlinear_arith);
    assert(m02 * (m13 * m20 * m31) == m02 * m13 * m20 * m31) by (nonlinear_arith);
    assert(m02 * (m10 * m23 * m31) == m02 * m10 * m23 * m31) by (nonlinear_arith);
    assert(m02 * (m11 * m20 * m33) == m02 * m11 * m20 * m33) by (nonlinear_arith);
    assert(m02 * (m10 * m21 * m33) == m02 * m10 * m21 * m33) by (nonlinear_arith);
    lemma_mul_is_distributive_sub(m03, m12 * m21 * m30, m11 * m22 * m30);
    lemma_mul_is_distributive_sub(m03, m12 * m21 * m30 - m11 * m22 * m30, m12 * m20 * m31);
    lemma_mul_is_distributive_add(m03, m12 * m21 * m30 - m11 * m22 * m30 - m12 * m20 * m31, m10 * m22 * m31);
    lemma_mul_is_distributive_add(m03, m12 * m21 * m30 - m11 * m22 * m30 - m12 * m20 * m31 + m10 * m22 * m31, m11 * m20 * m32);
    lemma_mul_is_distributive_sub(m03, m12 * m21 * m30 - m11 * m22 * m30 - m12 * m20 * m31 + m10 * m22 * m31 + m11 * m20 * m32, m10 * m21 * m32);
    assert(m03 * (m12 * m21 * m30) == m03 * m12 * m21 * m30) by (nonlinear_arith);
    assert(m03 * (m11 * m22 * m30) == m03 * m11 * m22 * m30) by (nonlinear_arith);
    assert(m03 * (m12 * m20 * m31) == m03 * m12 * m20 * m31) by (nonlinear_arith);
    assert(m03 * (m10 * m22 * m31) == m03 * m10 * m22 * m31) by (nonlinear_arith);
    assert(m03 * (m11 * m20 * m32) == m03 * m11 * m20 * m32) by (nonlinear_arith);
    assert(m03 * (m10 * m21 * m32) == m03 * m10 * m21 * m32) by (nonlinear_arith);
}

proof fn lemma_ring_mul_adjugate4_01(m00: int, m01: int, m02: int, m03: int, m10: int, m11: int, m12: int, m13: int, m20: int, m21: int, m22: int, m23: int, m30: int, m31: int, m32: int, m33: int)
    ensures
        m00 * (m03 * m22 * m31 - m02 * m23 * m31 - m03 * m21 * m32 + m01 * m23 * m32 + m02 * m21 * m33 - m01 * m22 * m33) + m01 * (m02 * m23 * m30 - m03 * m22 * m30 + m03 * m20 * m32 - m00 * m23 * m32 - m02 * m20 * m33 + m00 * m22 * m33) + m02 * (m03 * m21 * m30 - m01 * m23 * m30 - m03 * m20 * m31 + m00 * m23 * m31 + m01 * m20 * m33 - m00 * m21 * m33) + m03 * (m01 * m22 * m30 - m02 * m21 * m30 + m02 * m20 * m31 - m00 * m22 * m31 - m01 * m20 * m32 + m00 * m21 * m32) == 0,
{
    lemma_mul_is_distributive_sub(m00, m03 * m22 * m31, m02 * m23 * m31);
    lemma_mul_is_distributive_sub(m00, m03 * m22 * m31 - m02 * m23 * m31, m03 * m21 * m32);
    lemma_mul_is_distributive_add(m00, m03 * m22 * m31 - m02 * m23 * m31 - m03 * m21 * m32, m01 * m23 * m32);
    lemma_mul_is_distributive_add(m00, m03 * m22 * m31 - m02 * m23 * m31 - m03 * m21 * m32 + m01 * m23 * m32, m02 * m21 * m33);
    lemma_mul_is_distributive_sub(m00, m03 * m22 * m31 - m02 * m23 * m31 - m03 * m21 * m32 + m01 * m23 * m32 + m02 * m21 * m33, m01 * m22 * m33);
    assert(m00 * (m03 * m22 * m31) == m00 * m03 * m22 * m31) by (nonlinear_arith);
    assert(m00 * (m02 * m23 * m31) == m00 * m02 * m23 * m31) by (nonlinear_arith);
    assert(m00 * (m03 * m21 * m32) == m00 * m03 * m21 * m32) by (nonlinear_arith);
    assert(m00 * (m01 * m23 * m32) == m00 * m01 * m23 * m32) by (nonlinear_arith);
    assert(m00 * (m02 * m21 * m33) == m00 * m02 * m21 * m33) by (nonlinear_arith);
    assert(m00 * (m01 * m22 * m33) == m00 * m01 * m22 * m33) by (nonlinear_arith);
    lemma_mul_is_distributive_sub(m01, m02 * m23 * m30, m03 * m22 * m30);
    lemma_mul_is_distributive_add(m01, m02 * m23 * m30 - m03 * m22 * m30, m03 * m20 * m32);
    lemma_mul_is_distributive_sub(m01, m02 * m23 * m30 - m03 * m22 * m30 + m03 * m20 * m32, m00 * m23 * m32);
    lemma_mul_is_distributive_sub(m01, m02 * m23 * m30 - m03 * m22 * m30 + m03 * m20 * m32 - m00 * m23 * m32, m02 * m20 * m33);
    lemma_mul_is_distributive_add(m01, m02 * m23 * m30 - m03 * m22 * m30 + m03 * m20 * m32 - m00 * m23 * m32 - m02 * m20 * m33, m00 * m22 * m33);
    assert(m01 * (m02 * m23 * m30) == m01 * m02 * m23 * m30) by (nonlinear_arith);
    assert(m01 * (m03 * m22 * m30) == m01 * m03 * m22 * m30) by (nonlinear_arith);
    assert(m01 * (m03 * m20 * m32) == m01 * m03 * m20 * m32) by (nonlinear_arith);
    assert(m01 * (m00 * m23 * m32) == m00 * m01 * m23 * m32) by (nonlinear_arith);
    assert(m01 * (m02 * m20 * m33) == m01 * m02 * m20 * m33) by (nonlinear_arith);
    assert(m01 * (m00 * m22 * m33) == m00 * m01 * m22 * m33) by (nonlinear_arith);
    lemma_mul_is_distributive_sub(m02, m03 * m21 * m30, m01 * m23 * m30);
    lemma_mul_is_distributive_sub(m02, m03 * m21 * m30 - m01 * m23 * m30, m03 * m20 * m31);
    lemma_mul_is_distributive_add(m02, m03 * m21 * m30 - m01 * m23 * m30 - m03 * m20 * m31, m00 * m23 * m31);
    lemma_mul_is_distributive_add(m02, m03 * m21 * m30 - m01 * m23 * m30 - m03 * m20 * m31 + m00 * m23 * m31, m01 * m20 * m33);
    lemma_mul_is_distributive_sub(m02, m03 * m21 * m30 - m01 * m23 * m30 - m03 * m20 * m31 + m00 * m23 * m31 + m01 * m20 * m33, m00 * m21 * m33);
    assert(m02 * (m03 * m21 * m30) == m02 * m03 * m21 * m30) by (nonlinear_arith);
    assert(m02 * (m01 * m23 * m30) == m01 * m02 * m23 * m30) by (nonlinear_arith);
    assert(m02 * (m03 * m20 * m31) == m02 * m03 * m20 * m31) by (nonlinear_arith);
    assert(m02 * (m00 * m23 * m31) == m00 * m02 * m23 * m31) by (nonlinear_arith);
    assert(m02 * (m01 * m20 * m33) == m01 * m02 * m20 * m33) by (nonlinear_arith);
    assert(m02 * (m00 * m21 * m33) == m00 * m02 * m21 * m33) by (nonlinear_arith);
    lemma_mul_is_distributive_sub(m03, m01 * m22 * m30, m02 * m21 * m30);
    lemma_mul_is_distributive_add(m03, m01 * m22 * m30 - m02 * m21 * m30, m02 * m20 * m31);
    lemma_mul_is_distributive_sub(m03, m01 * m22 * m30 - m02 * m21 * m30 + m02 * m20 * m31, m00 * m22 * m31);
    lemma_mul_is_distributive_sub(m03, m01 * m22 * m30 - m02 * m21 * m30 + m02 * m20 * m31 - m00 * m22 * m31, m01 * m20 * m32);
    lemma_mul_is_distributive_add(m03, m01 * m22 * m30 - m02 * m21 * m30 + m02 * m20 * m31 - m00 * m22 * m31 - m01 * m20 * m32, m00 * m21 * m32);
    assert(m03 * (m01 * m22 * m30) == m01 * m03 * m22 * m30) by (nonlinear_arith);
    assert(m03 * (m02 * m21 * m30) == m02 * m03 * m21 * m30) by (nonlinear_arith);
    assert(m03 * (m02 * m20 * m31) == m02 * m03 * m20 * m31) by (nonlinear_arith);
    assert(m03 * (m00 * m22 * m31) == m00 * m03 * m22 * m31) by (nonlinear_arith);
    assert(m03 * (m01 * m20 * m32) == m01 * m03 * m20 * m32) by (nonlinear_arith);
    assert(m03 * (m00 * m21 * m32) == m00 * m03 * m21 * m32) by (nonlinear_arith);
}

proof fn lemma_ring_mul_adjugate4_02(m00: int, m01: int, m02: int, m03: int, m10: int, m11: int, m12: int, m13: int, m20: int, m21: int, m22: int, m23: int, m30: int, m31: int, m32: int, m33: int)
    ensures
        m00 * (m02 * m13 * m31 - m03 * m12 * m31 + m03 * m11 * m32 - m01 * m13 * m32 - m02 * m11 * m33 + m01 * m12 * m33) + m01 * (m03 * m12 * m30 - m02 * m13 * m30 - m03 * m10 * m32 + m00 * m13 * m32 + m02 * m10 * m33 - m00 * m12 * m33) + m02 * (m01 * m13 * m30 - m03 * m11 * m30 + m03 * m10 * m31 - m00 * m13 * m31 - m01 * m10 * m33 + m00 * m11 * m33) + m03 * (m02 * m11 * m30 - m01 * m12 * m30 - m02 * m10 * m31 + m00 * m12 * m31 + m01 * m10 * m32 - m00 * m11 * m32) == 0,
{
    lemma_mul_is_distributive_sub(m00, m02 * m13 * m31, m03 * m12 * m31);
    lemma_mul_is_distributive_add(m00, m02 * m13 * m31 - m03 * m12 * m31, m03 * m11 * m32);
    lemma_mul_is_distributive_sub(m00, m02 * m13 * m31 - m03 * m12 * m31 + m03 * m11 * m32, m01 * m13 * m32);
    lemma_mul_is_distributive_sub(m00, m02 * m13 * m31 - m03 * m12 * m31 + m03 * m11 * m32 - m01 * m13 * m32, m02 * m11 * m33);
    lemma_mul_is_distributive_add(m00, m02 * m13 * m31 - m03 * m12 * m31 + m03 * m11 * m32 - m01 * m13 * m32 - m02 * m11 * m33, m01 * m12 * m33);
    assert(m00 * (m02 * m13 * m31) == m00 * m02 * m13 * m31) by (nonlinear_arith);
    assert(m00 * (m03 * m12 * m31) == m00 * m03 * m12 * m31) by (nonlinear_arith);
    assert(m00 * (m03 * m11 * m32) == m00 * m03 * m11 * m32) by (nonlinear_arith);
    assert(m00 * (m01 * m13 * m32) == m00 * m01 * m13 * m32) by (nonlinear_arith);
    assert(m00 * (m02 * m11 * m33) == m00 * m02 * m11 * m33) by (nonlinear_arith);
    assert(m00 * (m01 * m12 * m33) == m00 * m01 * m12 * m33) by (nonlinear_arith);
    lemma_mul_is_distributive_sub(m01, m03 * m12 * m30, m02 * m13 * m30);
    lemma_mul_is_distributive_sub(m01, m03 * m12 * m30 - m02 * m13 * m30, m03 * m10 * m32);
    lemma_mul_is_distributive_add(m01, m03 * m12 * m30 - m02 * m13 * m30 - m03 * m10 * m32, m00 * m13 * m32);
    lemma_mul_is_distributive_add(m01, m03 * m12 * m30 - m02 * m13 * m30 - m03 * m10 * m32 + m00 * m13 * m32, m02 * m10 * m33);
    lemma_mul_is_distributive_sub(m01, m03 * m12 * m30 - m02 * m13 * m30 - m03 * m10 * m32 + m00 * m13 * m32 + m02 * m10 * m33, m00 * m12 * m33);
    assert(m01 * (m03 * m12 * m30) == m01 * m03 * m12 * m30) by (nonlinear_arith);
    assert(m01 * (m02 * m13 * m30) == m01 * m02 * m13 * m30) by (nonlinear_arith);
    assert(m01 * (m03 * m10 * m32) == m01 * m03 * m10 * m32) by (nonlinear_arith);
    assert(m01 * (m00 * m13 * m32) == m00 * m01 * m13 * m32) by (nonlinear_arith);
    assert(m01 * (m02 * m10 * m33) == m01 * m02 * m10 * m33) by (nonlinear_arith);
    assert(m01 * (m00 * m12 * m33) == m00 * m01 * m12 * m33) by (nonlinear_arith);
    lemma_mul_is_distributive_sub(m02, m01 * m13 * m30, m03 * m11 * m30);
    lemma_mul_is_distributive_add(m02, m01 * m13 * m30 - m03 * m11 * m30, m03 * m10 * m31);
    lemma_mul_is_distributive_sub(m02, m01 * m13 * m30 - m03 * m11 * m30 + m03 * m10 * m31, m00 * m13 * m31);
    lemma_mul_is_distributive_sub(m02, m01 * m13 * m30 - m03 * m11 * m30 + m03 * m10 * m31 - m00 * m13 * m31, m01 * m10 * m33);
    lemma_mul_is_distributive_add(m02, m01 * m13 * m30 - m03 * m11 * m30 + m03 * m10 * m31 - m00 * m13 * m31 - m01 * m10 * m33, m00 * m11 * m33);
    assert(m02 * (m01 * m13 * m30) == m01 * m02 * m13 * m30) by (nonlinear_arith);
    assert(m02 * (m03 * m11 * m30) == m02 * m03 * m11 * m30) by (nonlinear_arith);
    assert(m02 * (m03 * m10 * m31) == m02 * m03 * m10 * m31) by (nonlinear_arith);
    assert(m02 * (m00 * m13 * m31) == m00 * m02 * m13 * m31) by (nonlinear_arith);
    assert(m02 * (m01 * m10 * m33) == m01 * m02 * m10 * m33) by (nonlinear_arith);
    assert(m02 * (m00 * m11 * m33) == m00 * m02 * m11 * m33) by (nonlinear_arith);
    lemma_mul_is_distributive_sub(m03, m02 * m11 * m30, m01 * m12 * m30);
    lemma_mul_is_distributive_sub(m03, m02 * m11 * m30 - m01 * m12 * m30, m02 * m10 * m31);
    lemma_mul_is_distributive_add(m03, m02 * m11 * m30 - m01 * m12 * m30 - m02 * m10 * m31, m00 * m12 * m31);
    lemma_mul_is_distributive_add(m03, m02 * m11 * m30 - m01 * m12 * m30 - m02 * m10 * m31 + m00 * m12 * m31, m01 * m10 * m32);
    lemma_mul_is_distributive_sub(m03, m02 * m11 * m30 - m01 * m12 * m30 - m02 * m10 * m31 + m00 * m12 * m31 + m01 * m10 * m32, m00 * m11 * m32);
    assert(m03 * (m02 * m11 * m30) == m02 * m03 * m11 * m30) by (nonlinear_arith);
    assert(m03 * (m01 * m12 * m30) == m01 * m03 * m12 * m30) by (nonlinear_arith);
    assert(m03 * (m02 * m10 * m31) == m02 * m03 * m10 * m31) by (nonlinear_arith);
    assert(m03 * (m00 * m12 * m31) == m00 * m03 * m12 * m31) by (nonlinear_arith);
    assert(m03 * (m01 * m10 * m32) == m01 * m03 * m10 * m32) by (nonlinear_arith);
    assert(m03 * (m00 * m11 * m32) == m00 * m03 * m11 * m32) by (nonlinear_arith);
}

proof fn lemma_ring_mul_adjugate4_03(m00: int, m01: int, m02: int, m03: int, m10: int, m11: int, m12: int, m13: int, m20: int, m21: int, m22: int, m23: int, m30: int, m31: int, m32: int, m33: int)
    ensures
        m00 * (m03 * m12 * m21 - m02 * m13 * m21 - m03 * m11 * m22 + m01 * m13 * m22 + m02 * m11 * m23 - m01 * m12 * m23) + m01 * (m02 * m13 * m20 - m03 * m12 * m20 + m03 * m10 * m22 - m00 * m13 * m22 - m02 * m10 * m23 + m00 * m12 * m23) + m02 * (m03 * m11 * m20 - m01 * m13 * m20 - m03 * m10 * m21 + m00 * m13 * m21 + m01 * m10 * m23 - m00 * m11 * m23) + m03 * (m01 * m12 * m20 - m02 * m11 * m20 + m02 * m10 * m21 - m00 * m12 * m21 - m01 * m10 * m22 + m00 * m11 * m22) == 0,
{
    lemma_mul_is_distributive_sub(m00, m03 * m12 * m21, m02 * m13 * m21);
    lemma_mul_is_distributive_sub(m00, m03 * m12 * m21 - m02 * m13 * m21, m03 * m11 * m22);
    lemma_mul_is_distributive_add(m00, m03 * m12 * m21 - m02 * m13 * m21 - m03 * m11 * m22, m01 * m13 * m22);
    lemma_mul_is_distributive_add(m00, m03 * m12 * m21 - m02 * m13 * m21 - m03 * m11 * m22 + m01 * m13 * m22, m02 * m11 * m23);
    lemma_mul_is_distributive_sub(m00, m03 * m12 * m21 - m02 * m13 * m21 - m03 * m11 * m22 + m01 * m13 * m22 + m02 * m11 * m23, m01 * m12 * m23);
    assert(m00 * (m03 * m12 * m21) == m00 * m03 * m12 * m21) by (nonlinear_arith);
    assert(m00 * (m02 * m13 * m21) == m00 * m02 * m13 * m21) by (nonlinear_arith);
    assert(m00 * (m03 * m11 * m22) == m00 * m03 * m11 * m22) by (nonlinear_arith);
    assert(m00 * (m01 * m13 * m22) == m00 * m01 * m13 * m22) by (nonlinear_arith);
    assert(m00 * (m02 * m11 * m23) == m00 * m02 * m11 * m23) by (nonlinear_arith);
    assert(m00 * (m01 * m12 * m23) == m00 * m01 * m12 * m23) by (nonlinear_arith);
    lemma_mul_is_distributive_sub(m01, m02 * m13 * m20, m03 * m12 * m20);
    lemma_mul_is_distributive_add(m01, m02 * m13 * m20 - m03 * m12 * m20, m03 * m10 * m22);
    lemma_mul_is_distributive_sub(m01, m02 * m13 * m20 - m03 * m12 * m20 + m03 * m10 * m22, m00 * m13 * m22);
    lemma_mul_is_distributive_sub(m01, m02 * m13 * m20 - m03 * m12 * m20 + m03 * m10 * m22 - m00 * m13 * m22, m02 * m10 * m23);
    lemma_mul_is_distributive_add(m01, m02 * m13 * m20 - m03 * m12 * m20 + m03 * m10 * m22 - m00 * m13 * m22 - m02 * m10 * m23, m00 * m12 * m23);
    assert(m01 * (m02 * m13 * m20) == m01 * m02 * m13 * m20) by (nonlinear_arith);
    assert(m01 * (m03 * m12 * m20) == m01 * m03 * m12 * m20) by (nonlinear_arith);
    assert(m01 * (m03 * m10 * m22) == m01 * m03 * m10 * m22) by (nonlinear_arith);
    assert(m01 * (m00 * m13 * m22) == m00 * m01 * m13 * m22) by (nonlinear_arith);
    assert(m01 * (m02 * m10 * m23) == m01 * m02 * m10 * m23) by (nonlinear_arith);
    assert(m01 * (m00 * m12 * m23) == m00 * m01 * m12 * m23) by (nonlinear_arith);
    lemma_mul_is_distributive_sub(m02, m03 * m11 * m20, m01 * m13 * m20);
    lemma_mul_is_distributive_sub(m02, m03 * m11 * m20 - m01 * m13 * m20, m03 * m10 * m21);
    lemma_mul_is_distributive_add(m02, m03 * m11 * m20 - m01 * m13 * m20 - m03 * m10 * m21, m00 * m13 * m21);
    lemma_mul_is_distributive_add(m02, m03 * m11 * m20 - m01 * m13 * m20 - m03 * m10 * m21 + m00 * m13 * m21, m01 * m10 * m23);
    lemma_mul_is_distributive_sub(m02, m03 * m11 * m20 - m01 * m13 * m20 - m03 * m10 * m21 + m00 * m13 * m21 + m01 * m10 * m23, m00 * m11 * m23);
    assert(m02 * (m03 * m11 * m20) == m02 * m03 * m11 * m20) by (nonlinear_arith);
    assert(m02 * (m01 * m13 * m20) == m01 * m02 * m13 * m20) by (nonlinear_arith);
    assert(m02 * (m03 * m10 * m21) == m02 * m03 * m10 * m21) by (nonlinear_arith);
    assert(m02 * (m00 * m13 * m21) == m00 * m02 * m13 * m21) by (nonlinear_arith);
    assert(m02 * (m01 * m10 * m23) == m01 * m02 * m10 * m23) by (nonlinear_arith);
    assert(m02 * (m00 * m11 * m23) == m00 * m02 * m11 * m23) by (nonlinear_arith);
    lemma_mul_is_distributive_sub(m03, m01 * m12 * m20, m02 * m11 * m20);
    lemma_mul_is_distributive_add(m03, m01 * m12 * m20 - m02 * m11 * m20, m02 * m10 * m21);
    lemma_mul_is_distributive_sub(m03, m01 * m12 * m20 - m02 * m11 * m20 + m02 * m10 * m21, m00 * m12 * m21);
    lemma_mul_is_distributive_sub(m03, m01 * m12 * m20 - m02 * m11 * m20 + m02 * m10 * m21 - m00 * m12 * m21, m01 * m10 * m22);
    lemma_mul_is_distributive_add(m03, m01 * m12 * m20 - m02 * m11 * m20 + m02 * m10 * m21 - m00 * m12 * m21 - m01 * m10 * m22, m00 * m11 * m22);
    assert(m03 * (m01 * m12 * m20) == m01 * m03 * m12 * m20) by (nonlinear_arith);
    assert(m03 * (m02 * m11 * m20) == m02 * m03 * m11 * m20) by (nonlinear_arith);
    assert(m03 * (m02 * m10 * m21) == m02 * m03 * m10 * m21) by (nonlinear_arith);
    assert(m03 * (m00 * m12 * m21) == m00 * m03 * m12 * m21) by (nonlinear_arith);
    assert(m03 * (m01 * m10 * m22) == m01 * m03 * m10 * m22) by (nonlinear_arith);
    assert(m03 * (m00 * m11 * m22) == m00 * m03 * m11 * m22) by (nonlinear_arith);
}

proof fn lemma_ring_mul_adjugate4_10(m00: int, m01: int, m02: int, m03: int, m10: int, m11: int, m12: int, m13: int, m20: int, m21: int, m22: int, m23: int, m30: int, m31: int, m32: int, m33: int)
    ensures
        m10 * (m12 * m23 * m31 - m13 * m22 * m31 + m13 * m21 * m32 - m11 * m23 * m32 - m12 * m21 * m33 + m11 * m22 * m33) + m11 * (m13 * m22 * m30 - m12 * m23 * m30 - m13 * m20 * m32 + m10 * m23 * m32 + m12 * m20 * m33 - m10 * m22 * m33) + m12 * (m11 * m23 * m30 - m13 * m21 * m30 + m13 * m20 * m31 - m10 * m23 * m31 - m11 * m20 * m33 + m10 * m21 * m33) + m13 * (m12 * m21 * m30 - m11 * m22 * m30 - m12 * m20 * m31 + m10 * m22 * m31 + m11 * m20 * m32 - m10 * m21 * m32) == 0,
{
    lemma_mul_is_distributive_sub(m10, m12 * m23 * m31, m13 * m22 * m31);
    lemma_mul_is_distributive_add(m10, m12 * m23 * m31 - m13 * m22 * m31, m13 * m21 * m32);
    lemma_mul_is_distributive_sub(m10, m12 * m23 * m31 - m13 * m22 * m31 + m13 * m21 * m32, m11 * m23 * m32);
    lemma_mul_is_distributive_sub(m10, m12 * m23 * m31 - m13 * m22 * m31 + m13 * m21 * m32 - m11 * m23 * m32, m12 * m21 * m33);
    lemma_mul_is_distributive_add(m10, m12 * m23 * m31 - m13 * m22 * m31 + m13 * m21 * m32 - m11 * m23 * m32 - m12 * m21 * m33, m11 * m22 * m33);
    assert(m10 * (m12 * m23 * m31) == m10 * m12 * m23 * m31) by (nonlinear_arith);
    assert(m10 * (m13 * m22 * m31) == m10 * m13 * m22 * m31) by (nonlinear_arith);
    assert(m10 * (m13 * m21 * m32) == m10 * m13 * m21 * m32) by (nonlinear_arith);
    assert(m10 * (m11 * m23 * m32) == m10 * m11 * m23 * m32) by (nonlinear_arith);
    assert(m10 * (m12 * m21 * m33) == m10 * m12 * m21 * m33) by (nonlinear_arith);
    assert(m10 * (m11 * m22 * m33) == m10 * m11 * m22 * m33) by (nonlinear_arith);
    lemma_mul_is_distributive_sub(m11, m13 * m22 * m30, m12 * m23 * m30);
    lemma_mul_is_distributive_sub(m11, m13 * m22 * m30 - m12 * m23 * m30, m13 * m20 * m32);
    lemma_mul_is_distributive_add(m11, m13 * m22 * m30 - m12 * m23 * m30 - m13 * m20 * m32, m10 * m23 * m32);
    lemma_mul_is_distributive_add(m11, m13 * m22 * m30 - m12 * m23 * m30 - m13 * m20 * m32 + m10 * m23 * m32, m12 * m20 * m33);
    lemma_mul_is_distributive_sub(m11, m13 * m22 * m30 - m12 * m23 * m30 - m13 * m20 * m32 + m10 * m23 * m32 + m12 * m20 * m33, m10 * m22 * m33);
    assert(m11 * (m13 * m22 * m30) == m11 * m13 * m22 * m30) by (nonlinear_arith);
    assert(m11 * (m12 * m23 * m30) == m11 * m12 * m23 * m30) by (nonlinear_arith);
    assert(m11 * (m13 * m20 * m32) == m11 * m13 * m20 * m32) by (nonlinear_arith);
    assert(m11 * (m10 * m23 * m32) == m10 * m11 * m23 * m32) by (nonlinear_arith);
    assert(m11 * (m12 * m20 * m33) == m11 * m12 * m20 * m33) by (nonlinear_arith);
    assert(m11 * (m10 * m22 * m33) == m10 * m11 * m22 * m33) by (nonlinear_arith);
    lemma_mul_is_distributive_sub(m12, m11 * m23 * m30, m13 * m21 * m30);
    lemma_mul_is_distributive_add(m12, m11 * m23 * m30 - m13 * m21 * m30, m13 * m20 * m31);
    lemma_mul_is_distributive_sub(m12, m11 * m23 * m30 - m13 * m21 * m30 + m13 * m20 * m31, m10 * m23 * m31);
    lemma_mul_is_distributive_sub(m12, m11 * m23 * m30 - m13 * m21 * m30 + m13 * m20 * m31 - m10 * m23 * m31, m11 * m20 * m33);
    lemma_mul_is_distributive_add(m12, m11 * m23 * m30 - m13 * m21 * m30 + m13 * m20 * m31 - m10 * m23 * m31 - m11 * m20 * m33, m10 * m21 * m33);
    assert(m12 * (m11 * m23 * m30) == m11 * m12 * m23 * m30) by (nonlinear_arith);
    assert(m12 * (m13 * m21 * m30) == m12 * m13 * m21 * m30) by (nonlinear_arith);
    assert(m12 * (m13 * m20 * m31) == m12 * m13 * m20 * m31) by (nonlinear_arith);
    assert(m12 * (m10 * m23 * m31) == m10 * m12 * m23 * m31) by (nonlinear_arith);
    assert(m12 * (m11 * m20 * m33) == m11 * m12 * m20 * m33) by (nonlinear_arith);
    assert(m12 * (m10 * m21 * m33) == m10 * m12 * m21 * m33) by (nonlinear_arith);
    lemma_mul_is_distributive_sub(m13, m12 * m21 * m30, m11 * m22 * m30);
    lemma_mul_is_distributive_sub(m13, m12 * m21 * m30 - m11 * m22 * m30, m12 * m20 * m31);
    lemma_mul_is_distributive_add(m13, m12 * m21 * m30 - m11 * m22 * m30 - m12 * m20 * m31, m10 * m22 * m31);
    lemma_mul_is_distributive_add(m13, m12 * m21 * m30 - m11 * m22 * m30 - m12 * m20 * m31 + m10 * m22 * m31, m11 * m20 * m32);
    lemma_mul_is_distributive_sub(m13, m12 * m21 * m30 - m11 * m22 * m30 - m12 * m20 * m31 + m10 * m22 * m31 + m11 * m20 * m32, m10 * m21 * m32);
    assert(m13 * (m12 * m21 * m30) == m12 * m13 * m21 * m30) by (nonlinear_arith);
    assert(m13 * (m11 * m22 * m30) == m11 * m13 * m22 * m30) by (nonlinear_arith);
    assert(m13 * (m12 * m20 * m31) == m12 * m13 * m20 * m31) by (nonlinear_arith);
    assert(m13 * (m10 * m22 * m31) == m10 * m13 * m22 * m31) by (nonlinear_arith);
    assert(m13 * (m11 * m20 * m32) == m11 * m13 * m20 * m32) by (nonlinear_arith);
    assert(m13 * (m10 * m21 * m32) == m10 * m13 * m21 * m32) by (nonlinear_arith);
}

proof fn lemma_ring_mul_adjugate4_11(m00: int, m01: int, m02: int, m03: int, m10: int, m11: int, m12: int, m13: int, m20: int, m21: int, m22: int, m23: int, m30: int, m31: int, m32: int, m33: int)
    ensures
        m10 * (m03 * m22 * m31 - m02 * m23 * m31 - m03 * m21 * m32 + m01 * m23 * m32 + m02 * m21 * m33 - m01 * m22 * m33) + m11 * (m02 * m23 * m30 - m03 * m22 * m30 + m03 * m20 * m32 - m00 * m23 * m32 - m02 * m20 * m33 + m00 * m22 * m33) + m12 * (m03 * m21 * m30 - m01 * m23 * m30 - m03 * m20 * m31 + m00 * m23 * m31 + m01 * m20 * m33 - m00 * m21 * m33) + m13 * (m01 * m22 * m30 - m02 * m21 * m30 + m02 * m20 * m31 - m00 * m22 * m31 - m01 * m20 * m32 + m00 * m21 * m32) == m03 * m12 * m21 * m30 - m02 * m13 * m21 * m30 - m03 * m11 * m22 * m30 + m01 * m13 * m22 * m30 + m02 * m11 * m23 * m30 - m01 * m12 * m23 * m30 - m03 * m12 * m20 * m31 + m02 * m13 * m20 * m31 + m03 * m10 * m22 * m31 - m00 * m13 * m22 * m31 - m02 * m10 * m23 * m31 + m00 * m12 * m23 * m31 + m03 * m11 * m20 * m32 - m01 * m13 * m20 * m32 - m03 * m10 * m21 * m32 + m00 * m13 * m21 * m32 + m01 * m10 * m23 * m32 - m00 * m11 * m23 * m32 - m02 * m11 * m20 * m33 + m01 * m12 * m20 * m33 + m02 * m10 * m21 * m33 - m00 * m12 * m21 * m33 - m01 * m10 * m22 * m33 + m00 * m11 * m22 * m33,
{
    lemma_mul_is_distributive_sub(m10, m03 * m22 * m31, m02 * m23 * m31);
    lemma_mul_is_distributive_sub(m10, m03 * m22 * m31 - m02 * m23 * m31, m03 * m21 * m32);
    lemma_mul_is_distributive_add(m10, m03 * m22 * m31 - m02 * m23 * m31 - m03 * m21 * m32, m01 * m23 * m32);
    lemma_mul_is_distributive_add(m10, m03 * m22 * m31 - m02 * m23 * m31 - m03 * m21 * m32 + m01 * m23 * m32, m02 * m21 * m33);
    lemma_mul_is_distributive_sub(m10, m03 * m22 * m31 - m02 * m23 * m31 - m03 * m21 * m32 + m01 * m23 * m32 + m02 * m21 * m33, m01 * m22 * m33);
    assert(m10 * (m03 * m22 * m31) == m03 * m10 * m22 * m31) by (nonlinear_arith);
    assert(m10 * (m02 * m23 * m31) == m02 * m10 * m23 * m31) by (nonlinear_arith);
    assert(m10 * (m03 * m21 * m32) == m03 * m10 * m21 * m32) by (nonlinear_arith);
    assert(m10 * (m01 * m23 * m32) == m01 * m10 * m23 * m32) by (nonlinear_arith);
    assert(m10 * (m02 * m21 * m33) == m02 * m10 * m21 * m33) by (nonlinear_arith);
    assert(m10 * (m01 * m22 * m33) == m01 * m10 * m22 * m33) by (nonlinear_arith);
    lemma_mul_is_distributive_sub(m11, m02 * m23 * m30, m03 * m22 * m30);
    lemma_mul_is_distributive_add(m11, m02 * m23 * m30 - m03 * m22 * m30, m03 * m20 * m32);
    lemma_mul_is_distributive_sub(m11, m02 * m23 * m30 - m03 * m22 * m30 + m03 * m20 * m32, m00 * m23 * m32);
    lemma_mul_is_distributive_sub(m11, m02 * m23 * m30 - m03 * m22 * m30 + m03 * m20 * m32 - m00 * m23 * m32, m02 * m20 * m33);
    lemma_mul_is_distributive_add(m11, m02 * m23 * m30 - m03 * m22 * m30 + m03 * m20 * m32 - m00 * m23 * m32 - m02 * m20 * m33, m00 * m22 * m33);
    assert(m11 * (m02 * m23 * m30) == m02 * m11 * m23 * m30) by (nonlinear_arith);
    assert(m11 * (m03 * m22 * m30) == m03 * m11 * m22 * m30) by (nonlinear_arith);
    assert(m11 * (m03 * m20 * m32) == m03 * m11 * m20 * m32) by (nonlinear_arith);
    assert(m11 * (m00 * m23 * m32) == m00 * m11 * m23 * m32) by (nonlinear_arith);
    assert(m11 * (m02 * m20 * m33) == m02 * m11 * m20 * m33) by (nonlinear_arith);
    assert(m11 * (m00 * m22 * m33) == m00 * m11 * m22 * m33) by (nonlinear_arith);
    lemma_mul_is_distributive_sub(m12, m03 * m21 * m30, m01 * m23 * m30);
    lemma_mul_is_distributive_sub(m12, m03 * m21 * m30 - m01 * m23 * m30, m03 * m20 * m31);
    lemma_mul_is_distributive_add(m12, m03 * m21 * m30 - m01 * m23 * m30 - m03 * m20 * m31, m00 * m23 * m31);
    lemma_mul_is_distributive_add(m12, m03 * m21 * m30 - m01 * m23 * m30 - m03 * m20 * m31 + m00 * m23 * m31, m01 * m20 * m33);
    lemma_mul_is_distributive_sub(m12, m03 * m21 * m30 - m01 * m23 * m30 - m03 * m20 * m31 + m00 * m23 * m31 + m01 * m20 * m33, m00 * m21 * m33);
    assert(m12 * (m03 * m21 * m30) == m03 * m12 * m21 * m30) by (nonlinear_arith);
    assert(m12 * (m01 * m23 * m30) == m01 * m12 * m23 * m30) by (nonlinear_arith);
    assert(m12 * (m03 * m20 * m31) == m03 * m12 * m20 * m31) by (nonlinear_arith);
    assert(m12 * (m00 * m23 * m31) == m00 * m12 * m23 * m31) by (nonlinear_arith);
    assert(m12 * (m01 * m20 * m33) == m01 * m12 * m20 * m33) by (nonlinear_arith);
    assert(m12 * (m00 * m21 * m33) == m00 * m12 * m21 * m33) by (nonlinear_arith);
    lemma_mul_is_distributive_sub(m13, m01 * m22 * m30, m02 * m21 * m30);
    lemma_mul_is_distributive_add(m13, m01 * m22 * m30 - m02 * m21 * m30, m02 * m20 * m31);
    lemma_mul_is_distributive_sub(m13, m01 * m22 * m30 - m02 * m21 * m30 + m02 * m20 * m31, m00 * m22 * m31);
    lemma_mul_is_distributive_sub(m13, m01 * m22 * m30 - m02 * m21 * m30 + m02 * m20 * m31 - m00 * m22 * m31, m01 * m20 * m32);
    lemma_mul_is_distributive_add(m13, m01 * m22 * m30 - m02 * m21 * m30 + m02 * m20 * m31 - m00 * m22 * m31 - m01 * m20 * m32, m00 * m21 * m32);
    assert(m13 * (m01 * m22 * m30) == m01 * m13 * m22 * m30) by (nonlinear_arith);
    assert(m13 * (m02 * m21 * m30) == m02 * m13 * m21 * m30) by (nonlinear_arith);
    assert(m13 * (m02 * m20 * m31) == m02 * m13 * m20 * m31) by (nonlinear_arith);
    assert(m13 * (m00 * m22 * m31) == m00 * m13 * m22 * m31) by (nonlinear_arith);
    assert(m13 * (m01 * m20 * m32) == m01 * m13 * m20 * m32) by (nonlinear_arith);
    assert(m13 * (m00 * m21 * m32) == m00 * m13 * m21 * m32) by (nonlinear_arith);
}

proof fn lemma_ring_mul_adjugate4_12(m00: int, m01: int, m02: int, m03: int, m10: int, m11: int, m12: int, m13: int, m20: int, m21: int, m22: int, m23: int, m30: int, m31: int, m32: int, m33: int)
    ensures
        m10 * (m02 * m13 * m31 - m03 * m12 * m31 + m03 * m11 * m32 - m01 * m13 * m32 - m02 * m11 * m33 + m01 * m12 * m33) + m11 * (m03 * m12 * m30 - m02 * m13 * m30 - m03 * m10 * m32 + m00 * m13 * m32 + m02 * m10 * m33 - m00 * m12 * m33) + m12 * (m01 * m13 * m30 - m03 * m11 * m30 + m03 * m10 * m31 - m00 * m13 * m31 - m01 * m10 * m33 + m00 * m11 * m33) + m13 * (m02 * m11 * m30 - m01 * m12 * m30 - m02 * m10 * m31 + m00 * m12 * m31 + m01 * m10 * m32 - m00 * m11 * m32) == 0,
{
    lemma_mul_is_distributive_sub(m10, m02 * m13 * m31, m03 * m12 * m31);
    lemma_mul_is_distributive_add(m10, m02 * m13 * m31 - m03 * m12 * m31, m03 * m11 * m32);
    lemma_mul_is_distributive_sub(m10, m02 * m13 * m31 - m03 * m12 * m31 + m03 * m11 * m32, m01 * m13 * m32);
    lemma_mul_is_distributive_sub(m10, m02 * m13 * m31 - m03 * m12 * m31 + m03 * m11 * m32 - m01 * m13 * m32, m02 * m11 * m33);
    lemma_mul_is_distributive_add(m10, m02 * m13 * m31 - m03 * m12 * m31 + m03 * m11 * m32 - m01 * m13 * m32 - m02 * m11 * m33, m01 * m12 * m33);
    assert(m10 * (m02 * m13 * m31) == m02 * m10 * m13 * m31) by (nonlinear_arith);
    assert(m10 * (m03 * m12 * m31) == m03 * m10 * m12 * m31) by (nonlinear_arith);
    assert(m10 * (m03 * m11 * m32) == m03 * m10 * m11 * m32) by (nonlinear_arith);
    assert(m10 * (m01 * m13 * m32) == m01 * m10 * m13 * m32) by (nonlinear_arith);
    assert(m10 * (m02 * m11 * m33) == m02 * m10 * m11 * m33) by (nonlinear_arith);
    assert(m10 * (m01 * m12 * m33) == m01 * m10 * m12 * m33) by (nonlinear_arith);
    lemma_mul_is_distributive_sub(m11, m03 * m12 * m30, m02 * m13 * m30);
    lemma_mul_is_distributive_sub(m11, m03 * m12 * m30 - m02 * m13 * m30, m03 * m10 * m32);
    lemma_mul_is_distributive_add(m11, m03 * m12 * m30 - m02 * m13 * m30 - m03 * m10 * m32, m00 * m13 * m32);
    lemma_mul_is_distributive_add(m11, m03 * m12 * m30 - m02 * m13 * m30 - m03 * m10 * m32 + m00 * m13 * m32, m02 * m10 * m33);
    lemma_mul_is_distributive_sub(m11, m03 * m12 * m30 - m02 * m13 * m30 - m03 * m10 * m32 + m00 * m13 * m32 + m02 * m10 * m33, m00 * m12 * m33);
    assert(m11 * (m03 * m12 * m30) == m03 * m11 * m12 * m30) by (nonlinear_arith);
    assert(m11 * (m02 * m13 * m30) == m02 * m11 * m13 * m30) by (nonlinear_arith);
    assert(m11 * (m03 * m10 * m32) == m03 * m10 * m11 * m32) by (nonlinear_arith);
    assert(m11 * (m00 * m13 * m32) == m00 * m11 * m13 * m32) by (nonlinear_arith);
    assert(m11 * (m02 * m10 * m33) == m02 * m10 * m11 * m33) by (nonlinear_arith);
    assert(m11 * (m00 * m12 * m33) == m00 * m11 * m12 * m33) by (nonlinear_arith);
    lemma_mul_is_distributive_sub(m12, m01 * m13 * m30, m03 * m11 * m30);
    lemma_mul_is_distributive_add(m12, m01 * m13 * m30 - m03 * m11 * m30, m03 * m10 * m31);
    lemma_mul_is_distributive_sub(m12, m01 * m13 * m30 - m03 * m11 * m30 + m03 * m10 * m31, m00 * m13 * m31);
    lemma_mul_is_distributive_sub(m12, m01 * m13 * m30 - m03 * m11 * m30 + m03 * m10 * m31 - m00 * m13 * m31, m01 * m10 * m33);
    lemma_mul_is_distributive_add(m12, m01 * m13 * m30 - m03 * m11 * m30 + m03 * m10 * m31 - m00 * m13 * m31 - m01 * m10 * m33, m00 * m11 * m33);
    assert(m12 * (m01 * m13 * m30) == m01 * m12 * m13 * m30) by (nonlinear_arith);
    assert(m12 * (m03 * m11 * m30) == m03 * m11 * m12 * m30) by (nonlinear_arith);
    assert(m12 * (m03 * m10 * m31) == m03 * m10 * m12 * m31) by (nonlinear_arith);
    assert(m12 * (m00 * m13 * m31) == m00 * m12 * m13 * m31) by (nonlinear_arith);
    assert(m12 * (m01 * m10 * m33) == m01 * m10 * m12 * m33) by (nonlinear_arith);
    assert(m12 * (m00 * m11 * m33) == m00 * m11 * m12 * m33) by (nonlinear_arith);
    lemma_mul_is_distributive_sub(m13, m02 * m11 * m30, m01 * m12 * m30);
    lemma_mul_is_distributive_sub(m13, m02 * m11 * m30 - m01 * m12 * m30, m02 * m10 * m31);
    lemma_mul_is_distributive_add(m13, m02 * m11 * m30 - m01 * m12 * m30 - m02 * m10 * m31, m00 * m12 * m31);
    lemma_mul_is_distributive_add(m13, m02 * m11 * m30 - m01 * m12 * m30 - m02 * m10 * m31 + m00 * m12 * m31, m01 * m10 * m32);
    lemma_mul_is_distributive_sub(m13, m02 * m11 * m30 - m01 * m12 * m30 - m02 * m10 * m31 + m00 * m12 * m31 + m01 * m10 * m32, m00 * m11 * m32);
    assert(m13 * (m02 * m11 * m30) == m02 * m11 * m13 * m30) by (nonlinear_arith);
    assert(m13 * (m01 * m12 * m30) == m01 * m12 * m13 * m30) by (nonlinear_arith);
    assert(m13 * (m02 * m10 * m31) == m02 * m10 * m13 * m31) by (nonlinear_arith);
    assert(m13 * (m00 * m12 * m31) == m00 * m12 * m13 * m31) by (nonlinear_arith);
    assert(m13 * (m01 * m10 * m32) == m01 * m10 * m13 * m32) by (nonlinear_arith);
    assert(m13 * (m00 * m11 * m32) == m00 * m11 * m13 * m32) by (nonlinear_arith);
}

proof fn lemma_ring_mul_adjugate4_13(m00: int, m01: int, m02: int, m03: int, m10: int, m11: int, m12: int, m13: int, m20: int, m21: int, m22: int, m23: int, m30: int, m31: int, m32: int, m33: int)
    ensures
        m10 * (m03 * m12 * m21 - m02 * m13 * m21 - m03 * m11 * m22 + m01 * m13 * m22 + m02 * m11 * m23 - m01 * m12 * m23) + m11 * (m02 * m13 * m20 - m03 * m12 * m20 + m03 * m10 * m22 - m00 * m13 * m22 - m02 * m10 * m23 + m00 * m12 * m23) + m12 * (m03 * m11 * m20 - m01 * m13 * m20 - m03 * m10 * m21 + m00 * m13 * m21 + m01 * m10 * m23 - m00 * m11 * m23) + m13 * (m01 * m12 * m20 - m02 * m11 * m20 + m02 * m10 * m21 - m00 * m12 * m21 - m01 * m10 * m22 + m00 * m11 * m22) == 0,
{
    lemma_mul_is_distributive_sub(m10, m03 * m12 * m21, m02 * m13 * m21);
    lemma_mul_is_distributive_sub(m10, m03 * m12 * m21 - m02 * m13 * m21, m03 * m11 * m22);
    lemma_mul_is_distributive_add(m10, m03 * m12 * m21 - m02 * m13 * m21 - m03 * m11 * m22, m01 * m13 * m22);
    lemma_mul_is_distributive_add(m10, m03 * m12 * m21 - m02 * m13 * m21 - m03 * m11 * m22 + m01 * m13 * m22, m02 * m11 * m23);
    lemma_mul_is_distributive_sub(m10, m03 * m12 * m21 - m02 * m13 * m21 - m03 * m11 * m22 + m01 * m13 * m22 + m02 * m11 * m23, m01 * m12 * m23);
    assert(m10 * (m03 * m12 * m21) == m03 * m10 * m12 * m21) by (nonlinear_arith);
    assert(m10 * (m02 * m13 * m21) == m02 * m10 * m13 * m21) by (nonlinear_arith);
    assert(m10 * (m03 * m11 * m22) == m03 * m10 * m11 * m22) by (nonlinear_arith);
    assert(m10 * (m01 * m13 * m22) == m01 * m10 * m13 * m22) by (nonlinear_arith);
    assert(m10 * (m02 * m11 * m23) == m02 * m10 * m11 * m23) by (nonlinear_arith);
    assert(m10 * (m01 * m12 * m23) == m01 * m10 * m12 * m23) by (nonlinear_arith);
    lemma_mul_is_distributive_sub(m11, m02 * m13 * m20, m03 * m12 * m20);
    lemma_mul_is_distributive_add(m11, m02 * m13 * m20 - m03 * m12 * m20, m03 * m10 * m22);
    lemma_mul_is_distributive_sub(m11, m02 * m13 * m20 - m03 * m12 * m20 + m03 * m10 * m22, m00 * m13 * m22);
    lemma_mul_is_distributive_sub(m11, m02 * m13 * m20 - m03 * m12 * m20 + m03 * m10 * m22 - m00 * m13 * m22, m02 * m10 * m23);
    lemma_mul_is_distributive_add(m11, m02 * m13 * m20 - m03 * m12 * m20 + m03 * m10 * m22 - m00 * m13 * m22 - m02 * m10 * m23, m00 * m12 * m23);
    assert(m11 * (m02 * m13 * m20) == m02 * m11 * m13 * m20) by (nonlinear_arith);
    assert(m11 * (m03 * m12 * m20) == m03 * m11 * m12 * m20) by (nonlinear_arith);
    assert(m11 * (m03 * m10 * m22) == m03 * m10 * m11 * m22) by (nonlinear_arith);
    assert(m11 * (m00 * m13 * m22) == m00 * m11 * m13 * m22) by (nonlinear_arith);
    assert(m11 * (m02 * m10 * m23) == m02 * m10 * m11 * m23) by (nonlinear_arith);
    assert(m11 * (m00 * m12 * m23) == m00 * m11 * m12 * m23) by (nonlinear_arith);
    lemma_mul_is_distributive_sub(m12, m03 * m11 * m20, m01 * m13 * m20);
    lemma_mul_is_distributive_sub(m12, m03 * m11 * m20 - m01 * m13 * m20, m03 * m10 * m21);
    lemma_mul_is_distributive_add(m12, m03 * m11 * m20 - m01 * m13 * m20 - m03 * m10 * m21, m00 * m13 * m21);
    lemma_mul_is_distributive_add(m12, m03 * m11 * m20 - m01 * m13 * m20 - m03 * m10 * m21 + m00 * m13 * m21, m01 * m10 * m23);
    lemma_mul_is_distributive_sub(m12, m03 * m11 * m20 - m01 * m13 * m20 - m03 * m10 * m21 + m00 * m13 * m21 + m01 * m10 * m23, m00 * m11 * m23);
    assert(m12 * (m03 * m11 * m20) == m03 * m11 * m12 * m20) by (nonlinear_arith);
    assert(m12 * (m01 * m13 * m20) == m01 * m12 * m13 * m20) by (nonlinear_arith);
    assert(m12 * (m03 * m10 * m21) == m03 * m10 * m12 * m21) by (nonlinear_arith);
    assert(m12 * (m00 * m13 * m21) == m00 * m12 * m13 * m21) by (nonlinear_arith);
    assert(m12 * (m01 * m10 * m23) == m01 * m10 * m12 * m23) by (nonlinear_arith);
    assert(m12 * (m00 * m11 * m23) == m00 * m11 * m12 * m23) by (nonlinear_arith);
    lemma_mul_is_distributive_sub(m13, m01 * m12 * m20, m02 * m11 * m20);
    lemma_mul_is_distributive_add(m13, m01 * m12 * m20 - m02 * m11 * m20, m02 * m10 * m21);
    lemma_mul_is_distributive_sub(m13, m01 * m12 * m20 - m02 * m11 * m20 + m02 * m10 * m21, m00 * m12 * m21);
    lemma_mul_is_distributive_sub(m13, m01 * m12 * m20 - m02 * m11 * m20 + m02 * m10 * m21 - m00 * m12 * m21, m01 * m10 * m22);
    lemma_mul_is_distributive_add(m13, m01 * m12 * m20 - m02 * m11 * m20 + m02 * m10 * m21 - m00 * m12 * m21 - m01 * m10 * m22, m00 * m11 * m22);
    assert(m13 * (m01 * m12 * m20) == m01 * m12 * m13 * m20) by (nonlinear_arith);
    assert(m13 * (m02 * m11 * m20) == m02 * m11 * m13 * m20) by (nonlinear_arith);
    assert(m13 * (m02 * m10 * m21) == m02 * m10 * m13 * m21) by (nonlinear_arith);
    assert(m13 * (m00 * m12 * m21) == m00 * m12 * m13 * m21) by (nonlinear_arith);
    assert(m13 * (m01 * m10 * m22) == m01 * m10 * m13 * m22) by (nonlinear_arith);
    assert(m13 * (m00 * m11 * m22) == m00 * m11 * m13 * m22) by (nonlinear_arith);
}

proof fn lemma_ring_mul_adjugate4_20(m00: int, m01: int, m02: int, m03: int, m10: int, m11: int, m12: int, m13: int, m20: int, m21: int, m22: int, m23: int, m30: int, m31: int, m32: int, m33: int)
    ensures
        m20 * (m12 * m23 * m31 - m13 * m22 * m31 + m13 * m21 * m32 - m11 * m23 * m32 - m12 * m21 * m33 + m11 * m22 * m33) + m21 * (m13 * m22 * m30 - m12 * m23 * m30 - m13 * m20 * m32 + m10 * m23 * m32 + m12 * m20 * m33 - m10 * m22 * m33) + m22 * (m11 * m23 * m30 - m13 * m21 * m30 + m13 * m20 * m31 - m10 * m23 * m31 - m11 * m20 * m33 + m10 * m21 * m33) + m23 * (m12 * m21 * m30 - m11 * m22 * m30 - m12 * m20 * m31 + m10 * m22 * m31 + m11 * m20 * m32 - m10 * m21 * m32) == 0,
{
    lemma_mul_is_distributive_sub(m20, m12 * m23 * m31, m13 * m22 * m31);
    lemma_mul_is_distributive_add(m20, m12 * m23 * m31 - m13 * m22 * m31, m13 * m21 * m32);
    lemma_mul_is_distributive_sub(m20, m12 * m23 * m31 - m13 * m22 * m31 + m13 * m21 * m32, m11 * m23 * m32);
    lemma_mul_is_distributive_sub(m20, m12 * m23 * m31 - m13 * m22 * m31 + m13 * m21 * m32 - m11 * m23 * m32, m12 * m21 * m33);
    lemma_mul_is_distributive_add(m20, m12 * m23 * m31 - m13 * m22 * m31 + m13 * m21 * m32 - m11 * m23 * m32 - m12 * m21 * m33, m11 * m22 * m33);
    assert(m20 * (m12 * m23 * m31) == m12 * m20 * m23 * m31) by (nonlinear_arith);
    assert(m20 * (m13 * m22 * m31) == m13 * m20 * m22 * m31) by (nonlinear_arith);
    assert(m20 * (m13 * m21 * m32) == m13 * m20 * m21 * m32) by (nonlinear_arith);
    assert(m20 * (m11 * m23 * m32) == m11 * m20 * m23 * m32) by (nonlinear_arith);
    assert(m20 * (m12 * m21 * m33) == m12 * m20 * m21 * m33) by (nonlinear_arith);
    assert(m20 * (m11 * m22 * m33) == m11 * m20 * m22 * m33) by (nonlinear_arith);
    lemma_mul_is_distributive_sub(m21, m13 * m22 * m30, m12 * m23 * m30);
    lemma_mul_is_distributive_sub(m21, m13 * m22 * m30 - m12 * m23 * m30, m13 * m20 * m32);
    lemma_mul_is_distributive_add(m21, m13 * m22 * m30 - m12 * m23 * m30 - m13 * m20 * m32, m10 * m23 * m32);
    lemma_mul_is_distributive_add(m21, m13 * m22 * m30 - m12 * m23 * m30 - m13 * m20 * m32 + m10 * m23 * m32, m12 * m20 * m33);
    lemma_mul_is_distributive_sub(m21, m13 * m22 * m30 - m12 * m23 * m30 - m13 * m20 * m32 + m10 * m23 * m32 + m12 * m20 * m33, m10 * m22 * m33);
    assert(m21 * (m13 * m22 * m30) == m13 * m21 * m22 * m30) by (nonlinear_arith);
    assert(m21 * (m12 * m23 * m30) == m12 * m21 * m23 * m30) by (nonlinear_arith);
    assert(m21 * (m13 * m20 * m32) == m13 * m20 * m21 * m32) by (nonlinear_arith);
    assert(m21 * (m10 * m23 * m32) == m10 * m21 * m23 * m32) by (nonlinear_arith);
    assert(m21 * (m12 * m20 * m33) == m12 * m20 * m21 * m33) by (nonlinear_arith);
    assert(m21 * (m10 * m22 * m33) == m10 * m21 * m22 * m33) by (nonlinear_arith);
    lemma_mul_is_distributive_sub(m22, m11 * m23 * m30, m13 * m21 * m30);
    lemma_mul_is_distributive_add(m22, m11 * m23 * m30 - m13 * m21 * m30, m13 * m20 * m31);
    lemma_mul_is_distributive_sub(m22, m11 * m23 * m30 - m13 * m21 * m30 + m13 * m20 * m31, m10 * m23 * m31);
    lemma_mul_is_distributive_sub(m22, m11 * m23 * m30 - m13 * m21 * m30 + m13 * m20 * m31 - m10 * m23 * m31, m11 * m20 * m33);
    lemma_mul_is_distributive_add(m22, m11 * m23 * m30 - m13 * m21 * m30 + m13 * m20 * m31 - m10 * m23 * m31 - m11 * m20 * m33, m10 * m21 * m33);
    assert(m22 * (m11 * m23 * m30) == m11 * m22 * m23 * m30) by (nonlinear_arith);
    assert(m22 * (m13 * m21 * m30) == m13 * m21 * m22 * m30) by (nonlinear_arith);
    assert(m22 * (m13 * m20 * m31) == m13 * m20 * m22 * m31) by (nonlinear_arith);
    assert(m22 * (m10 * m23 * m31) == m10 * m22 * m23 * m31) by (nonlinear_arith);
    assert(m22 * (m11 * m20 * m33) == m11 * m20 * m22 * m33) by (nonlinear_arith);
    assert(m22 * (m10 * m21 * m33) == m10 * m21 * m22 * m33) by (nonlinear_arith);
    lemma_mul_is_distributive_sub(m23, m12 * m21 * m30, m11 * m22 * m30);
    lemma_mul_is_distributive_sub(m23, m12 * m21 * m30 - m11 * m22 * m30, m12 * m20 * m31);
    lemma_mul_is_distributive_add(m23, m12 * m21 * m30 - m11 * m22 * m30 - m12 * m20 * m31, m10 * m22 * m31);
    lemma_mul_is_distributive_add(m23, m12 * m21 * m30 - m11 * m22 * m30 - m12 * m20 * m31 + m10 * m22 * m31, m11 * m20 * m32);
    lemma_mul_is_distributive_sub(m23, m12 * m21 * m30 - m11 * m22 * m30 - m12 * m20 * m31 + m10 * m22 * m31 + m11 * m20 * m32, m10 * m21 * m32);
    assert(m23 * (m12 * m21 * m30) == m12 * m21 * m23 * m30) by (nonlinear_arith);
    assert(m23 * (m11 * m22 * m30) == m11 * m22 * m23 * m30) by (nonlinear_arith);
    assert(m23 * (m12 * m20 * m31) == m12 * m20 * m23 * m31) by (nonlinear_arith);
    assert(m23 * (m10 * m22 * m31) == m10 * m22 * m23 * m31) by (nonlinear_arith);
    assert(m23 * (m11 * m20 * m32) == m11 * m20 * m23 * m32) by (nonlinear_arith);
    assert(m23 * (m10 * m21 * m32) == m10 * m21 * m23 * m32) by (nonlinear_arith);
}

proof fn lemma_ring_mul_adjugate4_21(m00: int, m01: int, m02: int, m03: int, m10: int, m11: int, m12: int, m13: int, m20: int, m21: int, m22: int, m23: int, m30: int, m31: int, m32: int, m33: int)
    ensures
        m20 * (m03 * m22 * m31 - m02 * m23 * m31 - m03 * m21 * m32 + m01 * m23 * m32 + m02 * m21 * m33 - m01 * m22 * m33) + m21 * (m02 * m23 * m30 - m03 * m22 * m30 + m03 * m20 * m32 - m00 * m23 * m32 - m02 * m20 * m33 + m00 * m22 * m33) + m22 * (m03 * m21 * m30 - m01 * m23 * m30 - m03 * m20 * m31 + m00 * m23 * m31 + m01 * m20 * m33 - m00 * m21 * m33) + m23 * (m01 * m22 * m30 - m02 * m21 * m30 + m02 * m20 * m31 - m00 * m22 * m31 - m01 * m20 * m32 + m00 * m21 * m32) == 0,
{
    lemma_mul_is_distributive_sub(m20, m03 * m22 * m31, m02 * m23 * m31);
    lemma_mul_is_distributive_sub(m20, m03 * m22 * m31 - m02 * m23 * m31, m03 * m21 * m32);
    lemma_mul_is_distributive_add(m20, m03 * m22 * m31 - m02 * m23 * m31 - m03 * m21 * m32, m01 * m23 * m32);
    lemma_mul_is_distributive_add(m20, m03 * m22 * m31 - m02 * m23 * m31 - m03 * m21 * m32 + m01 * m23 * m32, m02 * m21 * m33);
    lemma_mul_is_distributive_sub(m20, m03 * m22 * m31 - m02 * m23 * m31 - m03 * m21 * m32 + m01 * m23 * m32 + m02 * m21 * m33, m01 * m22 * m33);
    assert(m20 * (m03 * m22 * m31) == m03 * m20 * m22 * m31) by (nonlinear_arith);
    assert(m20 * (m02 * m23 * m31) == m02 * m20 * m23 * m31) by (nonlinear_arith);
    assert(m20 * (m03 * m21 * m32) == m03 * m20 * m21 * m32) by (nonlinear_arith);
    assert(m20 * (m01 * m23 * m32) == m01 * m20 * m23 * m32) by (nonlinear_arith);
    assert(m20 * (m02 * m21 * m33) == m02 * m20 * m21 * m33) by (nonlinear_arith);
    assert(m20 * (m01 * m22 * m33) == m01 * m20 * m22 * m33) by (nonlinear_arith);
    lemma_mul_is_distributive_sub(m21, m02 * m23 * m30, m03 * m22 * m30);
    lemma_mul_is_distributive_add(m21, m02 * m23 * m30 - m03 * m22 * m30, m03 * m20 * m32);
    lemma_mul_is_distributive_sub(m21, m02 * m23 * m30 - m03 * m22 * m30 + m03 * m20 * m32, m00 * m23 * m32);
    lemma_mul_is_distributive_sub(m21, m02 * m23 * m30 - m03 * m22 * m30 + m03 * m20 * m32 - m00 * m23 * m32, m02 * m20 * m33);
    lemma_mul_is_distributive_add(m21, m02 * m23 * m30 - m03 * m22 * m30 + m03 * m20 * m32 - m00 * m23 * m32 - m02 * m20 * m33, m00 * m22 * m33);
    assert(m21 * (m02 * m23 * m30) == m02 * m21 * m23 * m30) by (nonlinear_arith);
    assert(m21 * (m03 * m22 * m30) == m03 * m21 * m22 * m30) by (nonlinear_arith);
    assert(m21 * (m03 * m20 * m32) == m03 * m20 * m21 * m32) by (nonlinear_arith);
    assert(m21 * (m00 * m23 * m32) == m00 * m21 * m23 * m32) by (nonlinear_arith);
    assert(m21 * (m02 * m20 * m33) == m02 * m20 * m21 * m33) by (nonlinear_arith);
    assert(m21 * (m00 * m22 * m33) == m00 * m21 * m22 * m33) by (nonlinear_arith);
    lemma_mul_is_distributive_sub(m22, m03 * m21 * m30, m01 * m23 * m30);
    lemma_mul_is_distributive_sub(m22, m03 * m21 * m30 - m01 * m23 * m30, m03 * m20 * m31);
    lemma_mul_is_distributive_add(m22, m03 * m21 * m30 - m01 * m23 * m30 - m03 * m20 * m31, m00 * m23 * m31);
    lemma_mul_is_distributive_add(m22, m03 * m21 * m30 - m01 * m23 * m30 - m03 * m20 * m31 + m00 * m23 * m31, m01 * m20 * m33);
    lemma_mul_is_distributive_sub(m22, m03 * m21 * m30 - m01 * m23 * m30 - m03 * m20 * m31 + m00 * m23 * m31 + m01 * m20 * m33, m00 * m21 * m33);
    assert(m22 * (m03 * m21 * m30) == m03 * m21 * m22 * m30) by (nonlinear_arith);
    assert(m22 * (m01 * m23 * m30) == m01 * m22 * m23 * m30) by (nonlinear_arith);
    assert(m22 * (m03 * m20 * m31) == m03 * m20 * m22 * m31) by (nonlinear_arith);
    assert(m22 * (m00 * m23 * m31) == m00 * m22 * m23 * m31) by (nonlinear_arith);
    assert(m22 * (m01 * m20 * m33) == m01 * m20 * m22 * m33) by (nonlinear_arith);
    assert(m22 * (m00 * m21 * m33) == m00 * m21 * m22 * m33) by (nonlinear_arith);
    lemma_mul_is_distributive_sub(m23, m01 * m22 * m30, m02 * m21 * m30);
    lemma_mul_is_distributive_add(m23, m01 * m22 * m30 - m02 * m21 * m30, m02 * m20 * m31);
    lemma_mul_is_distributive_sub(m23, m01 * m22 * m30 - m02 * m21 * m30 + m02 * m20 * m31, m00 * m22 * m31);
    lemma_mul_is_distributive_sub(m23, m01 * m22 * m30 - m02 * m21 * m30 + m02 * m20 * m31 - m00 * m22 * m31, m01 * m20 * m32);
    lemma_mul_is_distributive_add(m23, m01 * m22 * m30 - m02 * m21 * m30 + m02 * m20 * m31 - m00 * m22 * m31 - m01 * m20 * m32, m00 * m21 * m32);
    assert(m23 * (m01 * m22 * m30) == m01 * m22 * m23 * m30) by (nonlinear_arith);
    assert(m23 * (m02 * m21 * m30) == m02 * m21 * m23 * m30) by (nonlinear_arith);
    assert(m23 * (m02 * m20 * m31) == m02 * m20 * m23 * m31) by (nonlinear_arith);
    assert(m23 * (m00 * m22 * m31) == m00 * m22 * m23 * m31) by (nonlinear_arith);
    assert(m23 * (m01 * m20 * m32) == m01 * m20 * m23 * m32) by (nonlinear_arith);
    assert(m23 * (m00 * m21 * m32) == m00 * m21 * m23 * m32) by (nonlinear_arith);
}

proof fn lemma_ring_mul_adjugate4_22(m00: int, m01: int, m02: int, m03: int, m10: int, m11: int, m12: int, m13: int, m20: int, m21: int, m22: int, m23: int, m30: int, m31: int, m32: int, m33: int)
    ensures
        m20 * (m02 * m13 * m31 - m03 * m12 * m31 + m03 * m11 * m32 - m01 * m13 * m32 - m02 * m11 * m33 + m01 * m12 * m33) + m21 * (m03 * m12 * m30 - m02 * m13 * m30 - m03 * m10 * m32 + m00 * m13 * m32 + m02 * m10 * m33 - m00 * m12 * m33) + m22 * (m01 * m13 * m30 - m03 * m11 * m30 + m03 * m10 * m31 - m00 * m13 * m31 - m01 * m10 * m33 + m00 * m11 * m33) + m23 * (m02 * m11 * m30 - m01 * m12 * m30 - m02 * m10 * m31 + m00 * m12 * m31 + m01 * m10 * m32 - m00 * m11 * m32) == m03 * m12 * m21 * m30 - m02 * m13 * m21 * m30 - m03 * m11 * m22 * m30 + m01 * m13 * m22 * m30 + m02 * m11 * m23 * m30 - m01 * m12 * m23 * m30 - m03 * m12 * m20 * m31 + m02 * m13 * m20 * m31 + m03 * m10 * m22 * m31 - m00 * m13 * m22 * m31 - m02 * m10 * m23 * m31 + m00 * m12 * m23 * m31 + m03 * m11 * m20 * m32 - m01 * m13 * m20 * m32 - m03 * m10 * m21 * m32 + m00 * m13 * m21 * m32 + m01 * m10 * m23 * m32 - m00 * m11 * m23 * m32 - m02 * m11 * m20 * m33 + m01 * m12 * m20 * m33 + m02 * m10 * m21 * m33 - m00 * m12 * m21 * m33 - m01 * m10 * m22 * m33 + m00 * m11 * m22 * m33,
{
    lemma_mul_is_distributive_sub(m20, m02 * m13 * m31, m03 * m12 * m31);
    lemma_mul_is_distributive_add(m20, m02 * m13 * m31 - m03 * m12 * m31, m03 * m11 * m32);
    lemma_mul_is_distributive_sub(m20, m02 * m13 * m31 - m03 * m12 * m31 + m03 * m11 * m32, m01 * m13 * m32);
    lemma_mul_is_distributive_sub(m20, m02 * m13 * m31 - m03 * m12 * m31 + m03 * m11 * m32 - m01 * m13 * m32, m02 * m11 * m33);
    lemma_mul_is_distributive_add(m20, m02 * m13 * m31 - m03 * m12 * m31 + m03 * m11 * m32 - m01 * m13 * m32 - m02 * m11 * m33, m01 * m12 * m33);
    assert(m20 * (m02 * m13 * m31) == m02 * m13 * m20 * m31) by (nonlinear_arith);
    assert(m20 * (m03 * m12 * m31) == m03 * m12 * m20 * m31) by (nonlinear_arith);
    assert(m20 * (m03 * m11 * m32) == m03 * m11 * m20 * m32) by (nonlinear_arith);
    assert(m20 * (m01 * m13 * m32) == m01 * m13 * m20 * m32) by (nonlinear_arith);
    assert(m20 * (m02 * m11 * m33) == m02 * m11 * m20 * m33) by (nonlinear_arith);
    assert(m20 * (m01 * m12 * m33) == m01 * m12 * m20 * m33) by (nonlinear_arith);
    lemma_mul_is_distributive_sub(m21, m03 * m12 * m30, m02 * m13 * m30);
    lemma_mul_is_distributive_sub(m21, m03 * m12 * m30 - m02 * m13 * m30, m03 * m10 * m32);
    lemma_mul_is_distributive_add(m21, m03 * m12 * m30 - m02 * m13 * m30 - m03 * m10 * m32, m00 * m13 * m32);
    lemma_mul_is_distributive_add(m21, m03 * m12 * m30 - m02 * m13 * m30 - m03 * m10 * m32 + m00 * m13 * m32, m02 * m10 * m33);
    lemma_mul_is_distributive_sub(m21, m03 * m12 * m30 - m02 * m13 * m30 - m03 * m10 * m32 + m00 * m13 * m32 + m02 * m10 * m33, m00 * m12 * m33);
    assert(m21 * (m03 * m12 * m30) == m03 * m12 * m21 * m30) by (nonlinear_arith);
    assert(m21 * (m02 * m13 * m30) == m02 * m13 * m21 * m30) by (nonlinear_arith);
    assert(m21 * (m03 * m10 * m32) == m03 * m10 * m21 * m32) by (nonlinear_arith);
    assert(m21 * (m00 * m13 * m32) == m00 * m13 * m21 * m32) by (nonlinear_arith);
    assert(m21 * (m02 * m10 * m33) == m02 * m10 * m21 * m33) by (nonlinear_arith);
    assert(m21 * (m00 * m12 * m33) == m00 * m12 * m21 * m33) by (nonlinear_arith);
    lemma_mul_is_distributive_sub(m22, m01 * m13 * m30, m03 * m11 * m30);
    lemma_mul_is_distributive_add(m22, m01 * m13 * m30 - m03 * m11 * m30, m03 * m10 * m31);
    lemma_mul_is_distributive_sub(m22, m01 * m13 * m30 - m03 * m11 * m30 + m03 * m10 * m31, m00 * m13 * m31);
    lemma_mul_is_distributive_sub(m22, m01 * m13 * m30 - m03 * m11 * m30 + m03 * m10 * m31 - m00 * m13 * m31, m01 * m10 * m33);
    lemma_mul_is_distributive_add(m22, m01 * m13 * m30 - m03 * m11 * m30 + m03 * m10 * m31 - m00 * m13 * m31 - m01 * m10 * m33, m00 * m11 * m33);
    assert(m22 * (m01 * m13 * m30) == m01 * m13 * m22 * m30) by (nonlinear_arith);
    assert(m22 * (m03 * m11 * m30) == m03 * m11 * m22 * m30) by (nonlinear_arith);
    assert(m22 * (m03 * m10 * m31) == m03 * m10 * m22 * m31) by (nonlinear_arith);
    assert(m22 * (m00 * m13 * m31) == m00 * m13 * m22 * m31) by (nonlinear_arith);
    assert(m22 * (m01 * m10 * m33) == m01 * m10 * m22 * m33) by (nonlinear_arith);
    assert(m22 * (m00 * m11 * m33) == m00 * m11 * m22 * m33) by (nonlinear_arith);
    lemma_mul_is_distributive_sub(m23, m02 * m11 * m30, m01 * m12 * m30);
    lemma_mul_is_distributive_sub(m23, m02 * m11 * m30 - m01 * m12 * m30, m02 * m10 * m31);
    lemma_mul_is_distributive_add(m23, m02 * m11 * m30 - m01 * m12 * m30 - m02 * m10 * m31, m00 * m12 * m31);
    lemma_mul_is_distributive_add(m23, m02 * m11 * m30 - m01 * m12 * m30 - m02 * m10 * m31 + m00 * m12 * m31, m01 * m10 * m32);
    lemma_mul_is_distributive_sub(m23, m02 * m11 * m30 - m01 * m12 * m30 - m02 * m10 * m31 + m00 * m12 * m31 + m01 * m10 * m32, m00 * m11 * m32);
    assert(m23 * (m02 * m11 * m30) == m02 * m11 * m23 * m30) by (nonlinear_arith);
    assert(m23 * (m01 * m12 * m30) == m01 * m12 * m23 * m30) by (nonlinear_arith);
    assert(m23 * (m02 * m10 * m31) == m02 * m10 * m23 * m31) by (nonlinear_arith);
    assert(m23 * (m00 * m12 * m31) == m00 * m12 * m23 * m31) by (nonlinear_arith);
    assert(m23 * (m01 * m10 * m32) == m01 * m10 * m23 * m32) by (nonlinear_arith);
    assert(m23 * (m00 * m11 * m32) == m00 * m11 * m23 * m32) by (nonlinear_arith);
}

proof fn lemma_ring_mul_adjugate4_23(m00: int, m01: int, m02: int, m03: int, m10: int, m11: int, m12: int, m13: int, m20: int, m21: int, m22: int, m23: int, m30: int, m31: int, m32: int, m33: int)
    ensures
        m20 * (m03 * m12 * m21 - m02 * m13 * m21 - m03 * m11 * m22 + m01 * m13 * m22 + m02 * m11 * m23 - m01 * m12 * m23) + m21 * (m02 * m13 * m20 - m03 * m12 * m20 + m03 * m10 * m22 - m00 * m13 * m22 - m02 * m10 * m23 + m00 * m12 * m23) + m22 * (m03 * m11 * m20 - m01 * m13 * m20 - m03 * m10 * m21 + m00 * m13 * m21 + m01 * m10 * m23 - m00 * m11 * m23) + m23 * (m01 * m12 * m20 - m02 * m11 * m20 + m02 * m10 * m21 - m00 * m12 * m21 - m01 * m10 * m22 + m00 * m11 * m22) == 0,
{
    lemma_mul_is_distributive_sub(m20, m03 * m12 * m21, m02 * m13 * m21);
    lemma_mul_is_distributive_sub(m20, m03 * m12 * m21 - m02 * m13 * m21, m03 * m11 * m22);
    lemma_mul_is_distributive_add(m20, m03 * m12 * m21 - m02 * m13 * m21 - m03 * m11 * m22, m01 * m13 * m22);
    lemma_mul_is_distributive_add(m20, m03 * m12 * m21 - m02 * m13 * m21 - m03 * m11 * m22 + m01 * m13 * m22, m02 * m11 * m23);
    lemma_mul_is_distributive_sub(m20, m03 * m12 * m21 - m02 * m13 * m21 - m03 * m11 * m22 + m01 * m13 * m22 + m02 * m11 * m23, m01 * m12 * m23);
    assert(m20 * (m03 * m12 * m21) == m03 * m12 * m20 * m21) by (nonlinear_arith);
    assert(m20 * (m02 * m13 * m21) == m02 * m13 * m20 * m21) by (nonlinear_arith);
    assert(m20 * (m03 * m11 * m22) == m03 * m11 * m20 * m22) by (nonlinear_arith);
    assert(m20 * (m01 * m13 * m22) == m01 * m13 * m20 * m22) by (nonlinear_arith);
    assert(m20 * (m02 * m11 * m23) == m02 * m11 * m20 * m23) by (nonlinear_arith);
    assert(m20 * (m01 * m12 * m23) == m01 * m12 * m20 * m23) by (nonlinear_arith);
    lemma_mul_is_distributive_sub(m21, m02 * m13 * m20, m03 * m12 * m20);
    lemma_mul_is_distributive_add(m21, m02 * m13 * m20 - m03 * m12 * m20, m03 * m10 * m22);
    lemma_mul_is_distributive_sub(m21, m02 * m13 * m20 - m03 * m12 * m20 + m03 * m10 * m22, m00 * m13 * m22);
    lemma_mul_is_distributive_sub(m21, m02 * m13 * m20 - m03 * m12 * m20 + m03 * m10 * m22 - m00 * m13 * m22, m02 * m10 * m23);
    lemma_mul_is_distributive_add(m21, m02 * m13 * m20 - m03 * m12 * m20 + m03 * m10 * m22 - m00 * m13 * m22 - m02 * m10 * m23, m00 * m12 * m23);
    assert(m21 * (m02 * m13 * m20) == m02 * m13 * m20 * m21) by (nonlinear_arith);
    assert(m21 * (m03 * m12 * m20) == m03 * m12 * m20 * m21) by (nonlinear_arith);
    assert(m21 * (m03 * m10 * m22) == m03 * m10 * m21 * m22) by (nonlinear_arith);
    assert(m21 * (m00 * m13 * m22) == m00 * m13 * m21 * m22) by (nonlinear_arith);
    assert(m21 * (m02 * m10 * m23) == m02 * m10 * m21 * m23) by (nonlinear_arith);
    assert(m21 * (m00 * m12 * m23) == m00 * m12 * m21 * m23) by (nonlinear_arith);
    lemma_mul_is_distributive_sub(m22, m03 * m11 * m20, m01 * m13 * m20);
    lemma_mul_is_distributive_sub(m22, m03 * m11 * m20 - m01 * m13 * m20, m03 * m10 * m21);
    lemma_mul_is_distributive_add(m22, m03 * m11 * m20 - m01 * m13 * m20 - m03 * m10 * m21, m00 * m13 * m21);
    lemma_mul_is_distributive_add(m22, m03 * m11 * m20 - m01 * m13 * m20 - m03 * m10 * m21 + m00 * m13 * m21, m01 * m10 * m23);
    lemma_mul_is_distributive_sub(m22, m03 * m11 * m20 - m01 * m13 * m20 - m03 * m10 * m21 + m00 * m13 * m21 + m01 * m10 * m23, m00 * m11 * m23);
    assert(m22 * (m03 * m11 * m20) == m03 * m11 * m20 * m22) by (nonlinear_arith);
    assert(m22 * (m01 * m13 * m20) == m01 * m13 * m20 * m22) by (nonlinear_arith);
    assert(m22 * (m03 * m10 * m21) == m03 * m10 * m21 * m22) by (nonlinear_arith);
    assert(m22 * (m00 * m13 * m21) == m00 * m13 * m21 * m22) by (nonlinear_arith);
    assert(m22 * (m01 * m10 * m23) == m01 * m10 * m22 * m23) by (nonlinear_arith);
    assert(m22 * (m00 * m11 * m23) == m00 * m11 * m22 * m23) by (nonlinear_arith);
    lemma_mul_is_distributive_sub(m23, m01 * m12 * m20, m02 * m11 * m20);
    lemma_mul_is_distributive_add(m23, m01 * m12 * m20 - m02 * m11 * m20, m02 * m10 * m21);
    lemma_mul_is_distributive_sub(m23, m01 * m12 * m20 - m02 * m11 * m20 + m02 * m10 * m21, m00 * m12 * m21);
    lemma_mul_is_distributive_sub(m23, m01 * m12 * m20 - m02 * m11 * m20 + m02 * m10 * m21 - m00 * m12 * m21, m01 * m10 * m22);
    lemma_mul_is_distributive_add(m23, m01 * m12 * m20 - m02 * m11 * m20 + m02 * m10 * m21 - m00 * m12 * m21 - m01 * m10 * m22, m00 * m11 * m22);
    assert(m23 * (m01 * m12 * m20) == m01 * m12 * m20 * m23) by (nonlinear_arith);
    assert(m23 * (m02 * m11 * m20) == m02 * m11 * m20 * m23) by (nonlinear_arith);
    assert(m23 * (m02 * m10 * m21) == m02 * m10 * m21 * m23) by (nonlinear_arith);
    assert(m23 * (m00 * m12 * m21) == m00 * m12 * m21 * m23) by (nonlinear_arith);
    assert(m23 * (m01 * m10 * m22) == m01 * m10 * m22 * m23) by (nonlinear_arith);
    assert(m23 * (m00 * m11 * m22) == m00 * m11 * m22 * m23) by (nonlinear_arith);
}

proof fn lemma_ring_mul_adjugate4_30(m00: int, m01: int, m02: int, m03: int, m10: int, m11: int, m12: int, m13: int, m20: int, m21: int, m22: int, m23: int, m30: int, m31: int, m32: int, m33: int)
    ensures
        m30 * (m12 * m23 * m31 - m13 * m22 * m31 + m13 * m21 * m32 - m11 * m23 * m32 - m12 * m21 * m33 + m11 * m22 * m33) + m31 * (m13 * m22 * m30 - m12 * m23 * m30 - m13 * m20 * m32 + m10 * m23 * m32 + m12 * m20 * m33 - m10 * m22 * m33) + m32 * (m11 * m23 * m30 - m13 * m21 * m30 + m13 * m20 * m31 - m10 * m23 * m31 - m11 * m20 * m33 + m10 * m21 * m33) + m33 * (m12 * m21 * m30 - m11 * m22 * m30 - m12 * m20 * m31 + m10 * m22 * m31 + m11 * m20 * m32 - m10 * m21 * m32) == 0,
{
    lemma_mul_is_distributive_sub(m30, m12 * m23 * m31, m13 * m22 * m31);
    lemma_mul_is_distributive_add(m30, m12 * m23 * m31 - m13 * m22 * m31, m13 * m21 * m32);
    lemma_mul_is_distributive_sub(m30, m12 * m23 * m31 - m13 * m22 * m31 + m13 * m21 * m32, m11 * m23 * m32);
    lemma_mul_is_distributive_sub(m30, m12 * m23 * m31 - m13 * m22 * m31 + m13 * m21 * m32 - m11 * m23 * m32, m12 * m21 * m33);
    lemma_mul_is_distributive_add(m30, m12 * m23 * m31 - m13 * m22 * m31 + m13 * m21 * m32 - m11 * m23 * m32 - m12 * m21 * m33, m11 * m22 * m33);
    assert(m30 * (m12 * m23 * m31) == m12 * m23 * m30 * m31) by (nonlinear_arith);
    assert(m30 * (m13 * m22 * m31) == m13 * m22 * m30 * m31) by (nonlinear_arith);
    assert(m30 * (m13 * m21 * m32) == m13 * m21 * m30 * m32) by (nonlinear_arith);
    assert(m30 * (m11 * m23 * m32) == m11 * m23 * m30 * m32) by (nonlinear_arith);
    assert(m30 * (m12 * m21 * m33) == m12 * m21 * m30 * m33) by (nonlinear_arith);
    assert(m30 * (m11 * m22 * m33) == m11 * m22 * m30 * m33) by (nonlinear_arith);
    lemma_mul_is_distributive_sub(m31, m13 * m22 * m30, m12 * m23 * m30);
    lemma_mul_is_distributive_sub(m31, m13 * m22 * m30 - m12 * m23 * m30, m13 * m20 * m32);
    lemma_mul_is_distributive_add(m31, m13 * m22 * m30 - m12 * m23 * m30 - m13 * m20 * m32, m10 * m23 * m32);
    lemma_mul_is_distributive_add(m31, m13 * m22 * m30 - m12 * m23 * m30 - m13 * m20 * m32 + m10 * m23 * m32, m12 * m20 * m33);
    lemma_mul_is_distributive_sub(m31, m13 * m22 * m30 - m12 * m23 * m30 - m13 * m20 * m32 + m10 * m23 * m32 + m12 * m20 * m33, m10 * m22 * m33);
    assert(m31 * (m13 * m22 * m30) == m13 * m22 * m30 * m31) by (nonlinear_arith);
    assert(m31 * (m12 * m23 * m30) == m12 * m23 * m30 * m31) by (nonlinear_arith);
    assert(m31 * (m13 * m20 * m32) == m13 * m20 * m31 * m32) by (nonlinear_arith);
    assert(m31 * (m10 * m23 * m32) == m10 * m23 * m31 * m32) by (nonlinear_arith);
    assert(m31 * (m12 * m20 * m33) == m12 * m20 * m31 * m33) by (nonlinear_arith);
    assert(m31 * (m10 * m22 * m33) == m10 * m22 * m31 * m33) by (nonlinear_arith);
    lemma_mul_is_distributive_sub(m32, m11 * m23 * m30, m13 * m21 * m30);
    lemma_mul_is_distributive_add(m32, m11 * m23 * m30 - m13 * m21 * m30, m13 * m20 * m31);
    lemma_mul_is_distributive_sub(m32, m11 * m23 * m30 - m13 * m21 * m30 + m13 * m20 * m31, m10 * m23 * m31);
    lemma_mul_is_distributive_sub(m32, m11 * m23 * m30 - m13 * m21 * m30 + m13 * m20 * m31 - m10 * m23 * m31, m11 * m20 * m33);
    lemma_mul_is_distributive_add(m32, m11 * m23 * m30 - m13 * m21 * m30 + m13 * m20 * m31 - m10 * m23 * m31 - m11 * m20 * m33, m10 * m21 * m33);
    assert(m32 * (m11 * m23 * m30) == m11 * m23 * m30 * m32) by (nonlinear_arith);
    assert(m32 * (m13 * m21 * m30) == m13 * m21 * m30 * m32) by (nonlinear_arith);
    assert(m32 * (m13 * m20 * m31) == m13 * m20 * m31 * m32) by (nonlinear_arith);
    assert(m32 * (m10 * m23 * m31) == m10 * m23 * m31 * m32) by (nonlinear_arith);
    assert(m32 * (m11 * m20 * m33) == m11 * m20 * m32 * m33) by (nonlinear_arith);
    assert(m32 * (m10 * m21 * m33) == m10 * m21 * m32 * m33) by (nonlinear_arith);
    lemma_mul_is_distributive_sub(m33, m12 * m21 * m30, m11 * m22 * m30);
    lemma_mul_is_distributive_sub(m33, m12 * m21 * m30 - m11 * m22 * m30, m12 * m20 * m31);
    lemma_mul_is_distributive_add(m33, m12 * m21 * m30 - m11 * m22 * m30 - m12 * m20 * m31, m10 * m22 * m31);
    lemma_mul_is_distributive_add(m33, m12 * m21 * m30 - m11 * m22 * m30 - m12 * m20 * m31 + m10 * m22 * m31, m11 * m20 * m32);
    lemma_mul_is_distributive_sub(m33, m12 * m21 * m30 - m11 * m22 * m30 - m12 * m20 * m31 + m10 * m22 * m31 + m11 * m20 * m32, m10 * m21 * m32);
    assert(m33 * (m12 * m21 * m30) == m12 * m21 * m30 * m33) by (nonlinear_arith);
    assert(m33 * (m11 * m22 * m30) == m11 * m22 * m30 * m33) by (nonlinear_arith);
    assert(m33 * (m12 * m20 * m31) == m12 * m20 * m31 * m33) by (nonlinear_arith);
    assert(m33 * (m10 * m22 * m31) == m10 * m22 * m31 * m33) by (nonlinear_arith);
    assert(m33 * (m11 * m20 * m32) == m11 * m20 * m32 * m33) by (nonlinear_arith);
    assert(m33 * (m10 * m21 * m32) == m10 * m21 * m32 * m33) by (nonlinear_arith);
}

proof fn lemma_ring_mul_adjugate4_31(m00: int, m01: int, m02: int, m03: int, m10: int, m11: int, m12: int, m13: int, m20: int, m21: int, m22: int, m23: int, m30: int, m31: int, m32: int, m33: int)
    ensures
        m30 * (m03 * m22 * m31 - m02 * m23 * m31 - m03 * m21 * m32 + m01 * m23 * m32 + m02 * m21 * m33 - m01 * m22 * m33) + m31 * (m02 * m23 * m30 - m03 * m22 * m30 + m03 * m20 * m32 - m00 * m23 * m32 - m02 * m20 * m33 + m00 * m22 * m33) + m32 * (m03 * m21 * m30 - m01 * m23 * m30 - m03 * m20 * m31 + m00 * m23 * m31 + m01 * m20 * m33 - m00 * m21 * m33) + m33 * (m01 * m22 * m30 - m02 * m21 * m30 + m02 * m20 * m31 - m00 * m22 * m31 - m01 * m20 * m32 + m00 * m21 * m32) == 0,
{
    lemma_mul_is_distributive_sub(m30, m03 * m22 * m31, m02 * m23 * m31);
    lemma_mul_is_distributive_sub(m30, m03 * m22 * m31 - m02 * m23 * m31, m03 * m21 * m32);
    lemma_mul_is_distributive_add(m30, m03 * m22 * m31 - m02 * m23 * m31 - m03 * m21 * m32, m01 * m23 * m32);
    lemma_mul_is_distributive_add(m30, m03 * m22 * m31 - m02 * m23 * m31 - m03 * m21 * m32 + m01 * m23 * m32, m02 * m21 * m33);
    lemma_mul_is_distributive_sub(m30, m03 * m22 * m31 - m02 * m23 * m31 - m03 * m21 * m32 + m01 * m23 * m32 + m02 * m21 * m33, m01 * m22 * m33);
    assert(m30 * (m03 * m22 * m31) == m03 * m22 * m30 * m31) by (nonlinear_arith);
    assert(m30 * (m02 * m23 * m31) == m02 * m23 * m30 * m31) by (nonlinear_arith);
    assert(m30 * (m03 * m21 * m32) == m03 * m21 * m30 * m32) by (nonlinear_arith);
    assert(m30 * (m01 * m23 * m32) == m01 * m23 * m30 * m32) by (nonlinear_arith);
    assert(m30 * (m02 * m21 * m33) == m02 * m21 * m30 * m33) by (nonlinear_arith);
    assert(m30 * (m01 * m22 * m33) == m01 * m22 * m30 * m33) by (nonlinear_arith);
    lemma_mul_is_distributive_sub(m31, m02 * m23 * m30, m03 * m22 * m30);
    lemma_mul_is_distributive_add(m31, m02 * m23 * m30 - m03 * m22 * m30, m03 * m20 * m32);
    lemma_mul_is_distributive_sub(m31, m02 * m23 * m30 - m03 * m22 * m30 + m03 * m20 * m32, m00 * m23 * m32);
    lemma_mul_is_distributive_sub(m31, m02 * m23 * m30 - m03 * m22 * m30 + m03 * m20 * m32 - m00 * m23 * m32, m02 * m20 * m33);
    lemma_mul_is_distributive_add(m31, m02 * m23 * m30 - m03 * m22 * m30 + m03 * m20 * m32 - m00 * m23 * m32 - m02 * m20 * m33, m00 * m22 * m33);
    assert(m31 * (m02 * m23 * m30) == m02 * m23 * m30 * m31) by (nonlinear_arith);
    assert(m31 * (m03 * m22 * m30) == m03 * m22 * m30 * m31) by (nonlinear_arith);
    assert(m31 * (m03 * m20 * m32) == m03 * m20 * m31 * m32) by (nonlinear_arith);
    assert(m31 * (m00 * m23 * m32) == m00 * m23 * m31 * m32) by (nonlinear_arith);
    assert(m31 * (m02 * m20 * m33) == m02 * m20 * m31 * m33) by (nonlinear_arith);
    assert(m31 * (m00 * m22 * m33) == m00 * m22 * m31 * m33) by (nonlinear_arith);
    lemma_mul_is_distributive_sub(m32, m03 * m21 * m30, m01 * m23 * m30);
    lemma_mul_is_distributive_sub(m32, m03 * m21 * m30 - m01 * m23 * m30, m03 * m20 * m31);
    lemma_mul_is_distributive_add(m32, m03 * m21 * m30 - m01 * m23 * m30 - m03 * m20 * m31, m00 * m23 * m31);
    lemma_mul_is_distributive_add(m32, m03 * m21 * m30 - m01 * m23 * m30 - m03 * m20 * m31 + m00 * m23 * m31, m01 * m20 * m33);
    lemma_mul_is_distributive_sub(m32, m03 * m21 * m30 - m01 * m23 * m30 - m03 * m20 * m31 + m00 * m23 * m31 + m01 * m20 * m33, m00 * m21 * m33);
    assert(m32 * (m03 * m21 * m30) == m03 * m21 * m30 * m32) by (nonlinear_arith);
    assert(m32 * (m01 * m23 * m30) == m01 * m23 * m30 * m32) by (nonlinear_arith);
    assert(m32 * (m03 * m20 * m31) == m03 * m20 * m31 * m32) by (nonlinear_arith);
    assert(m32 * (m00 * m23 * m31) == m00 * m23 * m31 * m32) by (nonlinear_arith);
    assert(m32 * (m01 * m20 * m33) == m01 * m20 * m32 * m33) by (nonlinear_arith);
    assert(m32 * (m00 * m21 * m33) == m00 * m21 * m32 * m33) by (nonlinear_arith);
    lemma_mul_is_distributive_sub(m33, m01 * m22 * m30, m02 * m21 * m30);
    lemma_mul_is_distributive_add(m33, m01 * m22 * m30 - m02 * m21 * m30, m02 * m20 * m31);
    lemma_mul_is_distributive_sub(m33, m01 * m22 * m30 - m02 * m21 * m30 + m02 * m20 * m31, m00 * m22 * m31);
    lemma_mul_is_distributive_sub(m33, m01 * m22 * m30 - m02 * m21 * m30 + m02 * m20 * m31 - m00 * m22 * m31, m01 * m20 * m32);
    lemma_mul_is_distributive_add(m33, m01 * m22 * m30 - m02 * m21 * m30 + m02 * m20 * m31 - m00 * m22 * m31 - m01 * m20 * m32, m00 * m21 * m32);
    assert(m33 * (m01 * m22 * m30) == m01 * m22 * m30 * m33) by (nonlinear_arith);
    assert(m33 * (m02 * m21 * m30) == m02 * m21 * m30 * m33) by (nonlinear_arith);
    assert(m33 * (m02 * m20 * m31) == m02 * m20 * m31 * m33) by (nonlinear_arith);
    assert(m33 * (m00 * m22 * m31) == m00 * m22 * m31 * m33) by (nonlinear_arith);
    assert(m33 * (m01 * m20 * m32) == m01 * m20 * m32 * m33) by (nonlinear_arith);
    assert(m33 * (m00 * m21 * m32) == m00 * m21 * m32 * m33) by (nonlinear_arith);
}

proof fn lemma_ring_mul_adjugate4_32(m00: int, m01: int, m02: int, m03: int, m10: int, m11: int, m12: int, m13: int, m20: int, m21: int, m22: int, m23: int, m30: int, m31: int, m32: int, m33: int)
    ensures
        m30 * (m02 * m13 * m31 - m03 * m12 * m31 + m03 * m11 * m32 - m01 * m13 * m32 - m02 * m11 * m33 + m01 * m12 * m33) + m31 * (m03 * m12 * m30 - m02 * m13 * m30 - m03 * m10 * m32 + m00 * m13 * m32 + m02 * m10 * m33 - m00 * m12 * m33) + m32 * (m01 * m13 * m30 - m03 * m11 * m30 + m03 * m10 * m31 - m00 * m13 * m31 - m01 * m10 * m33 + m00 * m11 * m33) + m33 * (m02 * m11 * m30 - m01 * m12 * m30 - m02 * m10 * m31 + m00 * m12 * m31 + m01 * m10 * m32 - m00 * m11 * m32) == 0,
{
    lemma_mul_is_distributive_sub(m30, m02 * m13 * m31, m03 * m12 * m31);
    lemma_mul_is_distributive_add(m30, m02 * m13 * m31 - m03 * m12 * m31, m03 * m11 * m32);
    lemma_mul_is_distributive_sub(m30, m02 * m13 * m31 - m03 * m12 * m31 + m03 * m11 * m32, m01 * m13 * m32);
    lemma_mul_is_distributive_sub(m30, m02 * m13 * m31 - m03 * m12 * m31 + m03 * m11 * m32 - m01 * m13 * m32, m02 * m11 * m33);
    lemma_mul_is_distributive_add(m30, m02 * m13 * m31 - m03 * m12 * m31 + m03 * m11 * m32 - m01 * m13 * m32 - m02 * m11 * m33, m01 * m12 * m33);
    assert(m30 * (m02 * m13 * m31) == m02 * m13 * m30 * m31) by (nonlinear_arith);
    assert(m30 * (m03 * m12 * m31) == m03 * m12 * m30 * m31) by (nonlinear_arith);
    assert(m30 * (m03 * m11 * m32) == m03 * m11 * m30 * m32) by (nonlinear_arith);
    assert(m30 * (m01 * m13 * m32) == m01 * m13 * m30 * m32) by (nonlinear_arith);
    assert(m30 * (m02 * m11 * m33) == m02 * m11 * m30 * m33) by (nonlinear_arith);
    assert(m30 * (m01 * m12 * m33) == m01 * m12 * m30 * m33) by (nonlinear_arith);
    lemma_mul_is_distributive_sub(m31, m03 * m12 * m30, m02 * m13 * m30);
    lemma_mul_is_distributive_sub(m31, m03 * m12 * m30 - m02 * m13 * m30, m03 * m10 * m32);
    lemma_mul_is_distributive_add(m31, m03 * m12 * m30 - m02 * m13 * m30 - m03 * m10 * m32, m00 * m13 * m32);
    lemma_mul_is_distributive_add(m31, m03 * m12 * m30 - m02 * m13 * m30 - m03 * m10 * m32 + m00 * m13 * m32, m02 * m10 * m33);
    lemma_mul_is_distributive_sub(m31, m03 * m12 * m30 - m02 * m13 * m30 - m03 * m10 * m32 + m00 * m13 * m32 + m02 * m10 * m33, m00 * m12 * m33);
    assert(m31 * (m03 * m12 * m30) == m03 * m12 * m30 * m31) by (nonlinear_arith);
    assert(m31 * (m02 * m13 * m30) == m02 * m13 * m30 * m31) by (nonlinear_arith);
    assert(m31 * (m03 * m10 * m32) == m03 * m10 * m31 * m32) by (nonlinear_arith);
    assert(m31 * (m00 * m13 * m32) == m00 * m13 * m31 * m32) by (nonlinear_arith);
    assert(m31 * (m02 * m10 * m33) == m02 * m10 * m31 * m33) by (nonlinear_arith);
    assert(m31 * (m00 * m12 * m33) == m00 * m12 * m31 * m33) by (nonlinear_arith);
    lemma_mul_is_distributive_sub(m32, m01 * m13 * m30, m03 * m11 * m30);
    lemma_mul_is_distributive_add(m32, m01 * m13 * m30 - m03 * m11 * m30, m03 * m10 * m31);
    lemma_mul_is_distributive_sub(m32, m01 * m13 * m30 - m03 * m11 * m30 + m03 * m10 * m31, m00 * m13 * m31);
    lemma_mul_is_distributive_sub(m32, m01 * m13 * m30 - m03 * m11 * m30 + m03 * m10 * m31 - m00 * m13 * m31, m01 * m10 * m33);
    lemma_mul_is_distributive_add(m32, m01 * m13 * m30 - m03 * m11 * m30 + m03 * m10 * m31 - m00 * m13 * m31 - m01 * m10 * m33, m00 * m11 * m33);
    assert(m32 * (m01 * m13 * m30) == m01 * m13 * m30 * m32) by (nonlinear_arith);
    assert(m32 * (m03 * m11 * m30) == m03 * m11 * m30 * m32) by (nonlinear_arith);
    assert(m32 * (m03 * m10 * m31) == m03 * m10 * m31 * m32) by (nonlinear_arith);
    assert(m32 * (m00 * m13 * m31) == m00 * m13 * m31 * m32) by (nonlinear_arith);
    assert(m32 * (m01 * m10 * m33) == m01 * m10 * m32 * m33) by (nonlinear_arith);
    assert(m32 * (m00 * m11 * m33) == m00 * m11 * m32 * m33) by (nonlinear_arith);
    lemma_mul_is_distributive_sub(m33, m02 * m11 * m30, m01 * m12 * m30);
    lemma_mul_is_distributive_sub(m33, m02 * m11 * m30 - m01 * m12 * m30, m02 * m10 * m31);
    lemma_mul_is_distributive_add(m33, m02 * m11 * m30 - m01 * m12 * m30 - m02 * m10 * m31, m00 * m12 * m31);
    lemma_mul_is_distributive_add(m33, m02 * m11 * m30 - m01 * m12 * m30 - m02 * m10 * m31 + m00 * m12 * m31, m01 * m10 * m32);
    lemma_mul_is_distributive_sub(m33, m02 * m11 * m30 - m01 * m12 * m30 - m02 * m10 * m31 + m00 * m12 * m31 + m01 * m10 * m32, m00 * m11 * m32);
    assert(m33 * (m02 * m11 * m30) == m02 * m11 * m30 * m33) by (nonlinear_arith);
    assert(m33 * (m01 * m12 * m30) == m01 * m12 * m30 * m33) by (nonlinear_arith);
    assert(m33 * (m02 * m10 * m31) == m02 * m10 * m31 * m33) by (nonlinear_arith);
    assert(m33 * (m00 * m12 * m31) == m00 * m12 * m31 * m33) by (nonlinear_arith);
    assert(m33 * (m01 * m10 * m32) == m01 * m10 * m32 * m33) by (nonlinear_arith);
    assert(m33 * (m00 * m11 * m32) == m00 * m11 * m32 * m33) by (nonlinear_arith);
}

proof fn lemma_ring_mul_adjugate4_33(m00: int, m01: int, m02: int, m03: int, m10: int, m11: int, m12: int, m13: int, m20: int, m21: int, m22: int, m23: int, m30: int, m31: int, m32: int, m33: int)
    ensures
        m30 * (m03 * m12 * m21 - m02 * m13 * m21 - m03 * m11 * m22 + m01 * m13 * m22 + m02 * m11 * m23 - m01 * m12 * m23) + m31 * (m02 * m13 * m20 - m03 * m12 * m20 + m03 * m10 * m22 - m00 * m13 * m22 - m02 * m10 * m23 + m00 * m12 * m23) + m32 * (m03 * m11 * m20 - m01 * m13 * m20 - m03 * m10 * m21 + m00 * m13 * m21 + m01 * m10 * m23 - m00 * m11 * m23) + m33 * (m01 * m12 * m20 - m02 * m11 * m20 + m02 * m10 * m21 - m00 * m12 * m21 - m01 * m10 * m22 + m00 * m11 * m22) == m03 * m12 * m21 * m30 - m02 * m13 * m21 * m30 - m03 * m11 * m22 * m30 + m01 * m13 * m22 * m30 + m02 * m11 * m23 * m30 - m01 * m12 * m23 * m30 - m03 * m12 * m20 * m31 + m02 * m13 * m20 * m31 + m03 * m10 * m22 * m31 - m00 * m13 * m22 * m31 - m02 * m10 * m23 * m31 + m00 * m12 * m23 * m31 + m03 * m11 * m20 * m32 - m01 * m13 * m20 * m32 - m03 * m10 * m21 * m32 + m00 * m13 * m21 * m32 + m01 * m10 * m23 * m32 - m00 * m11 * m23 * m32 - m02 * m11 * m20 * m33 + m01 * m12 * m20 * m33 + m02 * m10 * m21 * m33 - m00 * m12 * m21 * m33 - m01 * m10 * m22 * m33 + m00 * m11 * m22 * m33,
{
    lemma_mul_is_distributive_sub(m30, m03 * m12 * m21, m02 * m13 * m21);
    lemma_mul_is_distributive_sub(m30, m03 * m12 * m21 - m02 * m13 * m21, m03 * m11 * m22);
    lemma_mul_is_distributive_add(m30, m03 * m12 * m21 - m02 * m13 * m21 - m03 * m11 * m22, m01 * m13 * m22);
    lemma_mul_is_distributive_add(m30, m03 * m12 * m21 - m02 * m13 * m21 - m03 * m11 * m22 + m01 * m13 * m22, m02 * m11 * m23);
    lemma_mul_is_distributive_sub(m30, m03 * m12 * m21 - m02 * m13 * m21 - m03 * m11 * m22 + m01 * m13 * m22 + m02 * m11 * m23, m01 * m12 * m23);
    assert(m30 * (m03 * m12 * m21) == m03 * m12 * m21 * m30) by (nonlinear_arith);
    assert(m30 * (m02 * m13 * m21) == m02 * m13 * m21 * m30) by (nonlinear_arith);
    assert(m30 * (m03 * m11 * m22) == m03 * m11 * m22 * m30) by (nonlinear_arith);
    assert(m30 * (m01 * m13 * m22) == m01 * m13 * m22 * m30) by (nonlinear_arith);
    assert(m30 * (m02 * m11 * m23) == m02 * m11 * m23 * m30) by (nonlinear_arith);
    assert(m30 * (m01 * m12 * m23) == m01 * m12 * m23 * m30) by (nonlinear_arith);
    lemma_mul_is_distributive_sub(m31, m02 * m13 * m20, m03 * m12 * m20);
    lemma_mul_is_distributive_add(m31, m02 * m13 * m20 - m03 * m12 * m20, m03 * m10 * m22);
    lemma_mul_is_distributive_sub(m31, m02 * m13 * m20 - m03 * m12 * m20 + m03 * m10 * m22, m00 * m13 * m22);
    lemma_mul_is_distributive_sub(m31, m02 * m13 * m20 - m03 * m12 * m20 + m03 * m10 * m22 - m00 * m13 * m22, m02 * m10 * m23);
    lemma_mul_is_distributive_add(m31, m02 * m13 * m20 - m03 * m12 * m20 + m03 * m10 * m22 - m00 * m13 * m22 - m02 * m10 * m23, m00 * m12 * m23);
    assert(m31 * (m02 * m13 * m20) == m02 * m13 * m20 * m31) by (nonlinear_arith);
    assert(m31 * (m03 * m12 * m20) == m03 * m12 * m20 * m31) by (nonlinear_arith);
    assert(m31 * (m03 * m10 * m22) == m03 * m10 * m22 * m31) by (nonlinear_arith);
    assert(m31 * (m00 * m13 * m22) == m00 * m13 * m22 * m31) by (nonlinear_arith);
    assert(m31 * (m02 * m10 * m23) == m02 * m10 * m23 * m31) by (nonlinear_arith);
    assert(m31 * (m00 * m12 * m23) == m00 * m12 * m23 * m31) by (nonlinear_arith);
    lemma_mul_is_distributive_sub(m32, m03 * m11 * m20, m01 * m13 * m20);
    lemma_mul_is_distributive_sub(m32, m03 * m11 * m20 - m01 * m13 * m20, m03 * m10 * m21);
    lemma_mul_is_distributive_add(m32, m03 * m11 * m20 - m01 * m13 * m20 - m03 * m10 * m21, m00 * m13 * m21);
    lemma_mul_is_distributive_add(m32, m03 * m11 * m20 - m01 * m13 * m20 - m03 * m10 * m21 + m00 * m13 * m21, m01 * m10 * m23);
    lemma_mul_is_distributive_sub(m32, m03 * m11 * m20 - m01 * m13 * m20 - m03 * m10 * m21 + m00 * m13 * m21 + m01 * m10 * m23, m00 * m11 * m23);
    assert(m32 * (m03 * m11 * m20) == m03 * m11 * m20 * m32) by (nonlinear_arith);
    assert(m32 * (m01 * m13 * m20) == m01 * m13 * m20 * m32) by (nonlinear_arith);
    assert(m32 * (m03 * m10 * m21) == m03 * m10 * m21 * m32) by (nonlinear_arith);
    assert(m32 * (m00 * m13 * m21) == m00 * m13 * m21 * m32) by (nonlinear_arith);
    assert(m32 * (m01 * m10 * m23) == m01 * m10 * m23 * m32) by (nonlinear_arith);
    assert(m32 * (m00 * m11 * m23) == m00 * m11 * m23 * m32) by (nonlinear_arith);
    lemma_mul_is_distributive_sub(m33, m01 * m12 * m20, m02 * m11 * m20);
    lemma_mul_is_distributive_add(m33, m01 * m12 * m20 - m02 * m11 * m20, m02 * m10 * m21);
    lemma_mul_is_distributive_sub(m33, m01 * m12 * m20 - m02 * m11 * m20 + m02 * m10 * m21, m00 * m12 * m21);
    lemma_mul_is_distributive_sub(m33, m01 * m12 * m20 - m02 * m11 * m20 + m02 * m10 * m21 - m00 * m12 * m21, m01 * m10 * m22);
    lemma_mul_is_distributive_add(m33, m01 * m12 * m20 - m02 * m11 * m20 + m02 * m10 * m21 - m00 * m12 * m21 - m01 * m10 * m22, m00 * m11 * m22);
    assert(m33 * (m01 * m12 * m20) == m01 * m12 * m20 * m33) by (nonlinear_arith);
    assert(m33 * (m02 * m11 * m20) == m02 * m11 * m20 * m33) by (nonlinear_arith);
    assert(m33 * (m02 * m10 * m21) == m02 * m10 * m21 * m33) by (nonlinear_arith);
    assert(m33 * (m00 * m12 * m21) == m00 * m12 * m21 * m33) by (nonlinear_arith);
    assert(m33 * (m01 * m10 * m22) == m01 * m10 * m22 * m33) by (nonlinear_arith);
    assert(m33 * (m00 * m11 * m22) == m00 * m11 * m22 * m33) by (nonlinear_arith);
}



/// Row `i` of `m` dotted with column `j` of its adjugate is `det(m)` where
/// `i == j` and 0 elsewhere.
pub proof fn lemma_mul_adjugate4(m: Seq<Seq<int>>)
    requires
        is_square(m, 4),
    ensures
        forall|i: int, j: int|
            0 <= i < 4 && 0 <= j < 4 ==> #[trigger] dot(m[i], column(adjugate(m), j)) == if i == j {
                det(m)
            } else {
                0
            },
{
    lemma_adjugate4(m);
    lemma_det4(m);
    lemma_ring_mul_adjugate4_00(m[0][0], m[0][1], m[0][2], m[0][3], m[1][0], m[1][1], m[1][2], m[1][3], m[2][0], m[2][1], m[2][2], m[2][3], m[3][0], m[3][1], m[3][2], m[3][3]);
    lemma_ring_mul_adjugate4_01(m[0][0], m[0][1], m[0][2], m[0][3], m[1][0], m[1][1], m[1][2], m[1][3], m[2][0], m[2][1], m[2][2], m[2][3], m[3][0], m[3][1], m[3][2], m[3][3]);
    lemma_ring_mul_adjugate4_02(m[0][0], m[0][1], m[0][2], m[0][3], m[1][0], m[1][1], m[1][2], m[1][3], m[2][0], m[2][1], m[2][2], m[2][3], m[3][0], m[3][1], m[3][2], m[3][3]);
    lemma_ring_mul_adjugate4_03(m[0][0], m[0][1], m[0][2], m[0][3], m[1][0], m[1][1], m[1][2], m[1][3], m[2][0], m[2][1], m[2][2], m[2][3], m[3][0], m[3][1], m[3][2], m[3][3]);
    lemma_ring_mul_adjugate4_10(m[0][0], m[0][1], m[0][2], m[0][3], m[1][0], m[1][1], m[1][2], m[1][3], m[2][0], m[2][1], m[2][2], m[2][3], m[3][0], m[3][1], m[3][2], m[3][3]);
    lemma_ring_mul_adjugate4_11(m[0][0], m[0][1], m[0][2], m[0][3], m[1][0], m[1][1], m[1][2], m[1][3], m[2][0], m[2][1], m[2][2], m[2][3], m[3][0], m[3][1], m[3][2], m[3][3]);
    lemma_ring_mul_adjugate4_12(m[0][0], m[0][1], m[0][2], m[0][3], m[1][0], m[1][1], m[1][2], m[1][3], m[2][0], m[2][1], m[2][2], m[2][3], m[3][0], m[3][1], m[3][2], m[3][3]);
    lemma_ring_mul_adjugate4_13(m[0][0], m[0][1], m[0][2], m[0][3], m[1][0], m[1][1], m[1][2], m[1][3], m[2][0], m[2][1], m[2][2], m[2][3], m[3][0], m[3][1], m[3][2], m[3][3]);
    lemma_ring_mul_adjugate4_20(m[0][0], m[0][1], m[0][2], m[0][3], m[1][0], m[1][1], m[1][2], m[1][3], m[2][0], m[2][1], m[2][2], m[2][3], m[3][0], m[3][1], m[3][2], m[3][3]);
    lemma_ring_mul_adjugate4_21(m[0][0], m[0][1], m[0][2], m[0][3], m[1][0], m[1][1], m[1][2], m[1][3], m[2][0], m[2][1], m[2][2], m[2][3], m[3][0], m[3][1], m[3][2], m[3][3]);
    lemma_ring_mul_adjugate4_22(m[0][0], m[0][1], m[0][2], m[0][3], m[1][0], m[1][1], m[1][2], m[1][3], m[2][0], m[2][1], m[2][2], m[2][3], m[3][0], m[3][1], m[3][2], m[3][3]);
    lemma_ring_mul_adjugate4_23(m[0][0], m[0][1], m[0][2], m[0][3], m[1][0], m[1][1], m[1][2], m[1][3], m[2][0], m[2][1], m[2][2], m[2][3], m[3][0], m[3][1], m[3][2], m[3][3]);
    lemma_ring_mul_adjugate4_30(m[0][0], m[0][1], m[0][2], m[0][3], m[1][0], m[1][1], m[1][2], m[1][3], m[2][0], m[2][1], m[2][2], m[2][3], m[3][0], m[3][1], m[3][2], m[3][3]);
    lemma_ring_mul_adjugate4_31(m[0][0], m[0][1], m[0][2], m[0][3], m[1][0], m[1][1], m[1][2], m[1][3], m[2][0], m[2][1], m[2][2], m[2][3], m[3][0], m[3][1], m[3][2], m[3][3]);
    lemma_ring_mul_adjugate4_32(m[0][0], m[0][1], m[0][2], m[0][3], m[1][0], m[1][1], m[1][2], m[1][3], m[2][0], m[2][1], m[2][2], m[2][3], m[3][0], m[3][1], m[3][2], m[3][3]);
    lemma_ring_mul_adjugate4_33(m[0][0], m[0][1], m[0][2], m[0][3], m[1][0], m[1][1], m[1][2], m[1][3], m[2][0], m[2][1], m[2][2], m[2][3], m[3][0], m[3][1], m[3][2], m[3][3]);
    lemma_dot4(m[0], column(adjugate(m), 0));
    lemma_dot4(m[0], column(adjugate(m), 1));
    lemma_dot4(m[0], column(adjugate(m), 2));
    lemma_dot4(m[0], column(adjugate(m), 3));
    lemma_dot4(m[1], column(adjugate(m), 0));
    lemma_dot4(m[1], column(adjugate(m), 1));
    lemma_dot4(m[1], column(adjugate(m), 2));
    lemma_dot4(m[1], column(adjugate(m), 3));
    lemma_dot4(m[2], column(adjugate(m), 0));
    lemma_dot4(m[2], column(adjugate(m), 1));
    lemma_dot4(m[2], column(adjugate(m), 2));
    lemma_dot4(m[2], column(adjugate(m), 3));
    lemma_dot4(m[3], column(adjugate(m), 0));
    lemma_dot4(m[3], column(adjugate(m), 1));
    lemma_dot4(m[3], column(adjugate(m), 2));
    lemma_dot4(m[3], column(adjugate(m), 3));
}

} // verus!
