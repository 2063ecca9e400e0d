//! The closed-form expansions of determinants and adjugates of small matrices,
//! proved equal to the general definitions of the model.
use crate::model::{adjugate, det, is_square, laplace, minor, signed};
use vstd::arithmetic::mul::{
    lemma_mul_is_associative, lemma_mul_is_distributive_add, lemma_mul_is_distributive_sub,
};
use vstd::prelude::*;

verus! {

pub proof fn lemma_det1(m: Seq<Seq<int>>)
    requires
        is_square(m, 1),
    ensures
        det(m) == m[0][0],
{
    let mm = minor(m, 0, 0);
    assert(mm.len() == 0);
    assert(laplace(mm, 0) == 1);
    assert(laplace(m, 0) == 0);
    assert(laplace(m, 1) == laplace(m, 0) + signed(0, m[0][0] * laplace(mm, 0)));
}

pub proof fn lemma_det2(m: Seq<Seq<int>>)
    requires
        is_square(m, 2),
    ensures
        det(m) == m[0][0] * m[1][1] - m[0][1] * m[1][0],
{
    let m0 = minor(m, 0, 0);
    assert(is_square(m0, 1));
    lemma_det1(m0);
    assert(det(m0) == m[1][1]);
    let m1 = minor(m, 0, 1);
    assert(is_square(m1, 1));
    lemma_det1(m1);
    assert(det(m1) == m[1][0]);
    assert(laplace(m, 0) == 0);
    assert(laplace(m, 1) == laplace(m, 0) + signed(0, m[0][0] * det(m0)));
    assert(laplace(m, 2) == laplace(m, 1) + signed(1, m[0][1] * det(m1)));
}

pub proof fn lemma_det3(m: Seq<Seq<int>>)
    requires
        is_square(m, 3),
    ensures
        det(m) == m[0][0] * m[1][1] * m[2][2] + m[0][1] * m[1][2] * m[2][0] + m[0][2] * m[1][0] * m[2][1] - m[0][0] * m[1][2] * m[2][1] - m[0][1] * m[1][0] * m[2][2] - m[0][2] * m[1][1] * m[2][0],
{
    let m0 = minor(m, 0, 0);
    assert(is_square(m0, 2));
    lemma_det2(m0);
    assert(det(m0) == m[1][1] * m[2][2] - m[1][2] * m[2][1]);
    lemma_mul_is_distributive_sub(m[0][0], m[1][1] * m[2][2], m[1][2] * m[2][1]);
    lemma_mul_is_associative(m[0][0], m[1][1], m[2][2]);
    lemma_mul_is_associative(m[0][0], m[1][2], m[2][1]);
    let m1 = minor(m, 0, 1);
    assert(is_square(m1, 2));
    lemma_det2(m1);
    assert(det(m1) == m[1][0] * m[2][2] - m[1][2] * m[2][0]);
    lemma_mul_is_distributive_sub(m[0][1], m[1][0] * m[2][2], m[1][2] * m[2][0]);
    lemma_mul_is_associative(m[0][1], m[1][0], m[2][2]);
    lemma_mul_is_associative(m[0][1], m[1][2], m[2][0]);
    let m2 = minor(m, 0, 2);
    assert(is_square(m2, 2));
    lemma_det2(m2);
    assert(det(m2) == m[1][0] * m[2][1] - m[1][1] * m[2][0]);
    lemma_mul_is_distributive_sub(m[0][2], m[1][0] * m[2][1], m[1][1] * m[2][0]);
    lemma_mul_is_associative(m[0][2], m[1][0], m[2][1]);
    lemma_mul_is_associative(m[0][2], m[1][1], m[2][0]);
    assert(laplace(m, 0) == 0);
    assert(laplace(m, 1) == laplace(m, 0) + signed(0, m[0][0] * det(m0)));
    assert(laplace(m, 2) == laplace(m, 1) + signed(1, m[0][1] * det(m1)));
    assert(laplace(m, 3) == laplace(m, 2) + signed(2, m[0][2] * det(m2)));
}

pub proof fn lemma_det4(m: Seq<Seq<int>>)
    requires
        is_square(m, 4),
    ensures
        det(m) == m[0][3] * m[1][2] * m[2][1] * m[3][0] - m[0][2] * m[1][3] * m[2][1] * m[3][0] - m[0][3] * m[1][1] * m[2][2] * m[3][0] + m[0][1] * m[1][3] * m[2][2] * m[3][0] + m[0][2] * m[1][1] * m[2][3] * m[3][0] - m[0][1] * m[1][2] * m[2][3] * m[3][0] - m[0][3] * m[1][2] * m[2][0] * m[3][1] + m[0][2] * m[1][3] * m[2][0] * m[3][1] + m[0][3] * m[1][0] * m[2][2] * m[3][1] - m[0][0] * m[1][3] * m[2][2] * m[3][1] - m[0][2] * m[1][0] * m[2][3] * m[3][1] + m[0][0] * m[1][2] * m[2][3] * m[3][1] + m[0][3] * m[1][1] * m[2][0] * m[3][2] - m[0][1] * m[1][3] * m[2][0] * m[3][2] - m[0][3] * m[1][0] * m[2][1] * m[3][2] + m[0][0] * m[1][3] * m[2][1] * m[3][2] + m[0][1] * m[1][0] * m[2][3] * m[3][2] - m[0][0] * m[1][1] * m[2][3] * m[3][2] - m[0][2] * m[1][1] * m[2][0] * m[3][3] + m[0][1] * m[1][2] * m[2][0] * m[3][3] + m[0][2] * m[1][0] * m[2][1] * m[3][3] - m[0][0] * m[1][2] * m[2][1] * m[3][3] - m[0][1] * m[1][0] * m[2][2] * m[3][3] + m[0][0] * m[1][1] * m[2][2] * m[3][3],
{
    let m0 = minor(m, 0, 0);
    assert(is_square(m0, 3));
    lemma_det3(m0);
    assert(det(m0) == m[1][1] * m[2][2] * m[3][3] + m[1][2] * m[2][3] * m[3][1] + m[1][3] * m[2][1] * m[3][2] - m[1][1] * m[2][3] * m[3][2] - m[1][2] * m[2][1] * m[3][3] - m[1][3] * m[2][2] * m[3][1]);
    lemma_mul_is_distributive_add(m[0][0], m[1][1] * m[2][2] * m[3][3], m[1][2] * m[2][3] * m[3][1]);
    lemma_mul_is_distributive_add(m[0][0], m[1][1] * m[2][2] * m[3][3] + m[1][2] * m[2][3] * m[3][1], m[1][3] * m[2][1] * m[3][2]);
    lemma_mul_is_distributive_sub(m[0][0], m[1][1] * m[2][2] * m[3][3] + m[1][2] * m[2][3] * m[3][1] + m[1][3] * m[2][1] * m[3][2], m[1][1] * m[2][3] * m[3][2]);
    lemma_mul_is_distributive_sub(m[0][0], m[1][1] * m[2][2] * m[3][3] + m[1][2] * m[2][3] * m[3][1] + m[1][3] * m[2][1] * m[3][2] - m[1][1] * m[2][3] * m[3][2], m[1][2] * m[2][1] * m[3][3]);
    lemma_mul_is_distributive_sub(m[0][0], m[1][1] * m[2][2] * m[3][3] + m[1][2] * m[2][3] * m[3][1] + m[1][3] * m[2][1] * m[3][2] - m[1][1] * m[2][3] * m[3][2] - m[1][2] * m[2][1] * m[3][3], m[1][3] * m[2][2] * m[3][1]);
    lemma_mul_is_associative(m[0][0], m[1][1] * m[2][2], m[3][3]);
    lemma_mul_is_associative(m[0][0], m[1][1], m[2][2]);
    lemma_mul_is_associative(m[0][0], m[1][2] * m[2][3], m[3][1]);
    lemma_mul_is_associative(m[0][0], m[1][2], m[2][3]);
    lemma_mul_is_associative(m[0][0], m[1][3] * m[2][1], m[3][2]);
    lemma_mul_is_associative(m[0][0], m[1][3], m[2][1]);
    lemma_mul_is_associative(m[0][0], m[1][1] * m[2][3], m[3][2]);
    lemma_mul_is_associative(m[0][0], m[1][1], m[2][3]);
    lemma_mul_is_associative(m[0][0], m[1][2] * m[2][1], m[3][3]);
    lemma_mul_is_associative(m[0][0], m[1][2], m[2][1]);
    lemma_mul_is_associative(m[0][0], m[1][3] * m[2][2], m[3][1]);
    lemma_mul_is_associative(m[0][0], m[1][3], m[2][2]);
    let m1 = minor(m, 0, 1);
    assert(is_square(m1, 3));
    lemma_det3(m1);
    assert(det(m1) == m[1][0] * m[2][2] * m[3][3] + m[1][2] * m[2][3] * m[3][0] + m[1][3] * m[2][0] * m[3][2] - m[1][0] * m[2][3] * m[3][2] - m[1][2] * m[2][0] * m[3][3] - m[1][3] * m[2][2] * m[3][0]);
    lemma_mul_is_distributive_add(m[0][1], m[1][0] * m[2][2] * m[3][3], m[1][2] * m[2][3] * m[3][0]);
    lemma_mul_is_distributive_add(m[0][1], m[1][0] * m[2][2] * m[3][3] + m[1][2] * m[2][3] * m[3][0], m[1][3] * m[2][0] * m[3][2]);
    lemma_mul_is_distributive_sub(m[0][1], m[1][0] * m[2][2] * m[3][3] + m[1][2] * m[2][3] * m[3][0] + m[1][3] * m[2][0] * m[3][2], m[1][0] * m[2][3] * m[3][2]);
    lemma_mul_is_distributive_sub(m[0][1], m[1][0] * m[2][2] * m[3][3] + m[1][2] * m[2][3] * m[3][0] + m[1][3] * m[2][0] * m[3][2] - m[1][0] * m[2][3] * m[3][2], m[1][2] * m[2][0] * m[3][3]);
    lemma_mul_is_distributive_sub(m[0][1], m[1][0] * m[2][2] * m[3][3] + m[1][2] * m[2][3] * m[3][0] + m[1][3] * m[2][0] * m[3][2] - m[1][0] * m[2][3] * m[3][2] - m[1][2] * m[2][0] * m[3][3], m[1][3] * m[2][2] * m[3][0]);
    lemma_mul_is_associative(m[0][1], m[1][0] * m[2][2], m[3][3]);
    lemma_mul_is_associative(m[0][1], m[1][0], m[2][2]);
    lemma_mul_is_associative(m[0][1], m[1][2] * m[2][3], m[3][0]);
    lemma_mul_is_associative(m[0][1], m[1][2], m[2][3]);
    lemma_mul_is_associative(m[0][1], m[1][3] * m[2][0], m[3][2]);
    lemma_mul_is_associative(m[0][1], m[1][3], m[2][0]);
    lemma_mul_is_associative(m[0][1], m[1][0] * m[2][3], m[3][2]);
    lemma_mul_is_associative(m[0][1], m[1][0], m[2][3]);
    lemma_mul_is_associative(m[0][1], m[1][2] * m[2][0], m[3][3]);
    lemma_mul_is_associative(m[0][1], m[1][2], m[2][0]);
    lemma_mul_is_associative(m[0][1], m[1][3] * m[2][2], m[3][0]);
    lemma_mul_is_associative(m[0][1], m[1][3], m[2][2]);
    let m2 = minor(m, 0, 2);
    assert(is_square(m2, 3));
    lemma_det3(m2);
    assert(det(m2) == m[1][0] * m[2][1] * m[3][3] + m[1][1] * m[2][3] * m[3][0] + m[1][3] * m[2][0] * m[3][1] - m[1][0] * m[2][3] * m[3][1] - m[1][1] * m[2][0] * m[3][3] - m[1][3] * m[2][1] * m[3][0]);
    lemma_mul_is_distributive_add(m[0][2], m[1][0] * m[2][1] * m[3][3], m[1][1] * m[2][3] * m[3][0]);
    lemma_mul_is_distributive_add(m[0][2], m[1][0] * m[2][1] * m[3][3] + m[1][1] * m[2][3] * m[3][0], m[1][3] * m[2][0] * m[3][1]);
    lemma_mul_is_distributive_sub(m[0][2], m[1][0] * m[2][1] * m[3][3] + m[1][1] * m[2][3] * m[3][0] + m[1][3] * m[2][0] * m[3][1], m[1][0] * m[2][3] * m[3][1]);
    lemma_mul_is_distributive_sub(m[0][2], m[1][0] * m[2][1] * m[3][3] + m[1][1] * m[2][3] * m[3][0] + m[1][3] * m[2][0] * m[3][1] - m[1][0] * m[2][3] * m[3][1], m[1][1] * m[2][0] * m[3][3]);
    lemma_mul_is_distributive_sub(m[0][2], m[1][0] * m[2][1] * m[3][3] + m[1][1] * m[2][3] * m[3][0] + m[1][3] * m[2][0] * m[3][1] - m[1][0] * m[2][3] * m[3][1] - m[1][1] * m[2][0] * m[3][3], m[1][3] * m[2][1] * m[3][0]);
    lemma_mul_is_associative(m[0][2], m[1][0] * m[2][1], m[3][3]);
    lemma_mul_is_associative(m[0][2], m[1][0], m[2][1]);
    lemma_mul_is_associative(m[0][2], m[1][1] * m[2][3], m[3][0]);
    lemma_mul_is_associative(m[0][2], m[1][1], m[2][3]);
    lemma_mul_is_associative(m[0][2], m[1][3] * m[2][0], m[3][1]);
    lemma_mul_is_associative(m[0][2], m[1][3], m[2][0]);
    lemma_mul_is_associative(m[0][2], m[1][0] * m[2][3], m[3][1]);
    lemma_mul_is_associative(m[0][2], m[1][0], m[2][3]);
    lemma_mul_is_associative(m[0][2], m[1][1] * m[2][0], m[3][3]);
    lemma_mul_is_associative(m[0][2], m[1][1], m[2][0]);
    lemma_mul_is_associative(m[0][2], m[1][3] * m[2][1], m[3][0]);
    lemma_mul_is_associative(m[0][2], m[1][3], m[2][1]);
    let m3 = minor(m, 0, 3);
    assert(is_square(m3, 3));
    lemma_det3(m3);
    assert(det(m3) == m[1][0] * m[2][1] * m[3][2] + m[1][1] * m[2][2] * m[3][0] + m[1][2] * m[2][0] * m[3][1] - m[1][0] * m[2][2] * m[3][1] - m[1][1] * m[2][0] * m[3][2] - m[1][2] * m[2][1] * m[3][0]);
    lemma_mul_is_distributive_add(m[0][3], m[1][0] * m[2][1] * m[3][2], m[1][1] * m[2][2] * m[3][0]);
    lemma_mul_is_distributive_add(m[0][3], m[1][0] * m[2][1] * m[3][2] + m[1][1] * m[2][2] * m[3][0], m[1][2] * m[2][0] * m[3][1]);
    lemma_mul_is_distributive_sub(m[0][3], m[1][0] * m[2][1] * m[3][2] + m[1][1] * m[2][2] * m[3][0] + m[1][2] * m[2][0] * m[3][1], m[1][0] * m[2][2] * m[3][1]);
    lemma_mul_is_distributive_sub(m[0][3], m[1][0] * m[2][1] * m[3][2] + m[1][1] * m[2][2] * m[3][0] + m[1][2] * m[2][0] * m[3][1] - m[1][0] * m[2][2] * m[3][1], m[1][1] * m[2][0] * m[3][2]);
    lemma_mul_is_distributive_sub(m[0][3], m[1][0] * m[2][1] * m[3][2] + m[1][1] * m[2][2] * m[3][0] + m[1][2] * m[2][0] * m[3][1] - m[1][0] * m[2][2] * m[3][1] - m[1][1] * m[2][0] * m[3][2], m[1][2] * m[2][1] * m[3][0]);
    lemma_mul_is_associative(m[0][3], m[1][0] * m[2][1], m[3][2]);
    lemma_mul_is_associative(m[0][3], m[1][0], m[2][1]);
    lemma_mul_is_associative(m[0][3], m[1][1] * m[2][2], m[3][0]);
    lemma_mul_is_associative(m[0][3], m[1][1], m[2][2]);
    lemma_mul_is_associative(m[0][3], m[1][2] * m[2][0], m[3][1]);
    lemma_mul_is_associative(m[0][3], m[1][2], m[2][0]);
    lemma_mul_is_associative(m[0][3], m[1][0] * m[2][2], m[3][1]);
    lemma_mul_is_associative(m[0][3], m[1][0], m[2][2]);
    lemma_mul_is_associative(m[0][3], m[1][1] * m[2][0], m[3][2]);
    lemma_mul_is_associative(m[0][3], m[1][1], m[2][0]);
    lemma_mul_is_associative(m[0][3], m[1][2] * m[2][1], m[3][0]);
    lemma_mul_is_associative(m[0][3], m[1][2], m[2][1]);
    assert(laplace(m, 0) == 0);
    assert(laplace(m, 1) == laplace(m, 0) + signed(0, m[0][0] * det(m0)));
    assert(laplace(m, 2) == laplace(m, 1) + signed(1, m[0][1] * det(m1)));
    assert(laplace(m, 3) == laplace(m, 2) + signed(2, m[0][2] * det(m2)));
    assert(laplace(m, 4) == laplace(m, 3) + signed(3, m[0][3] * det(m3)));
}

pub proof fn lemma_adjugate2(m: Seq<Seq<int>>)
    requires
        is_square(m, 2),
    ensures
        is_square(adjugate(m), 2),
        adjugate(m)[0][0] == m[1][1],
        adjugate(m)[0][1] == -m[0][1],
        adjugate(m)[1][0] == -m[1][0],
        adjugate(m)[1][1] == m[0][0],
{
    let a00 = minor(m, 0, 0);
    assert(is_square(a00, 1));
    lemma_det1(a00);
    assert(det(a00) == m[1][1]);
    assert(adjugate(m)[0][0] == signed(0, det(a00)));
    let a01 = minor(m, 1, 0);
    assert(is_square(a01, 1));
    lemma_det1(a01);
    assert(det(a01) == m[0][1]);
    assert(adjugate(m)[0][1] == signed(1, det(a01)));
    let a10 = minor(m, 0, 1);
    assert(is_square(a10, 1));
    lemma_det1(a10);
    assert(det(a10) == m[1][0]);
    assert(adjugate(m)[1][0] == signed(1, det(a10)));
    let a11 = minor(m, 1, 1);
    assert(is_square(a11, 1));
    lemma_det1(a11);
    assert(det(a11) == m[0][0]);
    assert(adjugate(m)[1][1] == signed(2, det(a11)));
}

pub proof fn lemma_adjugate3(m: Seq<Seq<int>>)
    requires
        is_square(m, 3),
    ensures
        is_square(adjugate(m), 3),
        adjugate(m)[0][0] == m[1][1] * m[2][2] - m[1][2] * m[2][1],
        adjugate(m)[0][1] == m[0][2] * m[2][1] - m[0][1] * m[2][2],
        adjugate(m)[0][2] == m[0][1] * m[1][2] - m[0][2] * m[1][1],
        adjugate(m)[1][0] == m[1][2] * m[2][0] - m[1][0] * m[2][2],
        adjugate(m)[1][1] == m[0][0] * m[2][2] - m[0][2] * m[2][0],
        adjugate(m)[1][2] == m[0][2] * m[1][0] - m[0][0] * m[1][2],
        adjugate(m)[2][0] == m[1][0] * m[2][1] - m[1][1] * m[2][0],
        adjugate(m)[2][1] == m[0][1] * m[2][0] - m[0][0] * m[2][1],
        adjugate(m)[2][2] == m[0][0] * m[1][1] - m[0][1] * m[1][0],
{
    let a00 = minor(m, 0, 0);
    assert(is_square(a00, 2));
    lemma_det2(a00);
    assert(det(a00) == m[1][1] * m[2][2] - m[1][2] * m[2][1]);
    assert(adjugate(m)[0][0] == signed(0, det(a00)));
    let a01 = minor(m, 1, 0);
    assert(is_square(a01, 2));
    lemma_det2(a01);
    assert(det(a01) == m[0][1] * m[2][2] - m[0][2] * m[2][1]);
    assert(adjugate(m)[0][1] == signed(1, det(a01)));
    let a02 = minor(m, 2, 0);
    assert(is_square(a02, 2));
    lemma_det2(a02);
    assert(det(a02) == m[0][1] * m[1][2] - m[0][2] * m[1][1]);
    assert(adjugate(m)[0][2] == signed(2, det(a02)));
    let a10 = minor(m, 0, 1);
    assert(is_square(a10, 2));
    lemma_det2(a10);
    assert(det(a10) == m[1][0] * m[2][2] - m[1][2] * m[2][0]);
    assert(adjugate(m)[1][0] == signed(1, det(a10)));
    let a11 = minor(m, 1, 1);
    assert(is_square(a11, 2));
    lemma_det2(a11);
    assert(det(a11) == m[0][0] * m[2][2] - m[0][2] * m[2][0]);
    assert(adjugate(m)[1][1] == signed(2, det(a11)));
    let a12 = minor(m, 2, 1);
    assert(is_square(a12, 2));
    lemma_det2(a12);
    assert(det(a12) == m[0][0] * m[1][2] - m[0][2] * m[1][0]);
    assert(adjugate(m)[1][2] == signed(3, det(a12)));
    let a20 = minor(m, 0, 2);
    assert(is_square(a20, 2));
    lemma_det2(a20);
    assert(det(a20) == m[1][0] * m[2][1] - m[1][1] * m[2][0]);
    assert(adjugate(m)[2][0] == signed(2, det(a20)));
    let a21 = minor(m, 1, 2);
    assert(is_square(a21, 2));
    lemma_det2(a21);
    assert(det(a21) == m[0][0] * m[2][1] - m[0][1] * m[2][0]);
    assert(adjugate(m)[2][1] == signed(3, det(a21)));
    let a22 = minor(m, 2, 2);
    assert(is_square(a22, 2));
    lemma_det2(a22);
    assert(det(a22) == m[0][0] * m[1][1] - m[0][1] * m[1][0]);
    assert(adjugate(m)[2][2] == signed(4, det(a22)));
}

pub proof fn lemma_adjugate4(m: Seq<Seq<int>>)
    requires
        is_square(m, 4),
    ensures
        is_square(adjugate(m), 4),
        adjugate(m)[0][0] == m[1][2] * m[2][3] * m[3][1] - m[1][3] * m[2][2] * m[3][1] + m[1][3] * m[2][1] * m[3][2] - m[1][1] * m[2][3] * m[3][2] - m[1][2] * m[2][1] * m[3][3] + m[1][1] * m[2][2] * m[3][3],
        adjugate(m)[0][1] == m[0][3] * m[2][2] * m[3][1] - m[0][2] * m[2][3] * m[3][1] - m[0][3] * m[2][1] * m[3][2] + m[0][1] * m[2][3] * m[3][2] + m[0][2] * m[2][1] * m[3][3] - m[0][1] * m[2][2] * m[3][3],
        adjugate(m)[0][2] == m[0][2] * m[1][3] * m[3][1] - m[0][3] * m[1][2] * m[3][1] + m[0][3] * m[1][1] * m[3][2] - m[0][1] * m[1][3] * m[3][2] - m[0][2] * m[1][1] * m[3][3] + m[0][1] * m[1][2] * m[3][3],
        adjugate(m)[0][3] == m[0][3] * m[1][2] * m[2][1] - m[0][2] * m[1][3] * m[2][1] - m[0][3] * m[1][1] * m[2][2] + m[0][1] * m[1][3] * m[2][2] + m[0][2] * m[1][1] * m[2][3] - m[0][1] * m[1][2] * m[2][3],
        adjugate(m)[1][0] == m[1][3] * m[2][2] * m[3][0] - m[1][2] * m[2][3] * m[3][0] - m[1][3] * m[2][0] * m[3][2] + m[1][0] * m[2][3] * m[3][2] + m[1][2] * m[2][0] * m[3][3] - m[1][0] * m[2][2] * m[3][3],
        adjugate(m)[1][1] == m[0][2] * m[2][3] * m[3][0] - m[0][3] * m[2][2] * m[3][0] + m[0][3] * m[2][0] * m[3][2] - m[0][0] * m[2][3] * m[3][2] - m[0][2] * m[2][0] * m[3][3] + m[0][0] * m[2][2] * m[3][3],
        adjugate(m)[1][2] == m[0][3] * m[1][2] * m[3][0] - m[0][2] * m[1][3] * m[3][0] - m[0][3] * m[1][0] * m[3][2] + m[0][0] * m[1][3] * m[3][2] + m[0][2] * m[1][0] * m[3][3] - m[0][0] * m[1][2] * m[3][3],
        adjugate(m)[1][3] == m[0][2] * m[1][3] * m[2][0] - m[0][3] * m[1][2] * m[2][0] + m[0][3] * m[1][0] * m[2][2] - m[0][0] * m[1][3] * m[2][2] - m[0][2] * m[1][0] * m[2][3] + m[0][0] * m[1][2] * m[2][3],
        adjugate(m)[2][0] == m[1][1] * m[2][3] * m[3][0] - m[1][3] * m[2][1] * m[3][0] + m[1][3] * m[2][0] * m[3][1] - m[1][0] * m[2][3] * m[3][1] - m[1][1] * m[2][0] * m[3][3] + m[1][0] * m[2][1] * m[3][3],
        adjugate(m)[2][1] == m[0][3] * m[2][1] * m[3][0] - m[0][1] * m[2][3] * m[3][0] - m[0][3] * m[2][0] * m[3][1] + m[0][0] * m[2][3] * m[3][1] + m[0][1] * m[2][0] * m[3][3] - m[0][0] * m[2][1] * m[3][3],
        adjugate(m)[2][2] == m[0][1] * m[1][3] * m[3][0] - m[0][3] * m[1][1] * m[3][0] + m[0][3] * m[1][0] * m[3][1] - m[0][0] * m[1][3] * m[3][1] - m[0][1] * m[1][0] * m[3][3] + m[0][0] * m[1][1] * m[3][3],
        adjugate(m)[2][3] == m[0][3] * m[1][1] * m[2][0] - m[0][1] * m[1][3] * m[2][0] - m[0][3] * m[1][0] * m[2][1] + m[0][0] * m[1][3] * m[2][1] + m[0][1] * m[1][0] * m[2][3] - m[0][0] * m[1][1] * m[2][3],
        adjugate(m)[3][0] == m[1][2] * m[2][1] * m[3][0] - m[1][1] * m[2][2] * m[3][0] - m[1][2] * m[2][0] * m[3][1] + m[1][0] * m[2][2] * m[3][1] + m[1][1] * m[2][0] * m[3][2] - m[1][0] * m[2][1] * m[3][2],
        adjugate(m)[3][1] == m[0][1] * m[2][2] * m[3][0] - m[0][2] * m[2][1] * m[3][0] + m[0][2] * m[2][0] * m[3][1] - m[0][0] * m[2][2] * m[3][1] - m[0][1] * m[2][0] * m[3][2] + m[0][0] * m[2][1] * m[3][2],
        adjugate(m)[3][2] == m[0][2] * m[1][1] * m[3][0] - m[0][1] * m[1][2] * m[3][0] - m[0][2] * m[1][0] * m[3][1] + m[0][0] * m[1][2] * m[3][1] + m[0][1] * m[1][0] * m[3][2] - m[0][0] * m[1][1] * m[3][2],
        adjugate(m)[3][3] == m[0][1] * m[1][2] * m[2][0] - m[0][2] * m[1][1] * m[2][0] + m[0][2] * m[1][0] * m[2][1] - m[0][0] * m[1][2] * m[2][1] - m[0][1] * m[1][0] * m[2][2] + m[0][0] * m[1][1] * m[2][2],
{
    let a00 = minor(m, 0, 0);
    assert(is_square(a00, 3));
    lemma_det3(a00);
    assert(det(a00) == m[1][1] * m[2][2] * m[3][3] + m[1][2] * m[2][3] * m[3][1] + m[1][3] * m[2][1] * m[3][2] - m[1][1] * m[2][3] * m[3][2] - m[1][2] * m[2][1] * m[3][3] - m[1][3] * m[2][2] * m[3][1]);
    assert(adjugate(m)[0][0] == signed(0, det(a00)));
    let a01 = minor(m, 1, 0);
    assert(is_square(a01, 3));
    lemma_det3(a01);
    assert(det(a01) == m[0][1] * m[2][2] * m[3][3] + m[0][2] * m[2][3] * m[3][1] + m[0][3] * m[2][1] * m[3][2] - m[0][1] * m[2][3] * m[3][2] - m[0][2] * m[2][1] * m[3][3] - m[0][3] * m[2][2] * m[3][1]);
    assert(adjugate(m)[0][1] == signed(1, det(a01)));
    let a02 = minor(m, 2, 0);
    assert(is_square(a02, 3));
    lemma_det3(a02);
    assert(det(a02) == m[0][1] * m[1][2] * m[3][3] + m[0][2] * m[1][3] * m[3][1] + m[0][3] * m[1][1] * m[3][2] - m[0][1] * m[1][3] * m[3][2] - m[0][2] * m[1][1] * m[3][3] - m[0][3] * m[1][2] * m[3][1]);
    assert(adjugate(m)[0][2] == signed(2, det(a02)));
    let a03 = minor(m, 3, 0);
    assert(is_square(a03, 3));
    lemma_det3(a03);
    assert(det(a03) == m[0][1] * m[1][2] * m[2][3] + m[0][2] * m[1][3] * m[2][1] + m[0][3] * m[1][1] * m[2][2] - m[0][1] * m[1][3] * m[2][2] - m[0][2] * m[1][1] * m[2][3] - m[0][3] * m[1][2] * m[2][1]);
    assert(adjugate(m)[0][3] == signed(3, det(a03)));
    let a10 = minor(m, 0, 1);
    assert(is_square(a10, 3));
    lemma_det3(a10);
    assert(det(a10) == m[1][0] * m[2][2] * m[3][3] + m[1][2] * m[2][3] * m[3][0] + m[1][3] * m[2][0] * m[3][2] - m[1][0] * m[2][3] * m[3][2] - m[1][2] * m[2][0] * m[3][3] - m[1][3] * m[2][2] * m[3][0]);
    assert(adjugate(m)[1][0] == signed(1, det(a10)));
    let a11 = minor(m, 1, 1);
    assert(is_square(a11, 3));
    lemma_det3(a11);
    assert(det(a11) == m[0][0] * m[2][2] * m[3][3] + m[0][2] * m[2][3] * m[3][0] + m[0][3] * m[2][0] * m[3][2] - m[0][0] * m[2][3] * m[3][2] - m[0][2] * m[2][0] * m[3][3] - m[0][3] * m[2][2] * m[3][0]);
    assert(adjugate(m)[1][1] == signed(2, det(a11)));
    let a12 = minor(m, 2, 1);
    assert(is_square(a12, 3));
    lemma_det3(a12);
    assert(det(a12) == m[0][0] * m[1][2] * m[3][3] + m[0][2] * m[1][3] * m[3][0] + m[0][3] * m[1][0] * m[3][2] - m[0][0] * m[1][3] * m[3][2] - m[0][2] * m[1][0] * m[3][3] - m[0][3] * m[1][2] * m[3][0]);
    assert(adjugate(m)[1][2] == signed(3, det(a12)));
    let a13 = minor(m, 3, 1);
    assert(is_square(a13, 3));
    lemma_det3(a13);
    assert(det(a13) == m[0][0] * m[1][2] * m[2][3] + m[0][2] * m[1][3] * m[2][0] + m[0][3] * m[1][0] * m[2][2] - m[0][0] * m[1][3] * m[2][2] - m[0][2] * m[1][0] * m[2][3] - m[0][3] * m[1][2] * m[2][0]);
    assert(adjugate(m)[1][3] == signed(4, det(a13)));
    let a20 = minor(m, 0, 2);
    assert(is_square(a20, 3));
    lemma_det3(a20);
    assert(det(a20) == m[1][0] * m[2][1] * m[3][3] + m[1][1] * m[2][3] * m[3][0] + m[1][3] * m[2][0] * m[3][1] - m[1][0] * m[2][3] * m[3][1] - m[1][1] * m[2][0] * m[3][3] - m[1][3] * m[2][1] * m[3][0]);
    assert(adjugate(m)[2][0] == signed(2, det(a20)));
    let a21 = minor(m, 1, 2);
    assert(is_square(a21, 3));
    lemma_det3(a21);
    assert(det(a21) == m[0][0] * m[2][1] * m[3][3] + m[0][1] * m[2][3] * m[3][0] + m[0][3] * m[2][0] * m[3][1] - m[0][0] * m[2][3] * m[3][1] - m[0][1] * m[2][0] * m[3][3] - m[0][3] * m[2][1] * m[3][0]);
    assert(adjugate(m)[2][1] == signed(3, det(a21)));
    let a22 = minor(m, 2, 2);
    assert(is_square(a22, 3));
    lemma_det3(a22);
    assert(det(a22) == m[0][0] * m[1][1] * m[3][3] + m[0][1] * m[1][3] * m[3][0] + m[0][3] * m[1][0] * m[3][1] - m[0][0] * m[1][3] * m[3][1] - m[0][1] * m[1][0] * m[3][3] - m[0][3] * m[1][1] * m[3][0]);
    assert(adjugate(m)[2][2] == signed(4, det(a22)));
    let a23 = minor(m, 3, 2);
    assert(is_square(a23, 3));
    lemma_det3(a23);
    assert(det(a23) == m[0][0] * m[1][1] * m[2][3] + m[0][1] * m[1][3] * m[2][0] + m[0][3] * m[1][0] * m[2][1] - m[0][0] * m[1][3] * m[2][1] - m[0][1] * m[1][0] * m[2][3] - m[0][3] * m[1][1] * m[2][0]);
    assert(adjugate(m)[2][3] == signed(5, det(a23)));
    let a30 = minor(m, 0, 3);
    assert(is_square(a30, 3));
    lemma_det3(a30);
    assert(det(a30) == m[1][0] * m[2][1] * m[3][2] + m[1][1] * m[2][2] * m[3][0] + m[1][2] * m[2][0] * m[3][1] - m[1][0] * m[2][2] * m[3][1] - m[1][1] * m[2][0] * m[3][2] - m[1][2] * m[2][1] * m[3][0]);
    assert(adjugate(m)[3][0] == signed(3, det(a30)));
    let a31 = minor(m, 1, 3);
    assert(is_square(a31, 3));
    lemma_det3(a31);
    assert(det(a31) == m[0][0] * m[2][1] * m[3][2] + m[0][1] * m[2][2] * m[3][0] + m[0][2] * m[2][0] * m[3][1] - m[0][0] * m[2][2] * m[3][1] - m[0][1] * m[2][0] * m[3][2] - m[0][2] * m[2][1] * m[3][0]);
    assert(adjugate(m)[3][1] == signed(4, det(a31)));
    let a32 = minor(m, 2, 3);
    assert(is_square(a32, 3));
    lemma_det3(a32);
    assert(det(a32) == m[0][0] * m[1][1] * m[3][2] + m[0][1] * m[1][2] * m[3][0] + m[0][2] * m[1][0] * m[3][1] - m[0][0] * m[1][2] * m[3][1] - m[0][1] * m[1][0] * m[3][2] - m[0][2] * m[1][1] * m[3][0]);
    assert(adjugate(m)[3][2] == signed(5, det(a32)));
    let a33 = minor(m, 3, 3);
    assert(is_square(a33, 3));
    lemma_det3(a33);
    assert(det(a33) == m[0][0] * m[1][1] * m[2][2] + m[0][1] * m[1][2] * m[2][0] + m[0][2] * m[1][0] * m[2][1] - m[0][0] * m[1][2] * m[2][1] - m[0][1] * m[1][0] * m[2][2] - m[0][2] * m[1][1] * m[2][0]);
    assert(adjugate(m)[3][3] == signed(6, det(a33)));
}

} // verus!
