//! The mathematical model of vectors and matrices: vectors are `Seq<int>`,
//! matrices are row-major `Seq<Seq<int>>`, and every operation is stated on
//! exact integers. The executable types reduce these results into the range
//! of their scalar type (`wrap_vec`, `wrap_mat`).
use crate::numeric::{trunc_div, wrap, Numeric};
use vstd::prelude::*;

verus! {

/// Each entry reduced into the range of `T`.
pub open spec fn wrap_vec<T: Numeric>(a: Seq<int>) -> Seq<int> {
    a.map_values(|x: int| wrap::<T>(x))
}

/// Each entry reduced into the range of `T`.
pub open spec fn wrap_mat<T: Numeric>(m: Seq<Seq<int>>) -> Seq<Seq<int>> {
    m.map_values(|row: Seq<int>| wrap_vec::<T>(row))
}

/// Entrywise sum.
pub open spec fn vec_add(a: Seq<int>, b: Seq<int>) -> Seq<int> {
    Seq::new(a.len(), |i: int| a[i] + b[i])
}

/// Entrywise difference.
pub open spec fn vec_sub(a: Seq<int>, b: Seq<int>) -> Seq<int> {
    Seq::new(a.len(), |i: int| a[i] - b[i])
}

/// Entrywise product.
pub open spec fn vec_mul(a: Seq<int>, b: Seq<int>) -> Seq<int> {
    Seq::new(a.len(), |i: int| a[i] * b[i])
}

/// Entrywise truncating quotient.
pub open spec fn vec_div(a: Seq<int>, b: Seq<int>) -> Seq<int> {
    Seq::new(a.len(), |i: int| trunc_div(a[i], b[i]))
}

/// Every entry multiplied by `k` (on the right).
pub open spec fn vec_scale(a: Seq<int>, k: int) -> Seq<int> {
    Seq::new(a.len(), |i: int| a[i] * k)
}

/// Every entry multiplied by `k` (on the left).
pub open spec fn scale_vec(k: int, a: Seq<int>) -> Seq<int> {
    Seq::new(a.len(), |i: int| k * a[i])
}

/// Every entry divided by `k`, truncating.
pub open spec fn vec_div_scalar(a: Seq<int>, k: int) -> Seq<int> {
    Seq::new(a.len(), |i: int| trunc_div(a[i], k))
}

/// No entry is zero.
pub open spec fn nonzero_entries(a: Seq<int>) -> bool {
    forall|i: int| 0 <= i < a.len() ==> a[i] != 0
}

/// The dot product `a[0] * b[0] + ... + a[n-1] * b[n-1]`, summed from the left.
pub open spec fn dot(a: Seq<int>, b: Seq<int>) -> int
    decreases a.len(),
{
    if a.len() == 0 {
        0
    } else {
        dot(a.drop_last(), b.drop_last()) + a.last() * b.last()
    }
}

/// The cross product of two 3-vectors.
pub open spec fn cross(a: Seq<int>, b: Seq<int>) -> Seq<int> {
    seq![a[1] * b[2] - a[2] * b[1], a[2] * b[0] - a[0] * b[2], a[0] * b[1] - a[1] * b[0]]
}

/// The cross product of two 2-vectors taken in the plane `z = 0`: only the third
/// entry can be nonzero.
pub open spec fn cross2(a: Seq<int>, b: Seq<int>) -> Seq<int> {
    seq![0, 0, a[0] * b[1] - a[1] * b[0]]
}

/// An `n` by `n` matrix.
pub open spec fn is_square(m: Seq<Seq<int>>, n: int) -> bool {
    &&& m.len() == n
    &&& forall|i: int| 0 <= i < n ==> #[trigger] m[i].len() == n
}

/// Entrywise sum.
pub open spec fn mat_add(a: Seq<Seq<int>>, b: Seq<Seq<int>>) -> Seq<Seq<int>> {
    Seq::new(a.len(), |i: int| vec_add(a[i], b[i]))
}

/// Entrywise difference.
pub open spec fn mat_sub(a: Seq<Seq<int>>, b: Seq<Seq<int>>) -> Seq<Seq<int>> {
    Seq::new(a.len(), |i: int| vec_sub(a[i], b[i]))
}

/// Every entry multiplied by `k` (on the left).
pub open spec fn scale_mat(k: int, m: Seq<Seq<int>>) -> Seq<Seq<int>> {
    Seq::new(m.len(), |i: int| scale_vec(k, m[i]))
}

/// Every entry divided by `k`, truncating.
pub open spec fn mat_div_scalar(m: Seq<Seq<int>>, k: int) -> Seq<Seq<int>> {
    Seq::new(m.len(), |i: int| vec_div_scalar(m[i], k))
}

/// Column `j`.
pub open spec fn column(m: Seq<Seq<int>>, j: int) -> Seq<int> {
    Seq::new(m.len(), |i: int| m[i][j])
}

/// The transpose: entry `(i, j)` is entry `(j, i)` of `m`.
pub open spec fn transpose(m: Seq<Seq<int>>) -> Seq<Seq<int>> {
    Seq::new(m.len(), |i: int| column(m, i))
}

/// The matrix product: entry `(i, j)` is row `i` of `a` dotted with column `j` of `b`.
pub open spec fn mat_mul(a: Seq<Seq<int>>, b: Seq<Seq<int>>) -> Seq<Seq<int>> {
    Seq::new(a.len(), |i: int| Seq::new(b.len(), |j: int| dot(a[i], column(b, j))))
}

/// The matrix times a column vector: entry `i` is row `i` dotted with `v`.
pub open spec fn mat_vec(m: Seq<Seq<int>>, v: Seq<int>) -> Seq<int> {
    Seq::new(m.len(), |i: int| dot(m[i], v))
}

/// A row vector times the matrix: entry `j` is `v` dotted with column `j`.
pub open spec fn vec_mat(v: Seq<int>, m: Seq<Seq<int>>) -> Seq<int> {
    Seq::new(v.len(), |j: int| dot(v, column(m, j)))
}

/// The `n` by `n` identity matrix.
pub open spec fn identity(n: int) -> Seq<Seq<int>> {
    Seq::new(n as nat, |i: int| Seq::new(n as nat, |j: int| if i == j { 1int } else { 0int }))
}

/// `m` without row `r` and column `c`.
pub open spec fn minor(m: Seq<Seq<int>>, r: int, c: int) -> Seq<Seq<int>> {
    Seq::new(
        (m.len() - 1) as nat,
        |i: int|
            Seq::new(
                (m.len() - 1) as nat,
                |j: int| m[if i < r { i } else { i + 1 }][if j < c { j } else { j + 1 }],
            ),
    )
}

/// `(-1)^k * x`.
pub open spec fn signed(k: int, x: int) -> int {
    if k % 2 == 0 {
        x
    } else {
        -x
    }
}

/// The first `k` terms of the Laplace expansion of `det(m)` along row 0;
/// for an empty matrix, 1.
pub open spec fn laplace(m: Seq<Seq<int>>, k: nat) -> int
    decreases m.len(), k,
{
    if m.len() == 0 {
        1
    } else if k == 0 {
        0
    } else {
        let c = k - 1;
        laplace(m, c as nat) + signed(c, m[0][c] * laplace(minor(m, 0, c), (m.len() - 1) as nat))
    }
}

/// The determinant, by cofactor expansion along the first row.
pub open spec fn det(m: Seq<Seq<int>>) -> int {
    laplace(m, m.len())
}

/// The adjugate (transposed matrix of cofactors): entry `(i, j)` is
/// `(-1)^(i+j)` times the determinant of `m` without row `j` and column `i`.
/// Dividing it by the determinant gives the inverse.
pub open spec fn adjugate(m: Seq<Seq<int>>) -> Seq<Seq<int>> {
    Seq::new(
        m.len(),
        |i: int| Seq::new(m.len(), |j: int| signed(i + j, det(minor(m, j, i)))),
    )
}

} // verus!

verus! {

pub proof fn lemma_dot1(a: Seq<int>, b: Seq<int>)
    requires
        a.len() == 1,
        b.len() == 1,
    ensures
        dot(a, b) == a[0] * b[0],
{
    assert(a.drop_last().len() == 0);
    reveal_with_fuel(dot, 2);
}

pub proof fn lemma_dot2(a: Seq<int>, b: Seq<int>)
    requires
        a.len() == 2,
        b.len() == 2,
    ensures
        dot(a, b) == a[0] * b[0] + a[1] * b[1],
{
    lemma_dot1(a.drop_last(), b.drop_last());
}

pub proof fn lemma_dot3(a: Seq<int>, b: Seq<int>)
    requires
        a.len() == 3,
        b.len() == 3,
    ensures
        dot(a, b) == a[0] * b[0] + a[1] * b[1] + a[2] * b[2],
{
    lemma_dot2(a.drop_last(), b.drop_last());
}

pub proof fn lemma_dot4(a: Seq<int>, b: Seq<int>)
    requires
        a.len() == 4,
        b.len() == 4,
    ensures
        dot(a, b) == a[0] * b[0] + a[1] * b[1] + a[2] * b[2] + a[3] * b[3],
{
    lemma_dot3(a.drop_last(), b.drop_last());
}

} // verus!
