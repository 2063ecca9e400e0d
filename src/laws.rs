//! Laws that relate the library's operations, stated on the model that their
//! contracts use.
use crate::adjugate::{lemma_mul_adjugate2, lemma_mul_adjugate3, lemma_mul_adjugate4};
use crate::expansion::{lemma_adjugate2, lemma_adjugate3, lemma_adjugate4, lemma_det2};
use crate::model::{
    adjugate, column, det, dot, identity, is_square, mat_add, mat_div_scalar, mat_mul, scale_mat,
    scale_vec, transpose, vec_add, wrap_mat, wrap_vec,
};
use crate::numeric::{abs, fits, group_reduce, lemma_reduce_small, trunc_div, wrap, Numeric};
use vstd::arithmetic::div_mod::{lemma_div_multiples_vanish, lemma_fundamental_div_mod};
use vstd::arithmetic::mul::{lemma_mul_is_commutative, lemma_mul_is_distributive_add};
use vstd::prelude::*;

verus! {

/// Transposing a square matrix twice gives it back (`Matrix::transpose` maps a
/// matrix to `transpose` of it).
pub proof fn lemma_transpose_involution(m: Seq<Seq<int>>, n: int)
    requires
        is_square(m, n),
    ensures
        transpose(transpose(m)) == m,
{
    assert forall|i: int| 0 <= i < n implies #[trigger] transpose(transpose(m))[i] =~= m[i] by {
        assert(column(transpose(m), i).len() == m[i].len());
    }
    assert(transpose(transpose(m)) =~= m);
}

/// Building a matrix from the columns of a square matrix gives it back:
/// `into_cols` yields the rows of the transpose, and `from_cols` transposes
/// what it is given. (`into_rows` yields the rows themselves, which
/// `from_rows` stacks as they are.)
pub proof fn lemma_cols_round_trip(m: Seq<Seq<int>>, cols: Seq<Seq<int>>, n: int)
    requires
        is_square(m, n),
        cols == transpose(m),
    ensures
        transpose(cols) == m,
{
    lemma_transpose_involution(m, n);
}

/// The dot product is commutative.
pub proof fn lemma_dot_commutative(a: Seq<int>, b: Seq<int>)
    requires
        a.len() == b.len(),
    ensures
        dot(a, b) == dot(b, a),
    decreases a.len(),
{
    if a.len() > 0 {
        lemma_dot_commutative(a.drop_last(), b.drop_last());
        lemma_mul_is_commutative(a.last(), b.last());
    }
}

/// A scalar times a vector distributes over vector addition, `k * (a + b) ==
/// k * a + k * b`, with both sides computed in the scalar type `T`.
pub proof fn lemma_scale_vec_distributes<T: Numeric>(k: int, a: Seq<int>, b: Seq<int>)
    requires
        a.len() == b.len(),
    ensures
        wrap_vec::<T>(scale_vec(k, wrap_vec::<T>(vec_add(a, b)))) == wrap_vec::<T>(
            vec_add(wrap_vec::<T>(scale_vec(k, a)), wrap_vec::<T>(scale_vec(k, b))),
        ),
{
    broadcast use group_reduce;

    let lhs = wrap_vec::<T>(scale_vec(k, wrap_vec::<T>(vec_add(a, b))));
    let rhs = wrap_vec::<T>(vec_add(wrap_vec::<T>(scale_vec(k, a)), wrap_vec::<T>(scale_vec(k, b))));
    assert forall|i: int| 0 <= i < a.len() implies lhs[i] == rhs[i] by {
        lemma_mul_is_distributive_add(k, a[i], b[i]);
    }
    assert(lhs =~= rhs);
}

/// A scalar times a matrix distributes over matrix addition, `k * (a + b) ==
/// k * a + k * b`, with both sides computed in the scalar type `T`.
pub proof fn lemma_scale_mat_distributes<T: Numeric>(
    k: int,
    a: Seq<Seq<int>>,
    b: Seq<Seq<int>>,
    n: int,
)
    requires
        is_square(a, n),
        is_square(b, n),
    ensures
        wrap_mat::<T>(scale_mat(k, wrap_mat::<T>(mat_add(a, b)))) == wrap_mat::<T>(
            mat_add(wrap_mat::<T>(scale_mat(k, a)), wrap_mat::<T>(scale_mat(k, b))),
        ),
{
    let lhs = wrap_mat::<T>(scale_mat(k, wrap_mat::<T>(mat_add(a, b))));
    let rhs = wrap_mat::<T>(mat_add(wrap_mat::<T>(scale_mat(k, a)), wrap_mat::<T>(scale_mat(k, b))));
    assert forall|i: int| 0 <= i < n implies #[trigger] lhs[i] == rhs[i] by {
        lemma_scale_vec_distributes::<T>(k, a[i], b[i]);
        assert(lhs[i] =~= wrap_vec::<T>(scale_vec(k, wrap_vec::<T>(vec_add(a[i], b[i])))));
        assert(rhs[i] =~= wrap_vec::<T>(
            vec_add(wrap_vec::<T>(scale_vec(k, a[i])), wrap_vec::<T>(scale_vec(k, b[i]))),
        ));
    }
    assert(lhs =~= rhs);
}

/// Where `d` divides `a`, the truncating quotient is exact.
proof fn lemma_trunc_div_exact(a: int, d: int)
    requires
        d != 0,
        a % d == 0,
    ensures
        trunc_div(a, d) * d == a,
{
    lemma_fundamental_div_mod(a, d);
    let q = a / d;
    assert(abs(a) == abs(d) * abs(q)) by (nonlinear_arith)
        requires
            a == d * q,
    ;
    lemma_div_multiples_vanish(abs(q), abs(d));
    assert(trunc_div(a, d) * d == a) by (nonlinear_arith)
        requires
            a == d * q,
            d != 0,
            abs(a) / abs(d) == abs(q),
            trunc_div(a, d) == if (a < 0) == (d < 0) {
                abs(a) / abs(d)
            } else {
                -(abs(a) / abs(d))
            },
    ;
}

/// Where each entry of `c` times `d` is the entry of `b`, `dot(a, c) * d == dot(a, b)`.
proof fn lemma_dot_scaled(a: Seq<int>, b: Seq<int>, c: Seq<int>, d: int)
    requires
        a.len() == b.len(),
        a.len() == c.len(),
        forall|k: int| 0 <= k < c.len() ==> #[trigger] c[k] * d == b[k],
    ensures
        dot(a, c) * d == dot(a, b),
    decreases a.len(),
{
    if a.len() > 0 {
        let (a1, b1, c1) = (a.drop_last(), b.drop_last(), c.drop_last());
        assert forall|k: int| 0 <= k < c1.len() implies #[trigger] c1[k] * d == b1[k] by {
            assert(c1[k] == c[k] && b1[k] == b[k]);
        }
        lemma_dot_scaled(a1, b1, c1, d);
        assert(c.last() * d == b.last());
        let x = dot(a1, c1);
        assert((x + a.last() * c.last()) * d == x * d + a.last() * (c.last() * d)) by (nonlinear_arith);
    }
}

/// A matrix times its inverse (its adjugate divided by its determinant, as
/// `FloatMatrix::inverse` computes it) is the identity, where the determinant is
/// nonzero and divides every entry of the adjugate, so that the truncating
/// division is exact.
pub proof fn lemma_mul_inverse(m: Seq<Seq<int>>, n: int)
    requires
        2 <= n <= 4,
        is_square(m, n),
        det(m) != 0,
        forall|i: int, j: int|
            0 <= i < n && 0 <= j < n ==> #[trigger] adjugate(m)[i][j] % det(m) == 0,
    ensures
        mat_mul(m, mat_div_scalar(adjugate(m), det(m))) == identity(n),
{
    let d = det(m);
    let adj = adjugate(m);
    let inv = mat_div_scalar(adj, d);
    if n == 2 {
        lemma_adjugate2(m);
        lemma_mul_adjugate2(m);
    } else if n == 3 {
        lemma_adjugate3(m);
        lemma_mul_adjugate3(m);
    } else {
        lemma_adjugate4(m);
        lemma_mul_adjugate4(m);
    }
    let p = mat_mul(m, inv);
    assert forall|i: int| 0 <= i < n implies #[trigger] p[i] =~= identity(n)[i] by {
        assert forall|j: int| 0 <= j < n implies #[trigger] p[i][j] == identity(n)[i][j] by {
            let ci = column(inv, j);
            let ca = column(adj, j);
            assert forall|k: int| 0 <= k < ci.len() implies #[trigger] ci[k] * d == ca[k] by {
                lemma_trunc_div_exact(adj[k][j], d);
            }
            lemma_dot_scaled(m[i], ca, ci, d);
            let x = dot(m[i], ci);
            let e: int = if i == j {
                1
            } else {
                0
            };
            assert(dot(m[i], ca) == e * d);
            assert(x == e) by (nonlinear_arith)
                requires
                    x * d == e * d,
                    d != 0,
            ;
        }
    }
    assert(p =~= identity(n));
}

/// Dividing by 1 or -1 truncates nothing: it multiplies by the divisor.
proof fn lemma_trunc_div_unit(a: int, e: int)
    requires
        e == 1 || e == -1,
    ensures
        trunc_div(a, e) == a * e,
{
    assert(abs(e) == 1);
    assert(abs(a) / 1 == abs(a));
}

/// Inverting a 2 by 2 matrix twice gives it back, where its determinant is 1 or
/// -1 (with a larger determinant the truncating division of the first inverse
/// loses the matrix).
pub proof fn lemma_inverse_involution2(m: Seq<Seq<int>>)
    requires
        is_square(m, 2),
        det(m) == 1 || det(m) == -1,
    ensures
        mat_div_scalar(
            adjugate(mat_div_scalar(adjugate(m), det(m))),
            det(mat_div_scalar(adjugate(m), det(m))),
        ) == m,
{
    let e = det(m);
    lemma_det2(m);
    lemma_adjugate2(m);
    let adj = adjugate(m);
    let x = mat_div_scalar(adj, e);
    let (a, b, c, d) = (m[0][0], m[0][1], m[1][0], m[1][1]);
    lemma_trunc_div_unit(d, e);
    lemma_trunc_div_unit(-b, e);
    lemma_trunc_div_unit(-c, e);
    lemma_trunc_div_unit(a, e);
    assert(x[0][0] == d * e && x[0][1] == -b * e && x[1][0] == -c * e && x[1][1] == a * e);
    assert(is_square(x, 2));
    lemma_det2(x);
    lemma_adjugate2(x);
    assert(det(x) == e) by (nonlinear_arith)
        requires
            det(x) == x[0][0] * x[1][1] - x[0][1] * x[1][0],
            x[0][0] == d * e,
            x[0][1] == -b * e,
            x[1][0] == -c * e,
            x[1][1] == a * e,
            e == a * d - b * c,
            e == 1 || e == -1,
    ;
    let y = mat_div_scalar(adjugate(x), det(x));
    assert forall|i: int| 0 <= i < 2 implies #[trigger] y[i] =~= m[i] by {
        assert forall|j: int| 0 <= j < 2 implies #[trigger] y[i][j] == m[i][j] by {
            lemma_trunc_div_unit(adjugate(x)[i][j], e);
            assert(adjugate(x)[i][j] == m[i][j] * e);
            assert(m[i][j] * e * e == m[i][j]) by (nonlinear_arith)
                requires
                    e == 1 || e == -1,
            ;
        }
    }
    assert(y =~= m);
}

/// Where the determinant of `m`, its adjugate and their quotients fit in `T`,
/// what `FloatMatrix::inverse` computes is exactly the adjugate divided by the
/// determinant.
pub proof fn lemma_inverse_in_range<T: Numeric>(m: Seq<Seq<int>>, n: int)
    requires
        is_square(m, n),
        det(m) != 0,
        fits::<T>(det(m)),
        forall|i: int, j: int|
            0 <= i < n && 0 <= j < n ==> fits::<T>(#[trigger] adjugate(m)[i][j]) && fits::<T>(
                trunc_div(adjugate(m)[i][j], det(m)),
            ),
    ensures
        wrap_mat::<T>(mat_div_scalar(wrap_mat::<T>(adjugate(m)), wrap::<T>(det(m))))
            == mat_div_scalar(adjugate(m), det(m)),
{
    T::lemma_modulus();
    let md = T::modulus();
    let d = det(m);
    let adj = adjugate(m);
    lemma_reduce_small(d, md);
    let lhs = wrap_mat::<T>(mat_div_scalar(wrap_mat::<T>(adj), wrap::<T>(d)));
    let rhs = mat_div_scalar(adj, d);
    assert forall|i: int| 0 <= i < n implies #[trigger] lhs[i] =~= rhs[i] by {
        assert forall|j: int| 0 <= j < n implies #[trigger] lhs[i][j] == rhs[i][j] by {
            let a = adj[i][j];
            lemma_reduce_small(a, md);
            lemma_reduce_small(trunc_div(a, d), md);
        }
    }
    assert(lhs =~= rhs);
}

} // verus!
