pub mod m2;
pub mod m3;
pub mod m4;

use crate::model::{adjugate, det, mat_div_scalar, transpose, wrap_mat};
use crate::numeric::{wrap, Numeric};
use vstd::prelude::*;

verus! {

/// A 2 by 2 matrix, row-major: `m.0[row][col]`.
#[derive(Default, Copy, Clone, PartialEq, Debug)]
pub struct M2<T>(pub [[T; 2]; 2]);

/// A 3 by 3 matrix, row-major: `m.0[row][col]`.
#[derive(Default, Copy, Clone, PartialEq, Debug)]
pub struct M3<T>(pub [[T; 3]; 3]);

/// A 4 by 4 matrix, row-major: `m.0[row][col]`.
#[derive(Default, Copy, Clone, PartialEq, Debug)]
pub struct M4<T>(pub [[T; 4]; 4]);

impl<T: Numeric> View for M2<T> {
    type V = Seq<Seq<int>>;

    open spec fn view(&self) -> Seq<Seq<int>> {
        seq![
            seq![self.0[0][0].value(), self.0[0][1].value()],
            seq![self.0[1][0].value(), self.0[1][1].value()],
        ]
    }
}

impl<T: Numeric> View for M3<T> {
    type V = Seq<Seq<int>>;

    open spec fn view(&self) -> Seq<Seq<int>> {
        seq![
            seq![self.0[0][0].value(), self.0[0][1].value(), self.0[0][2].value()],
            seq![self.0[1][0].value(), self.0[1][1].value(), self.0[1][2].value()],
            seq![self.0[2][0].value(), self.0[2][1].value(), self.0[2][2].value()],
        ]
    }
}

impl<T: Numeric> View for M4<T> {
    type V = Seq<Seq<int>>;

    open spec fn view(&self) -> Seq<Seq<int>> {
        seq![
            seq![self.0[0][0].value(), self.0[0][1].value(), self.0[0][2].value(), self.0[0][3].value()],
            seq![self.0[1][0].value(), self.0[1][1].value(), self.0[1][2].value(), self.0[1][3].value()],
            seq![self.0[2][0].value(), self.0[2][1].value(), self.0[2][2].value(), self.0[2][3].value()],
            seq![self.0[3][0].value(), self.0[3][1].value(), self.0[3][2].value(), self.0[3][3].value()],
        ]
    }
}

/// A square matrix, viewed as the sequence of its rows.
pub trait Matrix: View<V = Seq<Seq<int>>> + Sized {
    /// Transposes in place: entries `(i, j)` and `(j, i)` trade places.
    fn transpose(&mut self)
        ensures
            final(self)@ == transpose(old(self)@),
    ;
}

/// Determinant, adjugate and inverse.
///
/// The expansions are exact over the integers and reduced into the range of `F`.
/// `cofactor` returns the adjugate (the transposed matrix of cofactors), so that
/// `inverse` is `cofactor` divided entrywise by `determinant`; the division truncates,
/// so the inverse is exact where the determinant divides every adjugate entry.
pub trait FloatMatrix<F: Numeric>: Matrix {
    /// The determinant.
    fn determinant(&self) -> (r: F)
        ensures
            r.value() == wrap::<F>(det(self@)),
    ;

    /// The adjugate: entry `(i, j)` is the signed determinant of the matrix
    /// without row `j` and column `i`.
    fn cofactor(&self) -> (r: Self)
        ensures
            r@ == wrap_mat::<F>(adjugate(self@)),
    ;

    /// The adjugate divided entrywise by the determinant. A zero determinant is
    /// a division by zero, which the caller rules out.
    fn inverse(&self) -> (r: Self)
        requires
            wrap::<F>(det(self@)) != 0,
        ensures
            r@ == wrap_mat::<F>(mat_div_scalar(wrap_mat::<F>(adjugate(self@)), wrap::<F>(det(self@)))),
    ;
}

/// Splitting a matrix into its rows or columns.
pub trait IntoVectors<V> {
    fn into_cols(&self) -> V;

    fn into_rows(&self) -> V;
}

/// Building a matrix from rows or columns.
pub trait FromVectors<V>: Sized {
    fn from_cols(v: V) -> Self;

    fn from_rows(v: V) -> Self;
}

} // verus!
