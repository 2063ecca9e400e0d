//! Small fixed-size linear algebra: vectors of 2, 3 and 4 entries and square
//! matrices of those sizes over signed integer scalars, with entrywise
//! arithmetic, dot and cross products, matrix products, transpose, and the
//! closed-form determinant, adjugate and inverse.
//!
//! Every operation is specified on a mathematical model (`model`): a vector is
//! the sequence of its entries' values, a matrix the sequence of its rows.
//! Scalars are two's-complement integers whose arithmetic wraps around
//! (`numeric`), so each result is the exact integer result reduced into the
//! scalar's range; where the exact result fits, that is the result itself.
//! `laws` states how the operations relate.
pub mod adjugate;
pub mod builder;
pub mod expansion;
pub mod laws;
pub mod matrix;
pub mod model;
pub mod numeric;
pub mod scale;
pub mod vector;

pub use self::matrix::{FloatMatrix, FromVectors, IntoVectors, Matrix, M2, M3, M4};
pub use self::numeric::Numeric;
pub use self::vector::{Cross, Vector, V2, V3, V4};
