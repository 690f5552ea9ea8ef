//! The fixed-size matrix and aliases for the commonly used square shapes.

use vstd::prelude::*;

mod matrix;

pub use self::matrix::lemma_transpose_duality;
pub use self::matrix::Matrix;

verus! {

/// Matrix with a fixed shape of 2 rows by 2 columns.
pub type Matrix2<T> = Matrix<T, 2, 2>;

/// Matrix with a fixed shape of 3 rows by 3 columns.
pub type Matrix3<T> = Matrix<T, 3, 3>;

/// Matrix with a fixed shape of 4 rows by 4 columns.
pub type Matrix4<T> = Matrix<T, 4, 4>;

} // verus!
