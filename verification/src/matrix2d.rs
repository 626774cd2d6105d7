//! A 2-by-2 matrix over fixed-point scalars, applied to plane vectors.

use vstd::prelude::*;

use crate::fx::{fx_add, fx_mul, spec_fx_add, spec_fx_mul};
use crate::vec2d::Vec2D;

verus! {

/// A 2-by-2 matrix in row-major order.
#[derive(Clone, Copy, PartialEq, Eq, Structural, Debug)]
pub struct Matrix2D {
    a11: i64,
    a12: i64,
    a21: i64,
    a22: i64,
}

impl Matrix2D {
    /// The first row of the matrix.
    pub closed spec fn spec_row1(self) -> (i64, i64) {
        (self.a11, self.a12)
    }

    /// The second row of the matrix.
    pub closed spec fn spec_row2(self) -> (i64, i64) {
        (self.a21, self.a22)
    }

    /// The matrix with the given entries, row by row.
    pub fn new(a11: i64, a12: i64, a21: i64, a22: i64) -> (r: Matrix2D)
        ensures
            r.spec_row1() == (a11, a12),
            r.spec_row2() == (a21, a22),
    {
        Matrix2D { a11, a12, a21, a22 }
    }

    /// The matrix-vector product, each component a fixed-point dot
    /// product of a row with the vector.
    pub fn multiply_vec2d(&self, vector: &Vec2D) -> (r: Vec2D)
        ensures
            r.x == spec_fx_add(
                spec_fx_mul(self.spec_row1().0, vector.x),
                spec_fx_mul(self.spec_row1().1, vector.y),
            ),
            r.y == spec_fx_add(
                spec_fx_mul(self.spec_row2().0, vector.x),
                spec_fx_mul(self.spec_row2().1, vector.y),
            ),
    {
        Vec2D::new(
            fx_add(fx_mul(self.a11, vector.x), fx_mul(self.a12, vector.y)),
            fx_add(fx_mul(self.a21, vector.x), fx_mul(self.a22, vector.y)),
        )
    }
}

impl Default for Matrix2D {
    /// The zero matrix.
    fn default() -> (r: Self)
        ensures
            r.spec_row1() == (0i64, 0i64),
            r.spec_row2() == (0i64, 0i64),
    {
        Matrix2D::new(0, 0, 0, 0)
    }
}

} // verus!
