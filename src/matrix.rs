//! 2D and 4x4 homogeneous matrices as written in `matrix()` and `matrix3d()`.
use vstd::prelude::*;
use crate::number::{Decimal, DECIMAL_SCALE};

verus! {

/// The six values of a 2D affine matrix, in `matrix(a, b, c, d, e, f)` order.
#[derive(Clone, Copy, Debug, PartialEq, Eq, Structural)]
pub struct Matrix<T> {
    pub a: T,
    pub b: T,
    pub c: T,
    pub d: T,
    pub e: T,
    pub f: T,
}

/// A 4x4 homogeneous matrix in row-vector convention: the translation is in
/// the fourth row.
#[derive(Clone, Copy, Debug, PartialEq, Eq, Structural)]
pub struct Matrix3d<T> {
    pub m11: T,
    pub m12: T,
    pub m13: T,
    pub m14: T,
    pub m21: T,
    pub m22: T,
    pub m23: T,
    pub m24: T,
    pub m31: T,
    pub m32: T,
    pub m33: T,
    pub m34: T,
    pub m41: T,
    pub m42: T,
    pub m43: T,
    pub m44: T,
}

pub open spec fn dec(n: int) -> Decimal {
    Decimal { scaled: (n * DECIMAL_SCALE) as i64 }
}

pub open spec fn spec_identity() -> Matrix3d<Decimal> {
    Matrix3d {
        m11: dec(1), m12: dec(0), m13: dec(0), m14: dec(0),
        m21: dec(0), m22: dec(1), m23: dec(0), m24: dec(0),
        m31: dec(0), m32: dec(0), m33: dec(1), m34: dec(0),
        m41: dec(0), m42: dec(0), m43: dec(0), m44: dec(1),
    }
}

/// The matrix has no out-of-plane component, so `matrix()` can write it.
pub open spec fn spec_is_2d(m: Matrix3d<Decimal>) -> bool {
    m.m31 == dec(0) && m.m32 == dec(0) && m.m13 == dec(0) && m.m23 == dec(0) && m.m43 == dec(0)
        && m.m14 == dec(0) && m.m24 == dec(0) && m.m34 == dec(0) && m.m33 == dec(1) && m.m44
        == dec(1)
}

impl Matrix<Decimal> {
    /// The same transformation as a 4x4 matrix.
    pub fn to_matrix3d(&self) -> (r: Matrix3d<Decimal>)
        ensures
            r == (Matrix3d {
                m11: self.a, m12: self.b, m13: dec(0), m14: dec(0),
                m21: self.c, m22: self.d, m23: dec(0), m24: dec(0),
                m31: dec(0), m32: dec(0), m33: dec(1), m34: dec(0),
                m41: self.e, m42: self.f, m43: dec(0), m44: dec(1),
            }),
    {
        let z = Decimal { scaled: 0 };
        let o = Decimal { scaled: DECIMAL_SCALE };
        Matrix3d {
            m11: self.a, m12: self.b, m13: z, m14: z,
            m21: self.c, m22: self.d, m23: z, m24: z,
            m31: z, m32: z, m33: o, m34: z,
            m41: self.e, m42: self.f, m43: z, m44: o,
        }
    }
}

impl Matrix3d<Decimal> {
    pub fn identity() -> (r: Matrix3d<Decimal>)
        ensures
            r == spec_identity(),
    {
        let z = Decimal { scaled: 0 };
        let o = Decimal { scaled: DECIMAL_SCALE };
        Matrix3d {
            m11: o, m12: z, m13: z, m14: z,
            m21: z, m22: o, m23: z, m24: z,
            m31: z, m32: z, m33: o, m34: z,
            m41: z, m42: z, m43: z, m44: o,
        }
    }

    /// The matrix of a translation by (x, y, z).
    pub fn translate(x: Decimal, y: Decimal, z: Decimal) -> (r: Matrix3d<Decimal>)
        ensures
            r == (Matrix3d { m41: x, m42: y, m43: z, ..spec_identity() }),
    {
        let mut m = Matrix3d::identity();
        m.m41 = x;
        m.m42 = y;
        m.m43 = z;
        m
    }

    /// The matrix of a scaling by (x, y, z).
    pub fn scale(x: Decimal, y: Decimal, z: Decimal) -> (r: Matrix3d<Decimal>)
        ensures
            r == (Matrix3d { m11: x, m22: y, m33: z, ..spec_identity() }),
    {
        let mut m = Matrix3d::identity();
        m.m11 = x;
        m.m22 = y;
        m.m33 = z;
        m
    }

    pub fn is_2d(&self) -> (r: bool)
        ensures
            r == spec_is_2d(*self),
    {
        let z: i64 = 0;
        let o: i64 = DECIMAL_SCALE;
        self.m31.scaled == z && self.m32.scaled == z && self.m13.scaled == z && self.m23.scaled == z
            && self.m43.scaled == z && self.m14.scaled == z && self.m24.scaled == z
            && self.m34.scaled == z && self.m33.scaled == o && self.m44.scaled == o
    }

    /// The 2D form of the matrix, when it has one.
    pub fn to_matrix2d(&self) -> (r: Option<Matrix<Decimal>>)
        ensures
            r == if spec_is_2d(*self) {
                Some(
                    Matrix {
                        a: self.m11,
                        b: self.m12,
                        c: self.m21,
                        d: self.m22,
                        e: self.m41,
                        f: self.m42,
                    },
                )
            } else {
                None
            },
    {
        if self.is_2d() {
            Some(
                Matrix {
                    a: self.m11,
                    b: self.m12,
                    c: self.m21,
                    d: self.m22,
                    e: self.m41,
                    f: self.m42,
                },
            )
        } else {
            None
        }
    }
}

impl<T: Copy> Matrix3d<T> {
    /// Rows become columns.
    pub fn transpose(&self) -> (r: Self)
        ensures
            r == (Matrix3d {
                m11: self.m11, m12: self.m21, m13: self.m31, m14: self.m41,
                m21: self.m12, m22: self.m22, m23: self.m32, m24: self.m42,
                m31: self.m13, m32: self.m23, m33: self.m33, m34: self.m43,
                m41: self.m14, m42: self.m24, m43: self.m34, m44: self.m44,
            }),
    {
        Matrix3d {
            m11: self.m11, m12: self.m21, m13: self.m31, m14: self.m41,
            m21: self.m12, m22: self.m22, m23: self.m32, m24: self.m42,
            m31: self.m13, m32: self.m23, m33: self.m33, m34: self.m43,
            m41: self.m14, m42: self.m24, m43: self.m34, m44: self.m44,
        }
    }
}

} // verus!
