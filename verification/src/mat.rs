//! 4x4 matrices of exact rationals, and the elementary affine operations the
//! builder accumulates: non-uniform scale, translation, and rotation about
//! each axis (a rotation is given by the cosine and sine of its angle).
//!
//! Each operation left-multiplies the corresponding elementary matrix onto an
//! existing matrix. Because the elementary matrices are sparse, the product
//! is written out row by row; the spec functions below state the resulting
//! entries exactly.

use vstd::prelude::*;
use crate::frac::{
    Frac, add_fits, fadd, fmul, fsub, mul_fits, spec_add, spec_mul, spec_one, spec_sub, spec_zero,
    sub_fits,
};

verus! {

/// A 4x4 matrix of exact rationals; `mRC` is the entry at row `R`, column
/// `C`. Points transform as columns: `p' = M * (x, y, z, 1)`.
#[derive(Clone, Copy, PartialEq, Eq, Structural, Debug)]
pub struct Mat4 {
    pub m00: Frac, pub m01: Frac, pub m02: Frac, pub m03: Frac,
    pub m10: Frac, pub m11: Frac, pub m12: Frac, pub m13: Frac,
    pub m20: Frac, pub m21: Frac, pub m22: Frac, pub m23: Frac,
    pub m30: Frac, pub m31: Frac, pub m32: Frac, pub m33: Frac,
}

impl Mat4 {
    /// Every entry is a well-formed rational.
    pub open spec fn wf(self) -> bool {
        &&& self.m00.wf() &&& self.m01.wf() &&& self.m02.wf() &&& self.m03.wf()
        &&& self.m10.wf() &&& self.m11.wf() &&& self.m12.wf() &&& self.m13.wf()
        &&& self.m20.wf() &&& self.m21.wf() &&& self.m22.wf() &&& self.m23.wf()
        &&& self.m30.wf() &&& self.m31.wf() &&& self.m32.wf() &&& self.m33.wf()
    }

    /// The bottom row is exactly (0, 0, 0, 1): the matrix is affine, and the
    /// homogeneous coordinate of every transformed point stays 1.
    pub open spec fn affine(self) -> bool {
        &&& self.m30 == spec_zero()
        &&& self.m31 == spec_zero()
        &&& self.m32 == spec_zero()
        &&& self.m33 == spec_one()
    }
}

/// The identity matrix.
pub open spec fn spec_identity() -> Mat4 {
    Mat4 {
        m00: spec_one(), m01: spec_zero(), m02: spec_zero(), m03: spec_zero(),
        m10: spec_zero(), m11: spec_one(), m12: spec_zero(), m13: spec_zero(),
        m20: spec_zero(), m21: spec_zero(), m22: spec_one(), m23: spec_zero(),
        m30: spec_zero(), m31: spec_zero(), m32: spec_zero(), m33: spec_one(),
    }
}

/// All products in `diag(sx, sy, sz, 1) * m` fit.
pub open spec fn scale_fits(m: Mat4, sx: Frac, sy: Frac, sz: Frac) -> bool {
    &&& mul_fits(sx, m.m00) &&& mul_fits(sx, m.m01) &&& mul_fits(sx, m.m02) &&& mul_fits(sx, m.m03)
    &&& mul_fits(sy, m.m10) &&& mul_fits(sy, m.m11) &&& mul_fits(sy, m.m12) &&& mul_fits(sy, m.m13)
    &&& mul_fits(sz, m.m20) &&& mul_fits(sz, m.m21) &&& mul_fits(sz, m.m22) &&& mul_fits(sz, m.m23)
}

/// `diag(sx, sy, sz, 1) * m`: row `i` of `m` scaled by the `i`-th factor,
/// bottom row unchanged.
pub open spec fn spec_scale_mat(m: Mat4, sx: Frac, sy: Frac, sz: Frac) -> Mat4 {
    Mat4 {
        m00: spec_mul(sx, m.m00), m01: spec_mul(sx, m.m01),
        m02: spec_mul(sx, m.m02), m03: spec_mul(sx, m.m03),
        m10: spec_mul(sy, m.m10), m11: spec_mul(sy, m.m11),
        m12: spec_mul(sy, m.m12), m13: spec_mul(sy, m.m13),
        m20: spec_mul(sz, m.m20), m21: spec_mul(sz, m.m21),
        m22: spec_mul(sz, m.m22), m23: spec_mul(sz, m.m23),
        m30: m.m30, m31: m.m31, m32: m.m32, m33: m.m33,
    }
}

/// All operations in `a + t * b` fit.
pub open spec fn axpy_fits(a: Frac, t: Frac, b: Frac) -> bool {
    mul_fits(t, b) && add_fits(a, spec_mul(t, b))
}

/// `a + t * b`.
pub open spec fn spec_axpy(a: Frac, t: Frac, b: Frac) -> Frac {
    spec_add(a, spec_mul(t, b))
}

/// All operations in `T(tx, ty, tz) * m` fit.
pub open spec fn translate_fits(m: Mat4, tx: Frac, ty: Frac, tz: Frac) -> bool {
    &&& axpy_fits(m.m00, tx, m.m30) &&& axpy_fits(m.m01, tx, m.m31)
    &&& axpy_fits(m.m02, tx, m.m32) &&& axpy_fits(m.m03, tx, m.m33)
    &&& axpy_fits(m.m10, ty, m.m30) &&& axpy_fits(m.m11, ty, m.m31)
    &&& axpy_fits(m.m12, ty, m.m32) &&& axpy_fits(m.m13, ty, m.m33)
    &&& axpy_fits(m.m20, tz, m.m30) &&& axpy_fits(m.m21, tz, m.m31)
    &&& axpy_fits(m.m22, tz, m.m32) &&& axpy_fits(m.m23, tz, m.m33)
}

/// `T(tx, ty, tz) * m`: row `i` of `m` plus the `i`-th offset times the
/// bottom row, bottom row unchanged.
pub open spec fn spec_translate_mat(m: Mat4, tx: Frac, ty: Frac, tz: Frac) -> Mat4 {
    Mat4 {
        m00: spec_axpy(m.m00, tx, m.m30), m01: spec_axpy(m.m01, tx, m.m31),
        m02: spec_axpy(m.m02, tx, m.m32), m03: spec_axpy(m.m03, tx, m.m33),
        m10: spec_axpy(m.m10, ty, m.m30), m11: spec_axpy(m.m11, ty, m.m31),
        m12: spec_axpy(m.m12, ty, m.m32), m13: spec_axpy(m.m13, ty, m.m33),
        m20: spec_axpy(m.m20, tz, m.m30), m21: spec_axpy(m.m21, tz, m.m31),
        m22: spec_axpy(m.m22, tz, m.m32), m23: spec_axpy(m.m23, tz, m.m33),
        m30: m.m30, m31: m.m31, m32: m.m32, m33: m.m33,
    }
}

/// All operations in `c * a - s * b` fit.
pub open spec fn rot_sub_fits(c: Frac, a: Frac, s: Frac, b: Frac) -> bool {
    mul_fits(c, a) && mul_fits(s, b) && sub_fits(spec_mul(c, a), spec_mul(s, b))
}

/// `c * a - s * b`.
pub open spec fn spec_rot_sub(c: Frac, a: Frac, s: Frac, b: Frac) -> Frac {
    spec_sub(spec_mul(c, a), spec_mul(s, b))
}

/// All operations in `s * a + c * b` fit.
pub open spec fn rot_add_fits(s: Frac, a: Frac, c: Frac, b: Frac) -> bool {
    mul_fits(s, a) && mul_fits(c, b) && add_fits(spec_mul(s, a), spec_mul(c, b))
}

/// `s * a + c * b`.
pub open spec fn spec_rot_add(s: Frac, a: Frac, c: Frac, b: Frac) -> Frac {
    spec_add(spec_mul(s, a), spec_mul(c, b))
}

/// All operations in `Rx(c, s) * m` fit.
pub open spec fn rot_x_fits(m: Mat4, c: Frac, s: Frac) -> bool {
    &&& rot_sub_fits(c, m.m10, s, m.m20) &&& rot_sub_fits(c, m.m11, s, m.m21)
    &&& rot_sub_fits(c, m.m12, s, m.m22) &&& rot_sub_fits(c, m.m13, s, m.m23)
    &&& rot_add_fits(s, m.m10, c, m.m20) &&& rot_add_fits(s, m.m11, c, m.m21)
    &&& rot_add_fits(s, m.m12, c, m.m22) &&& rot_add_fits(s, m.m13, c, m.m23)
}

/// `Rx(c, s) * m`, the rotation about the x-axis with cosine `c`, sine `s`:
/// row1' = c*row1 - s*row2, row2' = s*row1 + c*row2.
pub open spec fn spec_rot_x_mat(m: Mat4, c: Frac, s: Frac) -> Mat4 {
    Mat4 {
        m00: m.m00, m01: m.m01, m02: m.m02, m03: m.m03,
        m10: spec_rot_sub(c, m.m10, s, m.m20), m11: spec_rot_sub(c, m.m11, s, m.m21),
        m12: spec_rot_sub(c, m.m12, s, m.m22), m13: spec_rot_sub(c, m.m13, s, m.m23),
        m20: spec_rot_add(s, m.m10, c, m.m20), m21: spec_rot_add(s, m.m11, c, m.m21),
        m22: spec_rot_add(s, m.m12, c, m.m22), m23: spec_rot_add(s, m.m13, c, m.m23),
        m30: m.m30, m31: m.m31, m32: m.m32, m33: m.m33,
    }
}

/// All operations in `Ry(c, s) * m` fit.
pub open spec fn rot_y_fits(m: Mat4, c: Frac, s: Frac) -> bool {
    &&& rot_add_fits(s, m.m20, c, m.m00) &&& rot_add_fits(s, m.m21, c, m.m01)
    &&& rot_add_fits(s, m.m22, c, m.m02) &&& rot_add_fits(s, m.m23, c, m.m03)
    &&& rot_sub_fits(c, m.m20, s, m.m00) &&& rot_sub_fits(c, m.m21, s, m.m01)
    &&& rot_sub_fits(c, m.m22, s, m.m02) &&& rot_sub_fits(c, m.m23, s, m.m03)
}

/// `Ry(c, s) * m`, the rotation about the y-axis:
/// row0' = c*row0 + s*row2, row2' = c*row2 - s*row0.
pub open spec fn spec_rot_y_mat(m: Mat4, c: Frac, s: Frac) -> Mat4 {
    Mat4 {
        m00: spec_rot_add(s, m.m20, c, m.m00), m01: spec_rot_add(s, m.m21, c, m.m01),
        m02: spec_rot_add(s, m.m22, c, m.m02), m03: spec_rot_add(s, m.m23, c, m.m03),
        m10: m.m10, m11: m.m11, m12: m.m12, m13: m.m13,
        m20: spec_rot_sub(c, m.m20, s, m.m00), m21: spec_rot_sub(c, m.m21, s, m.m01),
        m22: spec_rot_sub(c, m.m22, s, m.m02), m23: spec_rot_sub(c, m.m23, s, m.m03),
        m30: m.m30, m31: m.m31, m32: m.m32, m33: m.m33,
    }
}

/// All operations in `Rz(c, s) * m` fit.
pub open spec fn rot_z_fits(m: Mat4, c: Frac, s: Frac) -> bool {
    &&& rot_sub_fits(c, m.m00, s, m.m10) &&& rot_sub_fits(c, m.m01, s, m.m11)
    &&& rot_sub_fits(c, m.m02, s, m.m12) &&& rot_sub_fits(c, m.m03, s, m.m13)
    &&& rot_add_fits(s, m.m00, c, m.m10) &&& rot_add_fits(s, m.m01, c, m.m11)
    &&& rot_add_fits(s, m.m02, c, m.m12) &&& rot_add_fits(s, m.m03, c, m.m13)
}

/// `Rz(c, s) * m`, the rotation about the z-axis:
/// row0' = c*row0 - s*row1, row1' = s*row0 + c*row1.
pub open spec fn spec_rot_z_mat(m: Mat4, c: Frac, s: Frac) -> Mat4 {
    Mat4 {
        m00: spec_rot_sub(c, m.m00, s, m.m10), m01: spec_rot_sub(c, m.m01, s, m.m11),
        m02: spec_rot_sub(c, m.m02, s, m.m12), m03: spec_rot_sub(c, m.m03, s, m.m13),
        m10: spec_rot_add(s, m.m00, c, m.m10), m11: spec_rot_add(s, m.m01, c, m.m11),
        m12: spec_rot_add(s, m.m02, c, m.m12), m13: spec_rot_add(s, m.m03, c, m.m13),
        m20: m.m20, m21: m.m21, m22: m.m22, m23: m.m23,
        m30: m.m30, m31: m.m31, m32: m.m32, m33: m.m33,
    }
}

impl Mat4 {
    /// The identity matrix.
    pub fn identity() -> (r: Mat4)
        ensures
            r == spec_identity(),
            r.wf(),
            r.affine(),
    {
        let z = Frac::zero();
        let o = Frac::one();
        Mat4 {
            m00: o, m01: z, m02: z, m03: z,
            m10: z, m11: o, m12: z, m13: z,
            m20: z, m21: z, m22: o, m23: z,
            m30: z, m31: z, m32: z, m33: o,
        }
    }

    /// Left-multiply by the non-uniform scale `diag(sx, sy, sz, 1)`.
    pub fn scaled(self, sx: Frac, sy: Frac, sz: Frac) -> (r: Mat4)
        requires
            self.wf(),
            sx.wf(),
            sy.wf(),
            sz.wf(),
            scale_fits(self, sx, sy, sz),
        ensures
            r == spec_scale_mat(self, sx, sy, sz),
            r.wf(),
            self.affine() ==> r.affine(),
    {
        Mat4 {
            m00: fmul(sx, self.m00), m01: fmul(sx, self.m01),
            m02: fmul(sx, self.m02), m03: fmul(sx, self.m03),
            m10: fmul(sy, self.m10), m11: fmul(sy, self.m11),
            m12: fmul(sy, self.m12), m13: fmul(sy, self.m13),
            m20: fmul(sz, self.m20), m21: fmul(sz, self.m21),
            m22: fmul(sz, self.m22), m23: fmul(sz, self.m23),
            m30: self.m30, m31: self.m31, m32: self.m32, m33: self.m33,
        }
    }

    /// Left-multiply by the translation taking the origin to `(tx, ty, tz)`.
    pub fn translated(self, tx: Frac, ty: Frac, tz: Frac) -> (r: Mat4)
        requires
            self.wf(),
            tx.wf(),
            ty.wf(),
            tz.wf(),
            translate_fits(self, tx, ty, tz),
        ensures
            r == spec_translate_mat(self, tx, ty, tz),
            r.wf(),
            self.affine() ==> r.affine(),
    {
        Mat4 {
            m00: fadd(self.m00, fmul(tx, self.m30)), m01: fadd(self.m01, fmul(tx, self.m31)),
            m02: fadd(self.m02, fmul(tx, self.m32)), m03: fadd(self.m03, fmul(tx, self.m33)),
            m10: fadd(self.m10, fmul(ty, self.m30)), m11: fadd(self.m11, fmul(ty, self.m31)),
            m12: fadd(self.m12, fmul(ty, self.m32)), m13: fadd(self.m13, fmul(ty, self.m33)),
            m20: fadd(self.m20, fmul(tz, self.m30)), m21: fadd(self.m21, fmul(tz, self.m31)),
            m22: fadd(self.m22, fmul(tz, self.m32)), m23: fadd(self.m23, fmul(tz, self.m33)),
            m30: self.m30, m31: self.m31, m32: self.m32, m33: self.m33,
        }
    }

    /// Left-multiply by the rotation about the x-axis whose angle has cosine
    /// `c` and sine `s`.
    pub fn rotated_x(self, c: Frac, s: Frac) -> (r: Mat4)
        requires
            self.wf(),
            c.wf(),
            s.wf(),
            rot_x_fits(self, c, s),
        ensures
            r == spec_rot_x_mat(self, c, s),
            r.wf(),
            self.affine() ==> r.affine(),
    {
        Mat4 {
            m00: self.m00, m01: self.m01, m02: self.m02, m03: self.m03,
            m10: fsub(fmul(c, self.m10), fmul(s, self.m20)),
            m11: fsub(fmul(c, self.m11), fmul(s, self.m21)),
            m12: fsub(fmul(c, self.m12), fmul(s, self.m22)),
            m13: fsub(fmul(c, self.m13), fmul(s, self.m23)),
            m20: fadd(fmul(s, self.m10), fmul(c, self.m20)),
            m21: fadd(fmul(s, self.m11), fmul(c, self.m21)),
            m22: fadd(fmul(s, self.m12), fmul(c, self.m22)),
            m23: fadd(fmul(s, self.m13), fmul(c, self.m23)),
            m30: self.m30, m31: self.m31, m32: self.m32, m33: self.m33,
        }
    }

    /// Left-multiply by the rotation about the y-axis whose angle has cosine
    /// `c` and sine `s`.
    pub fn rotated_y(self, c: Frac, s: Frac) -> (r: Mat4)
        requires
            self.wf(),
            c.wf(),
            s.wf(),
            rot_y_fits(self, c, s),
        ensures
            r == spec_rot_y_mat(self, c, s),
            r.wf(),
            self.affine() ==> r.affine(),
    {
        Mat4 {
            m00: fadd(fmul(s, self.m20), fmul(c, self.m00)),
            m01: fadd(fmul(s, self.m21), fmul(c, self.m01)),
            m02: fadd(fmul(s, self.m22), fmul(c, self.m02)),
            m03: fadd(fmul(s, self.m23), fmul(c, self.m03)),
            m10: self.m10, m11: self.m11, m12: self.m12, m13: self.m13,
            m20: fsub(fmul(c, self.m20), fmul(s, self.m00)),
            m21: fsub(fmul(c, self.m21), fmul(s, self.m01)),
            m22: fsub(fmul(c, self.m22), fmul(s, self.m02)),
            m23: fsub(fmul(c, self.m23), fmul(s, self.m03)),
            m30: self.m30, m31: self.m31, m32: self.m32, m33: self.m33,
        }
    }

    /// Left-multiply by the rotation about the z-axis whose angle has cosine
    /// `c` and sine `s`.
    pub fn rotated_z(self, c: Frac, s: Frac) -> (r: Mat4)
        requires
            self.wf(),
            c.wf(),
            s.wf(),
            rot_z_fits(self, c, s),
        ensures
            r == spec_rot_z_mat(self, c, s),
            r.wf(),
            self.affine() ==> r.affine(),
    {
        Mat4 {
            m00: fsub(fmul(c, self.m00), fmul(s, self.m10)),
            m01: fsub(fmul(c, self.m01), fmul(s, self.m11)),
            m02: fsub(fmul(c, self.m02), fmul(s, self.m12)),
            m03: fsub(fmul(c, self.m03), fmul(s, self.m13)),
            m10: fadd(fmul(s, self.m00), fmul(c, self.m10)),
            m11: fadd(fmul(s, self.m01), fmul(c, self.m11)),
            m12: fadd(fmul(s, self.m02), fmul(c, self.m12)),
            m13: fadd(fmul(s, self.m03), fmul(c, self.m13)),
            m20: self.m20, m21: self.m21, m22: self.m22, m23: self.m23,
            m30: self.m30, m31: self.m31, m32: self.m32, m33: self.m33,
        }
    }
}

} // verus!
