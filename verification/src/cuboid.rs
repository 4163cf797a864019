//! Construction of cuboid meshes.
//!
//! A `CuboidBuilder` starts from the identity transform and accumulates
//! scale, translation and rotation operations; `build_vertices` then emits
//! the 36 vertices (6 faces, 2 counter-clockwise triangles each) of a unit
//! cube centred at the origin, carried through the accumulated transform:
//!
//! - positions go through the full homogeneous transform and are divided by
//!   the homogeneous coordinate;
//! - each face's outward direction is the axis-aligned local face normal
//!   carried through the inverse-transpose of the linear 3x3 part (exact
//!   cofactors over the determinant), which keeps it perpendicular to the
//!   face under non-uniform scale; a singular linear part falls back to the
//!   identity normal transform instead of failing. Directions are exact and
//!   not scaled to unit length: unit scaling is irrational in general and
//!   belongs to the inexact rendering layer.
//! - texture coordinates come from each vertex's place within its quad,
//!   spanning {0,1} x {0,1} on every face.

use vstd::arithmetic::div_mod::lemma_fundamental_div_mod_converse;
use vstd::prelude::*;
use crate::frac::{
    Frac, add_fits, div_fits, fadd, fdiv, fmul, fneg, fsub, mul_fits, neg_fits, spec_add,
    spec_div, spec_mul, spec_neg, spec_sub, sub_fits,
};
use crate::mat::{
    Mat4, rot_x_fits, rot_y_fits, rot_z_fits, scale_fits, spec_identity, spec_rot_x_mat,
    spec_rot_y_mat, spec_rot_z_mat, spec_scale_mat, spec_translate_mat, translate_fits,
};

verus! {

/// A vector of three exact rational components.
#[derive(Clone, Copy, PartialEq, Eq, Structural, Debug)]
pub struct Vec3 {
    pub x: Frac,
    pub y: Frac,
    pub z: Frac,
}

impl Vec3 {
    /// Every component is a well-formed rational.
    pub open spec fn wf(self) -> bool {
        self.x.wf() && self.y.wf() && self.z.wf()
    }
}

/// A texture coordinate of two exact rational components.
#[derive(Clone, Copy, PartialEq, Eq, Structural, Debug)]
pub struct Tex2 {
    pub u: Frac,
    pub v: Frac,
}

/// One generated vertex: a transformed position, the exact outward direction
/// of its face, and its planar texture coordinate.
#[derive(Clone, Copy, PartialEq, Eq, Structural, Debug)]
pub struct Vertex {
    pub position: Vec3,
    pub normal: Vec3,
    pub texcoord: Tex2,
}

/// The error a terminal build operation can surface. Vertex generation
/// itself never fails; only a resource-allocating collaborator around this
/// library can, and its rejection is reported through this type.
#[derive(Clone, Copy, PartialEq, Eq, Structural, Debug)]
pub enum ShapeCreationError {
    ResourceCreation,
}

/// Which of a quad's four corners the `v`-th vertex of a face uses: the two
/// triangles of each face take corners 0,1,2 and 2,1,3.
pub open spec fn poly_of(v: int) -> int {
    if v == 0 {
        0
    } else if v == 1 {
        1
    } else if v == 2 {
        2
    } else if v == 3 {
        2
    } else if v == 4 {
        1
    } else {
        3
    }
}

/// The cube-corner code (0..8) of corner `p` of face `side`. Faces come in
/// the order -X, +X, -Y, +Y, -Z, +Z; corner codes encode the y sign in bit
/// 0, the x sign in bit 1 and the z sign in bit 2. The orderings make every
/// triangle counter-clockwise seen from outside the untransformed cube.
pub open spec fn corner_of(side: int, p: int) -> int {
    if side == 0 {
        if p == 0 { 0 } else if p == 1 { 4 } else if p == 2 { 1 } else { 5 }
    } else if side == 1 {
        if p == 0 { 6 } else if p == 1 { 2 } else if p == 2 { 7 } else { 3 }
    } else if side == 2 {
        if p == 0 { 0 } else if p == 1 { 2 } else if p == 2 { 4 } else { 6 }
    } else if side == 3 {
        if p == 0 { 5 } else if p == 1 { 7 } else if p == 2 { 1 } else { 3 }
    } else if side == 4 {
        if p == 0 { 2 } else if p == 1 { 0 } else if p == 2 { 3 } else { 1 }
    } else {
        if p == 0 { 4 } else if p == 1 { 6 } else if p == 2 { 5 } else { 7 }
    }
}

/// The cube-corner code of the `vert`-th vertex of face `side`.
pub open spec fn spec_corner_code(side: int, vert: int) -> int {
    corner_of(side, poly_of(vert))
}

/// The local position of cube corner `c`: each component is one half, with
/// the sign drawn from the corner code's bits.
pub open spec fn spec_local(c: int) -> Vec3 {
    Vec3 {
        x: Frac { num: if (c / 2) % 2 == 1 { 1i64 } else { -1i64 }, den: 2 },
        y: Frac { num: if c % 2 == 1 { 1i64 } else { -1i64 }, den: 2 },
        z: Frac { num: if c / 4 == 1 { 1i64 } else { -1i64 }, den: 2 },
    }
}

/// Every operation in `a0*l.x + a1*l.y + a2*l.z + a3` fits.
pub open spec fn dot_row_fits(a0: Frac, a1: Frac, a2: Frac, a3: Frac, l: Vec3) -> bool {
    &&& mul_fits(a0, l.x)
    &&& mul_fits(a1, l.y)
    &&& mul_fits(a2, l.z)
    &&& add_fits(spec_mul(a0, l.x), spec_mul(a1, l.y))
    &&& add_fits(spec_add(spec_mul(a0, l.x), spec_mul(a1, l.y)), spec_mul(a2, l.z))
    &&& add_fits(
        spec_add(spec_add(spec_mul(a0, l.x), spec_mul(a1, l.y)), spec_mul(a2, l.z)),
        a3,
    )
}

/// One row of the homogeneous transform applied to the local point `l` with
/// homogeneous coordinate 1: `a0*l.x + a1*l.y + a2*l.z + a3`.
pub open spec fn spec_dot_row(a0: Frac, a1: Frac, a2: Frac, a3: Frac, l: Vec3) -> Frac {
    spec_add(spec_add(spec_add(spec_mul(a0, l.x), spec_mul(a1, l.y)), spec_mul(a2, l.z)), a3)
}

/// The homogeneous coordinate of `l` transformed by `m`.
pub open spec fn spec_w(m: Mat4, l: Vec3) -> Frac {
    spec_dot_row(m.m30, m.m31, m.m32, m.m33, l)
}

/// Every operation in transforming the local point `l` by `m` — four row
/// products and the division by the homogeneous coordinate — fits, and the
/// homogeneous coordinate is non-zero.
pub open spec fn transform_fits(m: Mat4, l: Vec3) -> bool {
    &&& dot_row_fits(m.m00, m.m01, m.m02, m.m03, l)
    &&& dot_row_fits(m.m10, m.m11, m.m12, m.m13, l)
    &&& dot_row_fits(m.m20, m.m21, m.m22, m.m23, l)
    &&& dot_row_fits(m.m30, m.m31, m.m32, m.m33, l)
    &&& !spec_w(m, l).is_zero()
    &&& div_fits(spec_dot_row(m.m00, m.m01, m.m02, m.m03, l), spec_w(m, l))
    &&& div_fits(spec_dot_row(m.m10, m.m11, m.m12, m.m13, l), spec_w(m, l))
    &&& div_fits(spec_dot_row(m.m20, m.m21, m.m22, m.m23, l), spec_w(m, l))
}

/// The local point `l` carried through the full homogeneous transform `m`
/// and divided by the homogeneous coordinate.
pub open spec fn spec_position(m: Mat4, l: Vec3) -> Vec3 {
    Vec3 {
        x: spec_div(spec_dot_row(m.m00, m.m01, m.m02, m.m03, l), spec_w(m, l)),
        y: spec_div(spec_dot_row(m.m10, m.m11, m.m12, m.m13, l), spec_w(m, l)),
        z: spec_div(spec_dot_row(m.m20, m.m21, m.m22, m.m23, l), spec_w(m, l)),
    }
}

/// Every operation in the 2x2 determinant `p*q - r*s` fits.
pub open spec fn minor_fits(p: Frac, q: Frac, r: Frac, s: Frac) -> bool {
    mul_fits(p, q) && mul_fits(r, s) && sub_fits(spec_mul(p, q), spec_mul(r, s))
}

/// The 2x2 determinant `p*q - r*s`.
pub open spec fn spec_minor(p: Frac, q: Frac, r: Frac, s: Frac) -> Frac {
    spec_sub(spec_mul(p, q), spec_mul(r, s))
}

/// Every operation in the determinant of the linear 3x3 part of `m` fits.
pub open spec fn det_fits(m: Mat4) -> bool {
    &&& minor_fits(m.m11, m.m22, m.m12, m.m21)
    &&& minor_fits(m.m10, m.m22, m.m12, m.m20)
    &&& minor_fits(m.m10, m.m21, m.m11, m.m20)
    &&& mul_fits(m.m00, spec_minor(m.m11, m.m22, m.m12, m.m21))
    &&& mul_fits(m.m01, spec_minor(m.m10, m.m22, m.m12, m.m20))
    &&& mul_fits(m.m02, spec_minor(m.m10, m.m21, m.m11, m.m20))
    &&& sub_fits(
        spec_mul(m.m00, spec_minor(m.m11, m.m22, m.m12, m.m21)),
        spec_mul(m.m01, spec_minor(m.m10, m.m22, m.m12, m.m20)),
    )
    &&& add_fits(
        spec_sub(
            spec_mul(m.m00, spec_minor(m.m11, m.m22, m.m12, m.m21)),
            spec_mul(m.m01, spec_minor(m.m10, m.m22, m.m12, m.m20)),
        ),
        spec_mul(m.m02, spec_minor(m.m10, m.m21, m.m11, m.m20)),
    )
}

/// The determinant of the linear 3x3 part of `m`, by expansion along the
/// first row.
pub open spec fn spec_det3(m: Mat4) -> Frac {
    spec_add(
        spec_sub(
            spec_mul(m.m00, spec_minor(m.m11, m.m22, m.m12, m.m21)),
            spec_mul(m.m01, spec_minor(m.m10, m.m22, m.m12, m.m20)),
        ),
        spec_mul(m.m02, spec_minor(m.m10, m.m21, m.m11, m.m20)),
    )
}

/// The cofactor of entry (row `j`, column `a`) of the linear 3x3 part.
pub open spec fn spec_cof(m: Mat4, j: int, a: int) -> Frac {
    if j == 0 {
        if a == 0 {
            spec_minor(m.m11, m.m22, m.m12, m.m21)
        } else if a == 1 {
            spec_neg(spec_minor(m.m10, m.m22, m.m12, m.m20))
        } else {
            spec_minor(m.m10, m.m21, m.m11, m.m20)
        }
    } else if j == 1 {
        if a == 0 {
            spec_neg(spec_minor(m.m01, m.m22, m.m02, m.m21))
        } else if a == 1 {
            spec_minor(m.m00, m.m22, m.m02, m.m20)
        } else {
            spec_neg(spec_minor(m.m00, m.m21, m.m01, m.m20))
        }
    } else {
        if a == 0 {
            spec_minor(m.m01, m.m12, m.m02, m.m11)
        } else if a == 1 {
            spec_neg(spec_minor(m.m00, m.m12, m.m02, m.m10))
        } else {
            spec_minor(m.m00, m.m11, m.m01, m.m10)
        }
    }
}

/// Every operation in the cofactor at (row `j`, column `a`) fits.
pub open spec fn cof_fits(m: Mat4, j: int, a: int) -> bool {
    if j == 0 {
        if a == 0 {
            minor_fits(m.m11, m.m22, m.m12, m.m21)
        } else if a == 1 {
            minor_fits(m.m10, m.m22, m.m12, m.m20) && neg_fits(
                spec_minor(m.m10, m.m22, m.m12, m.m20),
            )
        } else {
            minor_fits(m.m10, m.m21, m.m11, m.m20)
        }
    } else if j == 1 {
        if a == 0 {
            minor_fits(m.m01, m.m22, m.m02, m.m21) && neg_fits(
                spec_minor(m.m01, m.m22, m.m02, m.m21),
            )
        } else if a == 1 {
            minor_fits(m.m00, m.m22, m.m02, m.m20)
        } else {
            minor_fits(m.m00, m.m21, m.m01, m.m20) && neg_fits(
                spec_minor(m.m00, m.m21, m.m01, m.m20),
            )
        }
    } else {
        if a == 0 {
            minor_fits(m.m01, m.m12, m.m02, m.m11)
        } else if a == 1 {
            minor_fits(m.m00, m.m12, m.m02, m.m10) && neg_fits(
                spec_minor(m.m00, m.m12, m.m02, m.m10),
            )
        } else {
            minor_fits(m.m00, m.m11, m.m01, m.m10)
        }
    }
}

/// Every operation in the direction of a face on axis `a` fits: the three
/// cofactors, their divisions by the determinant, and the negation that a
/// negatively-signed face applies.
pub open spec fn axis_normal_fits(m: Mat4, a: int) -> bool {
    &&& cof_fits(m, 0, a)
    &&& cof_fits(m, 1, a)
    &&& cof_fits(m, 2, a)
    &&& div_fits(spec_cof(m, 0, a), spec_det3(m))
    &&& div_fits(spec_cof(m, 1, a), spec_det3(m))
    &&& div_fits(spec_cof(m, 2, a), spec_det3(m))
    &&& neg_fits(spec_div(spec_cof(m, 0, a), spec_det3(m)))
    &&& neg_fits(spec_div(spec_cof(m, 1, a), spec_det3(m)))
    &&& neg_fits(spec_div(spec_cof(m, 2, a), spec_det3(m)))
}

/// Every operation in every face direction fits: the determinant, and — when
/// the linear part is invertible — the per-axis cofactor work.
pub open spec fn normal_fits(m: Mat4) -> bool {
    &&& det_fits(m)
    &&& !spec_det3(m).is_zero() ==> {
        &&& axis_normal_fits(m, 0)
        &&& axis_normal_fits(m, 1)
        &&& axis_normal_fits(m, 2)
    }
}

/// `f` if the face points along the positive axis, `-f` otherwise.
pub open spec fn spec_signed(pos: bool, f: Frac) -> Frac {
    if pos {
        f
    } else {
        spec_neg(f)
    }
}

/// The axis-aligned unit direction of face axis `a` with the given sign.
pub open spec fn spec_axis_unit(a: int, pos: bool) -> Vec3 {
    Vec3 {
        x: Frac { num: if a == 0 { if pos { 1i64 } else { -1i64 } } else { 0i64 }, den: 1 },
        y: Frac { num: if a == 1 { if pos { 1i64 } else { -1i64 } } else { 0i64 }, den: 1 },
        z: Frac { num: if a == 2 { if pos { 1i64 } else { -1i64 } } else { 0i64 }, den: 1 },
    }
}

/// The exact outward direction of face `side` under `m`: the local face
/// normal carried through the inverse-transpose of the linear 3x3 part
/// (column of cofactors over the determinant); the identity transform is
/// substituted when the linear part is singular.
pub open spec fn spec_normal(m: Mat4, side: int) -> Vec3 {
    let a = side / 2;
    let pos = side % 2 == 1;
    if spec_det3(m).is_zero() {
        spec_axis_unit(a, pos)
    } else {
        Vec3 {
            x: spec_signed(pos, spec_div(spec_cof(m, 0, a), spec_det3(m))),
            y: spec_signed(pos, spec_div(spec_cof(m, 1, a), spec_det3(m))),
            z: spec_signed(pos, spec_div(spec_cof(m, 2, a), spec_det3(m))),
        }
    }
}

/// The texture coordinate of the `vert`-th vertex of any face: its corner's
/// place within the quad, on the grid {0,1} x {0,1}.
pub open spec fn spec_tex(vert: int) -> Tex2 {
    Tex2 {
        u: Frac { num: (poly_of(vert) % 2) as i64, den: 1 },
        v: Frac { num: (poly_of(vert) / 2) as i64, den: 1 },
    }
}

/// The `k`-th generated vertex (0 <= k < 36) for the accumulated matrix `m`.
pub open spec fn vertex_model(m: Mat4, k: int) -> Vertex {
    Vertex {
        position: spec_position(m, spec_local(spec_corner_code(k / 6, k % 6))),
        normal: spec_normal(m, k / 6),
        texcoord: spec_tex(k % 6),
    }
}

/// Every operation of vertex generation under `m` fits the representation.
pub open spec fn gen_fits(m: Mat4) -> bool {
    &&& normal_fits(m)
    &&& forall|c: int| 0 <= c < 8 ==> transform_fits(m, #[trigger] spec_local(c))
}

/// The quad corner used by the `vert`-th vertex of a face.
fn poly_index(vert: usize) -> (p: usize)
    requires
        vert < 6,
    ensures
        p == poly_of(vert as int),
        p < 4,
{
    if vert == 0 {
        0
    } else if vert == 1 {
        1
    } else if vert == 2 {
        2
    } else if vert == 3 {
        2
    } else if vert == 4 {
        1
    } else {
        3
    }
}

/// The cube-corner code of the `vert`-th vertex of face `side`.
fn corner_code(side: usize, vert: usize) -> (c: usize)
    requires
        side < 6,
        vert < 6,
    ensures
        c == spec_corner_code(side as int, vert as int),
        c < 8,
{
    let p = poly_index(vert);
    if side == 0 {
        if p == 0 { 0 } else if p == 1 { 4 } else if p == 2 { 1 } else { 5 }
    } else if side == 1 {
        if p == 0 { 6 } else if p == 1 { 2 } else if p == 2 { 7 } else { 3 }
    } else if side == 2 {
        if p == 0 { 0 } else if p == 1 { 2 } else if p == 2 { 4 } else { 6 }
    } else if side == 3 {
        if p == 0 { 5 } else if p == 1 { 7 } else if p == 2 { 1 } else { 3 }
    } else if side == 4 {
        if p == 0 { 2 } else if p == 1 { 0 } else if p == 2 { 3 } else { 1 }
    } else {
        if p == 0 { 4 } else if p == 1 { 6 } else if p == 2 { 5 } else { 7 }
    }
}

/// The local position of cube corner `c`.
fn local_coord(c: usize) -> (l: Vec3)
    requires
        c < 8,
    ensures
        l == spec_local(c as int),
        l.wf(),
{
    let xs: i64 = if (c / 2) % 2 == 1 { 1 } else { -1 };
    let ys: i64 = if c % 2 == 1 { 1 } else { -1 };
    let zs: i64 = if c / 4 == 1 { 1 } else { -1 };
    Vec3 {
        x: Frac { num: xs, den: 2 },
        y: Frac { num: ys, den: 2 },
        z: Frac { num: zs, den: 2 },
    }
}

/// One row of the homogeneous transform applied to `l`.
fn dot_row(a0: Frac, a1: Frac, a2: Frac, a3: Frac, l: Vec3) -> (r: Frac)
    requires
        a0.wf(),
        a1.wf(),
        a2.wf(),
        a3.wf(),
        l.wf(),
        dot_row_fits(a0, a1, a2, a3, l),
    ensures
        r == spec_dot_row(a0, a1, a2, a3, l),
        r.wf(),
{
    fadd(fadd(fadd(fmul(a0, l.x), fmul(a1, l.y)), fmul(a2, l.z)), a3)
}

/// The local point `l` transformed by `m` and divided by its homogeneous
/// coordinate.
fn transform_point(m: &Mat4, l: Vec3) -> (r: Vec3)
    requires
        m.wf(),
        l.wf(),
        transform_fits(*m, l),
    ensures
        r == spec_position(*m, l),
        r.wf(),
{
    let w = dot_row(m.m30, m.m31, m.m32, m.m33, l);
    Vec3 {
        x: fdiv(dot_row(m.m00, m.m01, m.m02, m.m03, l), w),
        y: fdiv(dot_row(m.m10, m.m11, m.m12, m.m13, l), w),
        z: fdiv(dot_row(m.m20, m.m21, m.m22, m.m23, l), w),
    }
}

/// The 2x2 determinant `p*q - r*s`.
fn minor2(p: Frac, q: Frac, r: Frac, s: Frac) -> (d: Frac)
    requires
        p.wf(),
        q.wf(),
        r.wf(),
        s.wf(),
        minor_fits(p, q, r, s),
    ensures
        d == spec_minor(p, q, r, s),
        d.wf(),
{
    fsub(fmul(p, q), fmul(r, s))
}

/// The determinant of the linear 3x3 part of `m`.
fn det3(m: &Mat4) -> (d: Frac)
    requires
        m.wf(),
        det_fits(*m),
    ensures
        d == spec_det3(*m),
        d.wf(),
{
    let d0 = minor2(m.m11, m.m22, m.m12, m.m21);
    let d1 = minor2(m.m10, m.m22, m.m12, m.m20);
    let d2 = minor2(m.m10, m.m21, m.m11, m.m20);
    fadd(fsub(fmul(m.m00, d0), fmul(m.m01, d1)), fmul(m.m02, d2))
}

/// The cofactor of entry (row `j`, column `a`) of the linear 3x3 part.
fn cof3(m: &Mat4, j: usize, a: usize) -> (c: Frac)
    requires
        m.wf(),
        j < 3,
        a < 3,
        cof_fits(*m, j as int, a as int),
    ensures
        c == spec_cof(*m, j as int, a as int),
        c.wf(),
{
    if j == 0 {
        if a == 0 {
            minor2(m.m11, m.m22, m.m12, m.m21)
        } else if a == 1 {
            fneg(minor2(m.m10, m.m22, m.m12, m.m20))
        } else {
            minor2(m.m10, m.m21, m.m11, m.m20)
        }
    } else if j == 1 {
        if a == 0 {
            fneg(minor2(m.m01, m.m22, m.m02, m.m21))
        } else if a == 1 {
            minor2(m.m00, m.m22, m.m02, m.m20)
        } else {
            fneg(minor2(m.m00, m.m21, m.m01, m.m20))
        }
    } else {
        if a == 0 {
            minor2(m.m01, m.m12, m.m02, m.m11)
        } else if a == 1 {
            fneg(minor2(m.m00, m.m12, m.m02, m.m10))
        } else {
            minor2(m.m00, m.m11, m.m01, m.m10)
        }
    }
}

/// The exact outward direction of face `side` under `m`; `det` is the
/// already-computed determinant of the linear 3x3 part.
fn face_normal(m: &Mat4, side: usize, det: Frac) -> (n: Vec3)
    requires
        m.wf(),
        side < 6,
        det.wf(),
        det == spec_det3(*m),
        normal_fits(*m),
    ensures
        n == spec_normal(*m, side as int),
        n.wf(),
{
    let axis = side / 2;
    let pos = side % 2 == 1;
    if det.num == 0 {
        let sg: i64 = if pos { 1 } else { -1 };
        Vec3 {
            x: Frac { num: if axis == 0 { sg } else { 0 }, den: 1 },
            y: Frac { num: if axis == 1 { sg } else { 0 }, den: 1 },
            z: Frac { num: if axis == 2 { sg } else { 0 }, den: 1 },
        }
    } else {
        proof {
            assert(!spec_det3(*m).is_zero());
            assert(axis_normal_fits(*m, axis as int));
        }
        let qx = fdiv(cof3(m, 0, axis), det);
        let qy = fdiv(cof3(m, 1, axis), det);
        let qz = fdiv(cof3(m, 2, axis), det);
        if pos {
            Vec3 { x: qx, y: qy, z: qz }
        } else {
            Vec3 { x: fneg(qx), y: fneg(qy), z: fneg(qz) }
        }
    }
}

/// The texture coordinate of the `vert`-th vertex of a face.
fn tex_coord(vert: usize) -> (t: Tex2)
    requires
        vert < 6,
    ensures
        t == spec_tex(vert as int),
{
    let p = poly_index(vert);
    Tex2 {
        u: Frac { num: (p % 2) as i64, den: 1 },
        v: Frac { num: (p / 2) as i64, den: 1 },
    }
}

/// Builds a cuboid's vertex sequence.
///
/// By default the cuboid is a unit cube with its centre of mass at the
/// origin; the transformation methods override that. Each method consumes
/// the builder and returns the updated one; operations accumulate by
/// left-multiplication and are therefore not commutative. The geometry suits
/// a right-handed convention: front faces wind counter-clockwise, vertex
/// directions point along their face (faceted shading), and texture
/// coordinates give a planar projection on each face.
#[derive(Clone, Copy, PartialEq, Eq, Structural, Debug)]
pub struct CuboidBuilder {
    pub matrix: Mat4,
}

impl CuboidBuilder {
    /// The accumulated matrix is well-formed and affine.
    pub open spec fn wf(self) -> bool {
        self.matrix.wf() && self.matrix.affine()
    }
}

impl Default for CuboidBuilder {
    fn default() -> (r: Self)
        ensures
            r.matrix == spec_identity(),
            r.wf(),
    {
        CuboidBuilder { matrix: Mat4::identity() }
    }
}

impl CuboidBuilder {
    /// Create a builder holding the identity transform.
    pub fn new() -> (r: CuboidBuilder)
        ensures
            r.matrix == spec_identity(),
            r.wf(),
    {
        CuboidBuilder { matrix: Mat4::identity() }
    }

    /// Accumulate a non-uniform scale by factors `x`, `y`, `z`.
    pub fn scale(self, x: Frac, y: Frac, z: Frac) -> (r: Self)
        requires
            self.wf(),
            x.wf(),
            y.wf(),
            z.wf(),
            scale_fits(self.matrix, x, y, z),
        ensures
            r.matrix == spec_scale_mat(self.matrix, x, y, z),
            r.wf(),
    {
        CuboidBuilder { matrix: self.matrix.scaled(x, y, z) }
    }

    /// Accumulate a translation by `(x, y, z)`.
    pub fn translate(self, x: Frac, y: Frac, z: Frac) -> (r: Self)
        requires
            self.wf(),
            x.wf(),
            y.wf(),
            z.wf(),
            translate_fits(self.matrix, x, y, z),
        ensures
            r.matrix == spec_translate_mat(self.matrix, x, y, z),
            r.wf(),
    {
        CuboidBuilder { matrix: self.matrix.translated(x, y, z) }
    }

    /// Accumulate a rotation about the x-axis whose angle has cosine `c` and
    /// sine `s` (exact arithmetic cannot evaluate the trigonometry itself;
    /// the caller supplies the pair).
    pub fn rotate_x(self, c: Frac, s: Frac) -> (r: Self)
        requires
            self.wf(),
            c.wf(),
            s.wf(),
            rot_x_fits(self.matrix, c, s),
        ensures
            r.matrix == spec_rot_x_mat(self.matrix, c, s),
            r.wf(),
    {
        CuboidBuilder { matrix: self.matrix.rotated_x(c, s) }
    }

    /// Accumulate a rotation about the y-axis whose angle has cosine `c` and
    /// sine `s`.
    pub fn rotate_y(self, c: Frac, s: Frac) -> (r: Self)
        requires
            self.wf(),
            c.wf(),
            s.wf(),
            rot_y_fits(self.matrix, c, s),
        ensures
            r.matrix == spec_rot_y_mat(self.matrix, c, s),
            r.wf(),
    {
        CuboidBuilder { matrix: self.matrix.rotated_y(c, s) }
    }

    /// Accumulate a rotation about the z-axis whose angle has cosine `c` and
    /// sine `s`.
    pub fn rotate_z(self, c: Frac, s: Frac) -> (r: Self)
        requires
            self.wf(),
            c.wf(),
            s.wf(),
            rot_z_fits(self.matrix, c, s),
        ensures
            r.matrix == spec_rot_z_mat(self.matrix, c, s),
            r.wf(),
    {
        CuboidBuilder { matrix: self.matrix.rotated_z(c, s) }
    }

    /// Build the shape's vertices and return them in a vector: 36 vertices,
    /// two counter-clockwise triangles for each of the six faces, each
    /// vertex exactly the one the accumulated matrix determines. Generation
    /// itself cannot fail; the `Result` mirrors the terminal build
    /// operations around this library, which can.
    pub fn build_vertices(&self) -> (r: Result<Vec<Vertex>, ShapeCreationError>)
        requires
            self.wf(),
            gen_fits(self.matrix),
        ensures
            match r {
                Ok(vs) => vs@.len() == 36 && forall|k: int|
                    0 <= k < 36 ==> vs@[k] == vertex_model(self.matrix, k),
                Err(_) => false,
            },
    {
        let m = self.matrix;
        let det = det3(&m);
        let mut vertices: Vec<Vertex> = Vec::new();
        let mut side: usize = 0;
        while side < 6
            invariant
                side <= 6,
                m == self.matrix,
                m.wf(),
                gen_fits(m),
                det.wf(),
                det == spec_det3(m),
                vertices@.len() == side * 6,
                forall|k: int| 0 <= k < side * 6 ==> vertices@[k] == vertex_model(m, k),
            decreases 6 - side,
        {
            let normal = face_normal(&m, side, det);
            let mut vert: usize = 0;
            while vert < 6
                invariant
                    side < 6,
                    vert <= 6,
                    m == self.matrix,
                    m.wf(),
                    gen_fits(m),
                    det.wf(),
                    det == spec_det3(m),
                    normal == spec_normal(m, side as int),
                    vertices@.len() == side * 6 + vert,
                    forall|k: int|
                        0 <= k < side * 6 + vert ==> vertices@[k] == vertex_model(m, k),
                decreases 6 - vert,
            {
                let c = corner_code(side, vert);
                let l = local_coord(c);
                let position = transform_point(&m, l);
                let texcoord = tex_coord(vert);
                let v = Vertex { position, normal, texcoord };
                proof {
                    lemma_fundamental_div_mod_converse(
                        side as int * 6 + vert as int,
                        6,
                        side as int,
                        vert as int,
                    );
                }
                assert(v == vertex_model(m, side as int * 6 + vert as int));
                vertices.push(v);
                vert = vert + 1;
            }
            side = side + 1;
        }
        Ok(vertices)
    }
}

} // verus!
