//! Laws of the generated geometry, stated over the same model the
//! generation contract uses: `vertex_model(m, k)` is the `k`-th vertex that
//! `build_vertices` returns for an accumulated matrix `m`.

use vstd::arithmetic::div_mod::{
    lemma_fundamental_div_mod, lemma_fundamental_div_mod_converse, lemma_mod_bound,
};
use vstd::prelude::*;
use crate::cuboid::{
    spec_corner_code, spec_dot_row, spec_local, spec_normal, spec_position, vertex_model, Tex2,
    Vec3, Vertex,
};
use crate::frac::{
    lemma_add_eval, lemma_div_eval, lemma_mul_eval, lemma_sub_eval, spec_abs, spec_add,
    spec_div, spec_mul, spec_neg, spec_one, spec_zero, Frac,
};
use crate::mat::{spec_identity, spec_scale_mat, spec_translate_mat, Mat4};

verus! {

/// The position of cube corner `c` under the identity transform, written
/// out: the homogeneous pipeline leaves each component at half a unit, with
/// the sign drawn from the corner code.
pub open spec fn identity_position(c: int) -> Vec3 {
    Vec3 {
        x: Frac { num: if (c / 2) % 2 == 1 { 32i64 } else { -32i64 }, den: 64 },
        y: Frac { num: if c % 2 == 1 { 32i64 } else { -32i64 }, den: 64 },
        z: Frac { num: if c / 4 == 1 { 32i64 } else { -32i64 }, den: 64 },
    }
}

/// Evaluates one row of the identity transform against a corner point whose
/// components are half-units: the row that selects `x`.
proof fn lemma_ident_dot_x(l: Vec3)
    requires
        l.x.den == 2,
        l.y.den == 2,
        l.z.den == 2,
        l.x.num == 1 || l.x.num == -1,
        l.y.num == 1 || l.y.num == -1,
        l.z.num == 1 || l.z.num == -1,
    ensures
        spec_dot_row(spec_one(), spec_zero(), spec_zero(), spec_zero(), l) == (Frac {
            num: (4 * l.x.num) as i64,
            den: 8,
        }),
{
    let p0 = spec_mul(spec_one(), l.x);
    let p1 = spec_mul(spec_zero(), l.y);
    let p2 = spec_mul(spec_zero(), l.z);
    lemma_mul_eval(spec_zero(), l.y, 0, 1, l.y.num as int, 2);
    lemma_mul_eval(spec_zero(), l.z, 0, 1, l.z.num as int, 2);
    if l.x.num == 1 {
        lemma_mul_eval(spec_one(), l.x, 1, 1, 1, 2);
        lemma_add_eval(p0, p1, 1, 2, 0, 2);
        lemma_add_eval(spec_add(p0, p1), p2, 2, 4, 0, 2);
        lemma_add_eval(spec_add(spec_add(p0, p1), p2), spec_zero(), 4, 8, 0, 1);
    } else {
        lemma_mul_eval(spec_one(), l.x, 1, 1, -1, 2);
        lemma_add_eval(p0, p1, -1, 2, 0, 2);
        lemma_add_eval(spec_add(p0, p1), p2, -2, 4, 0, 2);
        lemma_add_eval(spec_add(spec_add(p0, p1), p2), spec_zero(), -4, 8, 0, 1);
    }
}

/// As `lemma_ident_dot_x`, for the row that selects `y`.
proof fn lemma_ident_dot_y(l: Vec3)
    requires
        l.x.den == 2,
        l.y.den == 2,
        l.z.den == 2,
        l.x.num == 1 || l.x.num == -1,
        l.y.num == 1 || l.y.num == -1,
        l.z.num == 1 || l.z.num == -1,
    ensures
        spec_dot_row(spec_zero(), spec_one(), spec_zero(), spec_zero(), l) == (Frac {
            num: (4 * l.y.num) as i64,
            den: 8,
        }),
{
    let p0 = spec_mul(spec_zero(), l.x);
    let p1 = spec_mul(spec_one(), l.y);
    let p2 = spec_mul(spec_zero(), l.z);
    lemma_mul_eval(spec_zero(), l.x, 0, 1, l.x.num as int, 2);
    lemma_mul_eval(spec_zero(), l.z, 0, 1, l.z.num as int, 2);
    if l.y.num == 1 {
        lemma_mul_eval(spec_one(), l.y, 1, 1, 1, 2);
        lemma_add_eval(p0, p1, 0, 2, 1, 2);
        lemma_add_eval(spec_add(p0, p1), p2, 2, 4, 0, 2);
        lemma_add_eval(spec_add(spec_add(p0, p1), p2), spec_zero(), 4, 8, 0, 1);
    } else {
        lemma_mul_eval(spec_one(), l.y, 1, 1, -1, 2);
        lemma_add_eval(p0, p1, 0, 2, -1, 2);
        lemma_add_eval(spec_add(p0, p1), p2, -2, 4, 0, 2);
        lemma_add_eval(spec_add(spec_add(p0, p1), p2), spec_zero(), -4, 8, 0, 1);
    }
}

/// As `lemma_ident_dot_x`, for the row that selects `z`.
proof fn lemma_ident_dot_z(l: Vec3)
    requires
        l.x.den == 2,
        l.y.den == 2,
        l.z.den == 2,
        l.x.num == 1 || l.x.num == -1,
        l.y.num == 1 || l.y.num == -1,
        l.z.num == 1 || l.z.num == -1,
    ensures
        spec_dot_row(spec_zero(), spec_zero(), spec_one(), spec_zero(), l) == (Frac {
            num: (4 * l.z.num) as i64,
            den: 8,
        }),
{
    let p0 = spec_mul(spec_zero(), l.x);
    let p1 = spec_mul(spec_zero(), l.y);
    let p2 = spec_mul(spec_one(), l.z);
    lemma_mul_eval(spec_zero(), l.x, 0, 1, l.x.num as int, 2);
    lemma_mul_eval(spec_zero(), l.y, 0, 1, l.y.num as int, 2);
    lemma_add_eval(p0, p1, 0, 2, 0, 2);
    if l.z.num == 1 {
        lemma_mul_eval(spec_one(), l.z, 1, 1, 1, 2);
        lemma_add_eval(spec_add(p0, p1), p2, 0, 4, 1, 2);
        lemma_add_eval(spec_add(spec_add(p0, p1), p2), spec_zero(), 4, 8, 0, 1);
    } else {
        lemma_mul_eval(spec_one(), l.z, 1, 1, -1, 2);
        lemma_add_eval(spec_add(p0, p1), p2, 0, 4, -1, 2);
        lemma_add_eval(spec_add(spec_add(p0, p1), p2), spec_zero(), -4, 8, 0, 1);
    }
}

/// As `lemma_ident_dot_x`, for the bottom row: the homogeneous coordinate of
/// every corner is 8/8 under the identity transform.
proof fn lemma_ident_dot_w(l: Vec3)
    requires
        l.x.den == 2,
        l.y.den == 2,
        l.z.den == 2,
        l.x.num == 1 || l.x.num == -1,
        l.y.num == 1 || l.y.num == -1,
        l.z.num == 1 || l.z.num == -1,
    ensures
        spec_dot_row(spec_zero(), spec_zero(), spec_zero(), spec_one(), l) == (Frac {
            num: 8,
            den: 8,
        }),
{
    let p0 = spec_mul(spec_zero(), l.x);
    let p1 = spec_mul(spec_zero(), l.y);
    let p2 = spec_mul(spec_zero(), l.z);
    lemma_mul_eval(spec_zero(), l.x, 0, 1, l.x.num as int, 2);
    lemma_mul_eval(spec_zero(), l.y, 0, 1, l.y.num as int, 2);
    lemma_mul_eval(spec_zero(), l.z, 0, 1, l.z.num as int, 2);
    lemma_add_eval(p0, p1, 0, 2, 0, 2);
    lemma_add_eval(spec_add(p0, p1), p2, 0, 4, 0, 2);
    lemma_add_eval(spec_add(spec_add(p0, p1), p2), spec_one(), 0, 8, 1, 1);
}

/// Under the identity transform, transforming cube corner `c` yields exactly
/// `identity_position(c)`.
pub proof fn lemma_identity_corner_position(c: int)
    requires
        0 <= c < 8,
    ensures
        spec_position(spec_identity(), spec_local(c)) == identity_position(c),
{
    let m = spec_identity();
    let l = spec_local(c);
    assert(l.x.den == 2 && l.y.den == 2 && l.z.den == 2);
    assert(l.x.num == 1 || l.x.num == -1);
    assert(l.y.num == 1 || l.y.num == -1);
    assert(l.z.num == 1 || l.z.num == -1);
    lemma_ident_dot_x(l);
    lemma_ident_dot_y(l);
    lemma_ident_dot_z(l);
    lemma_ident_dot_w(l);
    let w = crate::cuboid::spec_w(m, l);
    assert(w == (Frac { num: 8, den: 8 }));
    let dx = spec_dot_row(m.m00, m.m01, m.m02, m.m03, l);
    let dy = spec_dot_row(m.m10, m.m11, m.m12, m.m13, l);
    let dz = spec_dot_row(m.m20, m.m21, m.m22, m.m23, l);
    if l.x.num == 1 {
        lemma_div_eval(dx, w, 4, 8, 8, 8);
    } else {
        lemma_div_eval(dx, w, -4, 8, 8, 8);
    }
    if l.y.num == 1 {
        lemma_div_eval(dy, w, 4, 8, 8, 8);
    } else {
        lemma_div_eval(dy, w, -4, 8, 8, 8);
    }
    if l.z.num == 1 {
        lemma_div_eval(dz, w, 4, 8, 8, 8);
    } else {
        lemma_div_eval(dz, w, -4, 8, 8, 8);
    }
    assert(spec_position(m, l) == identity_position(c));
}

/// Quotients and negations of the unit rationals, written out.
proof fn lemma_unit_quotients()
    ensures
        spec_div(Frac { num: 1i64, den: 1 }, Frac { num: 1i64, den: 1 }) == (Frac {
            num: 1i64,
            den: 1,
        }),
        spec_div(Frac { num: 0i64, den: 1 }, Frac { num: 1i64, den: 1 }) == (Frac {
            num: 0i64,
            den: 1,
        }),
        spec_neg(Frac { num: 1i64, den: 1 }) == (Frac { num: -1i64, den: 1 }),
        spec_neg(Frac { num: 0i64, den: 1 }) == (Frac { num: 0i64, den: 1 }),
{
}

/// Under the identity transform the direction of face `side` is the
/// axis-aligned outward unit normal of that face.
/// The determinant of the identity's linear part is one.
proof fn lemma_identity_det()
    ensures
        crate::cuboid::spec_det3(spec_identity()) == (Frac { num: 1, den: 1 }),
{
    let m = spec_identity();
    lemma_mul_eval(m.m11, m.m22, 1, 1, 1, 1);
    lemma_mul_eval(m.m12, m.m21, 0, 1, 0, 1);
    lemma_sub_eval(spec_mul(m.m11, m.m22), spec_mul(m.m12, m.m21), 1, 1, 0, 1);
    let mn0 = crate::cuboid::spec_minor(m.m11, m.m22, m.m12, m.m21);
    assert(mn0 == (Frac { num: 1, den: 1 }));
    lemma_mul_eval(m.m10, m.m22, 0, 1, 1, 1);
    lemma_mul_eval(m.m12, m.m20, 0, 1, 0, 1);
    lemma_sub_eval(spec_mul(m.m10, m.m22), spec_mul(m.m12, m.m20), 0, 1, 0, 1);
    let mn1 = crate::cuboid::spec_minor(m.m10, m.m22, m.m12, m.m20);
    assert(mn1 == (Frac { num: 0, den: 1 }));
    lemma_mul_eval(m.m10, m.m21, 0, 1, 0, 1);
    lemma_mul_eval(m.m11, m.m20, 1, 1, 0, 1);
    lemma_sub_eval(spec_mul(m.m10, m.m21), spec_mul(m.m11, m.m20), 0, 1, 0, 1);
    let mn2 = crate::cuboid::spec_minor(m.m10, m.m21, m.m11, m.m20);
    assert(mn2 == (Frac { num: 0, den: 1 }));
    lemma_mul_eval(m.m00, mn0, 1, 1, 1, 1);
    lemma_mul_eval(m.m01, mn1, 0, 1, 0, 1);
    lemma_mul_eval(m.m02, mn2, 0, 1, 0, 1);
    lemma_sub_eval(spec_mul(m.m00, mn0), spec_mul(m.m01, mn1), 1, 1, 0, 1);
    lemma_add_eval(
        crate::frac::spec_sub(spec_mul(m.m00, mn0), spec_mul(m.m01, mn1)),
        spec_mul(m.m02, mn2),
        1,
        1,
        0,
        1,
    );
}

/// Each cofactor of the identity's linear part: one on the diagonal, zero
/// off it.
proof fn lemma_identity_cof(j: int, a: int)
    requires
        0 <= j < 3,
        0 <= a < 3,
    ensures
        crate::cuboid::spec_cof(spec_identity(), j, a) == (Frac {
            num: if j == a { 1i64 } else { 0i64 },
            den: 1,
        }),
{
    let m = spec_identity();
    lemma_mul_eval(m.m11, m.m22, 1, 1, 1, 1);
    lemma_mul_eval(m.m12, m.m21, 0, 1, 0, 1);
    lemma_sub_eval(spec_mul(m.m11, m.m22), spec_mul(m.m12, m.m21), 1, 1, 0, 1);
    lemma_mul_eval(m.m10, m.m22, 0, 1, 1, 1);
    lemma_mul_eval(m.m12, m.m20, 0, 1, 0, 1);
    lemma_sub_eval(spec_mul(m.m10, m.m22), spec_mul(m.m12, m.m20), 0, 1, 0, 1);
    lemma_mul_eval(m.m10, m.m21, 0, 1, 0, 1);
    lemma_mul_eval(m.m11, m.m20, 1, 1, 0, 1);
    lemma_sub_eval(spec_mul(m.m10, m.m21), spec_mul(m.m11, m.m20), 0, 1, 0, 1);
    lemma_mul_eval(m.m01, m.m22, 0, 1, 1, 1);
    lemma_mul_eval(m.m02, m.m21, 0, 1, 0, 1);
    lemma_sub_eval(spec_mul(m.m01, m.m22), spec_mul(m.m02, m.m21), 0, 1, 0, 1);
    lemma_mul_eval(m.m00, m.m22, 1, 1, 1, 1);
    lemma_mul_eval(m.m02, m.m20, 0, 1, 0, 1);
    lemma_sub_eval(spec_mul(m.m00, m.m22), spec_mul(m.m02, m.m20), 1, 1, 0, 1);
    lemma_mul_eval(m.m00, m.m21, 1, 1, 0, 1);
    lemma_mul_eval(m.m01, m.m20, 0, 1, 0, 1);
    lemma_sub_eval(spec_mul(m.m00, m.m21), spec_mul(m.m01, m.m20), 0, 1, 0, 1);
    lemma_mul_eval(m.m01, m.m12, 0, 1, 0, 1);
    lemma_mul_eval(m.m02, m.m11, 0, 1, 1, 1);
    lemma_sub_eval(spec_mul(m.m01, m.m12), spec_mul(m.m02, m.m11), 0, 1, 0, 1);
    lemma_mul_eval(m.m00, m.m12, 1, 1, 0, 1);
    lemma_mul_eval(m.m02, m.m10, 0, 1, 0, 1);
    lemma_sub_eval(spec_mul(m.m00, m.m12), spec_mul(m.m02, m.m10), 0, 1, 0, 1);
    lemma_mul_eval(m.m00, m.m11, 1, 1, 1, 1);
    lemma_mul_eval(m.m01, m.m10, 0, 1, 0, 1);
    lemma_sub_eval(spec_mul(m.m00, m.m11), spec_mul(m.m01, m.m10), 1, 1, 0, 1);
    crate::frac::lemma_neg_eval(
        crate::cuboid::spec_minor(m.m10, m.m22, m.m12, m.m20),
        0,
    );
    crate::frac::lemma_neg_eval(
        crate::cuboid::spec_minor(m.m01, m.m22, m.m02, m.m21),
        0,
    );
    crate::frac::lemma_neg_eval(
        crate::cuboid::spec_minor(m.m00, m.m21, m.m01, m.m20),
        0,
    );
    crate::frac::lemma_neg_eval(
        crate::cuboid::spec_minor(m.m00, m.m12, m.m02, m.m10),
        0,
    );
}

/// Under the identity transform the direction of face `side` is the
/// axis-aligned outward unit normal of that face.
#[verifier::rlimit(60)]
pub proof fn lemma_identity_normal(side: int)
    requires
        0 <= side < 6,
    ensures
        spec_normal(spec_identity(), side) == crate::cuboid::spec_axis_unit(
            side / 2,
            side % 2 == 1,
        ),
{
    let m = spec_identity();
    let a = side / 2;
    let det = crate::cuboid::spec_det3(m);
    lemma_identity_det();
    assert(det == (Frac { num: 1, den: 1 }));
    assert(!det.is_zero());
    let c0 = crate::cuboid::spec_cof(m, 0, a);
    let c1 = crate::cuboid::spec_cof(m, 1, a);
    let c2 = crate::cuboid::spec_cof(m, 2, a);
    let one_f = Frac { num: 1i64, den: 1 };
    let zero_f = Frac { num: 0i64, den: 1 };
    lemma_unit_quotients();
    assert(spec_div(one_f, one_f) == one_f);
    assert(spec_div(zero_f, one_f) == zero_f);
    assert(spec_neg(one_f) == (Frac { num: -1i64, den: 1 }));
    assert(spec_neg(zero_f) == zero_f);
    if a == 0 {
        lemma_identity_cof(0, 0);
        lemma_identity_cof(1, 0);
        lemma_identity_cof(2, 0);
        assert(c0 == one_f && c1 == zero_f && c2 == zero_f);
        assert(spec_div(c0, det) == spec_div(one_f, one_f));
        assert(spec_div(c1, det) == spec_div(zero_f, one_f));
        assert(spec_div(c2, det) == spec_div(zero_f, one_f));
    } else if a == 1 {
        lemma_identity_cof(0, 1);
        lemma_identity_cof(1, 1);
        lemma_identity_cof(2, 1);
        assert(c0 == zero_f && c1 == one_f && c2 == zero_f);
        assert(spec_div(c0, det) == spec_div(zero_f, one_f));
        assert(spec_div(c1, det) == spec_div(one_f, one_f));
        assert(spec_div(c2, det) == spec_div(zero_f, one_f));
    } else {
        lemma_identity_cof(0, 2);
        lemma_identity_cof(1, 2);
        lemma_identity_cof(2, 2);
        assert(c0 == zero_f && c1 == zero_f && c2 == one_f);
        assert(spec_div(c0, det) == spec_div(zero_f, one_f));
        assert(spec_div(c1, det) == spec_div(zero_f, one_f));
        assert(spec_div(c2, det) == spec_div(one_f, one_f));
    }
    assert(spec_neg(spec_div(c0, det)) == spec_neg(if a == 0 { one_f } else { zero_f }));
    assert(spec_neg(spec_div(c1, det)) == spec_neg(if a == 1 { one_f } else { zero_f }));
    assert(spec_neg(spec_div(c2, det)) == spec_neg(if a == 2 { one_f } else { zero_f }));
}

/// Every vertex of an identity-transform cuboid has every position
/// component of absolute value exactly one half: the untransformed shape is
/// the unit cube centred at the origin.
pub proof fn lemma_identity_unit_dimensions(k: int)
    requires
        0 <= k < 36,
    ensures
        spec_abs(vertex_model(spec_identity(), k).position.x).eqv(Frac { num: 1, den: 2 }),
        spec_abs(vertex_model(spec_identity(), k).position.y).eqv(Frac { num: 1, den: 2 }),
        spec_abs(vertex_model(spec_identity(), k).position.z).eqv(Frac { num: 1, den: 2 }),
{
    lemma_mod_bound(k, 6);
    lemma_fundamental_div_mod(k, 6);
    let side = k / 6;
    let vert = k % 6;
    assert(0 <= side < 6);
    let c = spec_corner_code(side, vert);
    assert(0 <= c < 8);
    lemma_identity_corner_position(c);
}

/// Every texture coordinate component over the whole sequence is 0 or 1,
/// under every transform.
pub proof fn lemma_texcoords_on_unit_grid(m: Mat4, k: int)
    requires
        0 <= k < 36,
    ensures
        vertex_model(m, k).texcoord.u == spec_zero() || vertex_model(m, k).texcoord.u
            == spec_one(),
        vertex_model(m, k).texcoord.v == spec_zero() || vertex_model(m, k).texcoord.v
            == spec_one(),
{
    lemma_mod_bound(k, 6);
}

/// Texture coordinates span the whole grid: each of the four extreme
/// corners (0,0), (1,0), (0,1), (1,1) is attained on every face, under
/// every transform — so the minimum is (0,0) and the maximum (1,1).
pub proof fn lemma_texcoords_span_unit_square(m: Mat4)
    ensures
        vertex_model(m, 0).texcoord == (Tex2 { u: spec_zero(), v: spec_zero() }),
        vertex_model(m, 1).texcoord == (Tex2 { u: spec_one(), v: spec_zero() }),
        vertex_model(m, 2).texcoord == (Tex2 { u: spec_zero(), v: spec_one() }),
        vertex_model(m, 5).texcoord == (Tex2 { u: spec_one(), v: spec_one() }),
{
}

/// Faceted shading: the three vertices of every consecutive triangle store
/// one and the same direction, under every transform.
pub proof fn lemma_triangle_normals_equal(m: Mat4, t: int, i: int, j: int)
    requires
        0 <= t < 12,
        0 <= i < 3,
        0 <= j < 3,
    ensures
        vertex_model(m, 3 * t + i).normal == vertex_model(m, 3 * t + j).normal,
{
    lemma_fundamental_div_mod(t, 2);
    lemma_mod_bound(t, 2);
    let q = t / 2;
    let r = t % 2;
    lemma_fundamental_div_mod_converse(3 * t + i, 6, q, 3 * r + i);
    lemma_fundamental_div_mod_converse(3 * t + j, 6, q, 3 * r + j);
}

/// Determinism: two vertex sequences that both satisfy the generation
/// contract for the same matrix are identical.
pub proof fn lemma_generation_deterministic(m: Mat4, vs1: Seq<Vertex>, vs2: Seq<Vertex>)
    requires
        vs1.len() == 36,
        vs2.len() == 36,
        forall|k: int| 0 <= k < 36 ==> vs1[k] == vertex_model(m, k),
        forall|k: int| 0 <= k < 36 ==> vs2[k] == vertex_model(m, k),
    ensures
        vs1 == vs2,
{
    assert(vs1 =~= vs2);
}

/// The x-component of the first generated vertex, for a matrix whose first
/// row is `[2, 0, 0, t]` with integral `t` and whose bottom row is affine:
/// the corner at local x = -1/2 lands at `t - 1`.
proof fn lemma_first_vertex_x(m: Mat4, tn: int)
    requires
        m.m00 == (Frac { num: 2, den: 1 }),
        m.m01 == (Frac { num: 0, den: 1 }),
        m.m02 == (Frac { num: 0, den: 1 }),
        m.m03.num == tn,
        m.m03.den == 1,
        0 <= tn <= 100,
        m.m30 == spec_zero(),
        m.m31 == spec_zero(),
        m.m32 == spec_zero(),
        m.m33 == spec_one(),
    ensures
        vertex_model(m, 0).position.x.num == 64 * tn - 64,
        vertex_model(m, 0).position.x.den == 64,
{
    lemma_fundamental_div_mod_converse(0, 6, 0, 0);
    assert(crate::cuboid::poly_of(0) == 0);
    assert(spec_corner_code(0, 0) == 0);
    let l = spec_local(0);
    assert(l.x == (Frac { num: -1i64, den: 2 }));
    assert(l.y == (Frac { num: -1i64, den: 2 }));
    assert(l.z == (Frac { num: -1i64, den: 2 }));

    lemma_ident_dot_w(l);
    let w = crate::cuboid::spec_w(m, l);
    assert(w == (Frac { num: 8, den: 8 }));

    let p0 = spec_mul(m.m00, l.x);
    let p1 = spec_mul(m.m01, l.y);
    let p2 = spec_mul(m.m02, l.z);
    let p0v = Frac { num: -2i64, den: 2 };
    let p1v = Frac { num: 0i64, den: 2 };
    assert(p0 == p0v);
    assert(p1 == p1v);
    assert(p2 == p1v);
    let s1 = spec_add(p0, p1);
    let s1v = Frac { num: -4i64, den: 4 };
    assert(spec_add(p0v, p1v) == s1v);
    assert(s1 == s1v);
    let s2 = spec_add(s1, p2);
    let s2v = Frac { num: -8i64, den: 8 };
    assert(spec_add(s1v, p1v) == s2v);
    assert(s2 == s2v);
    let m03v = Frac { num: m.m03.num, den: 1 };
    assert(m.m03 == m03v);
    let d = spec_add(s2, m.m03);
    let dv = spec_add(s2v, m03v);
    assert(d == dv);
    assert(dv.num == -8 * 1 + m.m03.num * 8);
    assert(d.num == 8 * tn - 8);
    assert(dv.den == 8);
    let wv = Frac { num: 8i64, den: 8 };
    assert(w == wv);
    let px = spec_div(d, w);
    let pxv = spec_div(dv, wv);
    assert(px == pxv);
    assert(pxv.num == dv.num * 8);
    assert(px.num == (8 * tn - 8) * 8);
    assert((8 * tn - 8) * 8 == 64 * tn - 64) by (nonlinear_arith);
    assert(px.num == 64 * tn - 64);
    assert(pxv.den == dv.den * 8);
    assert(px.den == 64);
    assert(vertex_model(m, 0).position.x == px);
}

/// Composition order matters: scaling by (2,1,1) and then translating by
/// (1,0,0) puts the first vertex elsewhere than translating first and
/// scaling afterwards.
pub proof fn lemma_composition_order_matters()
    ensures
        ({
            let two = Frac { num: 2, den: 1 };
            let one = Frac { num: 1, den: 1 };
            let zero = Frac { num: 0, den: 1 };
            let scale_then_translate = spec_translate_mat(
                spec_scale_mat(spec_identity(), two, one, one),
                one,
                zero,
                zero,
            );
            let translate_then_scale = spec_scale_mat(
                spec_translate_mat(spec_identity(), one, zero, zero),
                two,
                one,
                one,
            );
            !vertex_model(scale_then_translate, 0).position.x.eqv(
                vertex_model(translate_then_scale, 0).position.x,
            )
        }),
{
    let two = Frac { num: 2, den: 1 };
    let one = Frac { num: 1, den: 1 };
    let zero = Frac { num: 0, den: 1 };
    let ident = spec_identity();
    let ms = spec_scale_mat(ident, two, one, one);
    let m1 = spec_translate_mat(ms, one, zero, zero);
    let mt = spec_translate_mat(ident, one, zero, zero);
    let m2 = spec_scale_mat(mt, two, one, one);

    // Entries of the scaled identity, then of translate(scale(identity)).
    lemma_mul_eval(two, ident.m00, 2, 1, 1, 1);
    lemma_mul_eval(two, ident.m01, 2, 1, 0, 1);
    lemma_mul_eval(two, ident.m02, 2, 1, 0, 1);
    lemma_mul_eval(two, ident.m03, 2, 1, 0, 1);
    assert(ms.m00 == (Frac { num: 2, den: 1 }));
    assert(ms.m01 == (Frac { num: 0, den: 1 }));
    assert(ms.m02 == (Frac { num: 0, den: 1 }));
    assert(ms.m03 == (Frac { num: 0, den: 1 }));
    assert(ms.m30 == spec_zero() && ms.m31 == spec_zero() && ms.m32 == spec_zero() && ms.m33
        == spec_one());
    lemma_mul_eval(one, ms.m30, 1, 1, 0, 1);
    lemma_mul_eval(one, ms.m31, 1, 1, 0, 1);
    lemma_mul_eval(one, ms.m32, 1, 1, 0, 1);
    lemma_mul_eval(one, ms.m33, 1, 1, 1, 1);
    lemma_add_eval(ms.m00, spec_mul(one, ms.m30), 2, 1, 0, 1);
    lemma_add_eval(ms.m01, spec_mul(one, ms.m31), 0, 1, 0, 1);
    lemma_add_eval(ms.m02, spec_mul(one, ms.m32), 0, 1, 0, 1);
    lemma_add_eval(ms.m03, spec_mul(one, ms.m33), 0, 1, 1, 1);
    assert(m1.m00 == (Frac { num: 2, den: 1 }));
    assert(m1.m01 == (Frac { num: 0, den: 1 }));
    assert(m1.m02 == (Frac { num: 0, den: 1 }));
    assert(m1.m03 == (Frac { num: 1, den: 1 }));
    assert(m1.m30 == spec_zero() && m1.m31 == spec_zero() && m1.m32 == spec_zero() && m1.m33
        == spec_one());

    // Entries of the translated identity, then of scale(translate(identity)).
    lemma_mul_eval(one, ident.m30, 1, 1, 0, 1);
    lemma_mul_eval(one, ident.m31, 1, 1, 0, 1);
    lemma_mul_eval(one, ident.m32, 1, 1, 0, 1);
    lemma_mul_eval(one, ident.m33, 1, 1, 1, 1);
    lemma_add_eval(ident.m00, spec_mul(one, ident.m30), 1, 1, 0, 1);
    lemma_add_eval(ident.m01, spec_mul(one, ident.m31), 0, 1, 0, 1);
    lemma_add_eval(ident.m02, spec_mul(one, ident.m32), 0, 1, 0, 1);
    lemma_add_eval(ident.m03, spec_mul(one, ident.m33), 0, 1, 1, 1);
    assert(mt.m00 == (Frac { num: 1, den: 1 }));
    assert(mt.m01 == (Frac { num: 0, den: 1 }));
    assert(mt.m02 == (Frac { num: 0, den: 1 }));
    assert(mt.m03 == (Frac { num: 1, den: 1 }));
    assert(mt.m30 == spec_zero() && mt.m31 == spec_zero() && mt.m32 == spec_zero() && mt.m33
        == spec_one());
    lemma_mul_eval(two, mt.m00, 2, 1, 1, 1);
    lemma_mul_eval(two, mt.m01, 2, 1, 0, 1);
    lemma_mul_eval(two, mt.m02, 2, 1, 0, 1);
    lemma_mul_eval(two, mt.m03, 2, 1, 1, 1);
    assert(m2.m00 == (Frac { num: 2, den: 1 }));
    assert(m2.m01 == (Frac { num: 0, den: 1 }));
    assert(m2.m02 == (Frac { num: 0, den: 1 }));
    assert(m2.m03 == (Frac { num: 2, den: 1 }));
    assert(m2.m30 == spec_zero() && m2.m31 == spec_zero() && m2.m32 == spec_zero() && m2.m33
        == spec_one());

    lemma_first_vertex_x(m1, 1);
    lemma_first_vertex_x(m2, 2);
    let px1 = vertex_model(m1, 0).position.x;
    let px2 = vertex_model(m2, 0).position.x;
    assert(px1.num == 0 && px1.den == 64);
    assert(px2.num == 64 && px2.den == 64);
    crate::frac::lemma_mul_ints(px1.num as int, px2.den as int, 0, 64);
    crate::frac::lemma_mul_ints(px2.num as int, px1.den as int, 64, 64);
    assert(!px1.eqv(px2));
}

/// The x-component of the cross product of a triangle's two edges, over
/// position numerators (all positions here share one denominator, so the
/// numerators carry the whole direction).
pub open spec fn cross_x(v0: Vec3, v1: Vec3, v2: Vec3) -> int {
    (v1.y.num - v0.y.num) * (v2.z.num - v0.z.num) - (v1.z.num - v0.z.num) * (v2.y.num
        - v0.y.num)
}

/// The y-component of the numerator-level edge cross product.
pub open spec fn cross_y(v0: Vec3, v1: Vec3, v2: Vec3) -> int {
    (v1.z.num - v0.z.num) * (v2.x.num - v0.x.num) - (v1.x.num - v0.x.num) * (v2.z.num
        - v0.z.num)
}

/// The z-component of the numerator-level edge cross product.
pub open spec fn cross_z(v0: Vec3, v1: Vec3, v2: Vec3) -> int {
    (v1.x.num - v0.x.num) * (v2.y.num - v0.y.num) - (v1.y.num - v0.y.num) * (v2.x.num
        - v0.x.num)
}

/// Triangle `t` of the identity-transform cuboid is faceted and
/// counter-clockwise: the geometric normal computed from its edges is a
/// positive multiple (4096 at this denominator) of the stored outward unit
/// direction, so the stored per-vertex directions agree with the face and
/// the winding is front-facing seen from outside.
pub open spec fn identity_triangle_faceted_ccw(t: int) -> bool {
    let v0 = vertex_model(spec_identity(), 3 * t).position;
    let v1 = vertex_model(spec_identity(), 3 * t + 1).position;
    let v2 = vertex_model(spec_identity(), 3 * t + 2).position;
    let n = vertex_model(spec_identity(), 3 * t).normal;
    &&& n.x.den == 1
    &&& n.y.den == 1
    &&& n.z.den == 1
    &&& cross_x(v0, v1, v2) == 4096 * n.x.num
    &&& cross_y(v0, v1, v2) == 4096 * n.y.num
    &&& cross_z(v0, v1, v2) == 4096 * n.z.num
    &&& cross_x(v0, v1, v2) * n.x.num + cross_y(v0, v1, v2) * n.y.num + cross_z(v0, v1, v2)
        * n.z.num > 0
}

/// One vertex position of the identity-transform cuboid, as the written-out
/// corner value.
proof fn lemma_identity_vertex_position(k: int)
    requires
        0 <= k < 36,
    ensures
        vertex_model(spec_identity(), k).position == identity_position(
            spec_corner_code(k / 6, k % 6),
        ),
{
    lemma_mod_bound(k, 6);
    lemma_fundamental_div_mod(k, 6);
    let c = spec_corner_code(k / 6, k % 6);
    assert(0 <= c < 8);
    lemma_identity_corner_position(c);
}

/// One case of `lemma_identity_triangles_faceted_ccw`.
proof fn lemma_identity_triangle_0()
    ensures
        identity_triangle_faceted_ccw(0),
{
    lemma_identity_vertex_position(0);
    lemma_identity_vertex_position(1);
    lemma_identity_vertex_position(2);
    lemma_identity_normal(0);
    let v0 = vertex_model(spec_identity(), 0).position;
    let v1 = vertex_model(spec_identity(), 1).position;
    let v2 = vertex_model(spec_identity(), 2).position;
    let n = vertex_model(spec_identity(), 0).normal;
    assert(v0.x.num == -32 && v0.y.num == -32 && v0.z.num == -32);
    assert(v1.x.num == -32 && v1.y.num == -32 && v1.z.num == 32);
    assert(v2.x.num == -32 && v2.y.num == 32 && v2.z.num == -32);
    assert(n.x.num == -1 && n.y.num == 0 && n.z.num == 0);
    assert(n.x.den == 1 && n.y.den == 1 && n.z.den == 1);
    crate::frac::lemma_mul_ints(v1.y.num - v0.y.num, v2.z.num - v0.z.num, 0, 0);
    crate::frac::lemma_mul_ints(v1.z.num - v0.z.num, v2.y.num - v0.y.num, 64, 64);
    crate::frac::lemma_mul_ints(v1.z.num - v0.z.num, v2.x.num - v0.x.num, 64, 0);
    crate::frac::lemma_mul_ints(v1.x.num - v0.x.num, v2.z.num - v0.z.num, 0, 0);
    crate::frac::lemma_mul_ints(v1.x.num - v0.x.num, v2.y.num - v0.y.num, 0, 64);
    crate::frac::lemma_mul_ints(v1.y.num - v0.y.num, v2.x.num - v0.x.num, 0, 0);
    assert(cross_x(v0, v1, v2) == -4096);
    assert(cross_y(v0, v1, v2) == 0);
    assert(cross_z(v0, v1, v2) == 0);
    crate::frac::lemma_mul_ints(cross_x(v0, v1, v2), n.x.num as int, -4096, -1);
    crate::frac::lemma_mul_ints(cross_y(v0, v1, v2), n.y.num as int, 0, 0);
    crate::frac::lemma_mul_ints(cross_z(v0, v1, v2), n.z.num as int, 0, 0);
}

/// One case of `lemma_identity_triangles_faceted_ccw`.
proof fn lemma_identity_triangle_1()
    ensures
        identity_triangle_faceted_ccw(1),
{
    lemma_identity_vertex_position(3);
    lemma_identity_vertex_position(4);
    lemma_identity_vertex_position(5);
    lemma_identity_normal(0);
    let v0 = vertex_model(spec_identity(), 3).position;
    let v1 = vertex_model(spec_identity(), 4).position;
    let v2 = vertex_model(spec_identity(), 5).position;
    let n = vertex_model(spec_identity(), 3).normal;
    assert(v0.x.num == -32 && v0.y.num == 32 && v0.z.num == -32);
    assert(v1.x.num == -32 && v1.y.num == -32 && v1.z.num == 32);
    assert(v2.x.num == -32 && v2.y.num == 32 && v2.z.num == 32);
    assert(n.x.num == -1 && n.y.num == 0 && n.z.num == 0);
    assert(n.x.den == 1 && n.y.den == 1 && n.z.den == 1);
    crate::frac::lemma_mul_ints(v1.y.num - v0.y.num, v2.z.num - v0.z.num, -64, 64);
    crate::frac::lemma_mul_ints(v1.z.num - v0.z.num, v2.y.num - v0.y.num, 64, 0);
    crate::frac::lemma_mul_ints(v1.z.num - v0.z.num, v2.x.num - v0.x.num, 64, 0);
    crate::frac::lemma_mul_ints(v1.x.num - v0.x.num, v2.z.num - v0.z.num, 0, 64);
    crate::frac::lemma_mul_ints(v1.x.num - v0.x.num, v2.y.num - v0.y.num, 0, 0);
    crate::frac::lemma_mul_ints(v1.y.num - v0.y.num, v2.x.num - v0.x.num, -64, 0);
    assert(cross_x(v0, v1, v2) == -4096);
    assert(cross_y(v0, v1, v2) == 0);
    assert(cross_z(v0, v1, v2) == 0);
    crate::frac::lemma_mul_ints(cross_x(v0, v1, v2), n.x.num as int, -4096, -1);
    crate::frac::lemma_mul_ints(cross_y(v0, v1, v2), n.y.num as int, 0, 0);
    crate::frac::lemma_mul_ints(cross_z(v0, v1, v2), n.z.num as int, 0, 0);
}

/// One case of `lemma_identity_triangles_faceted_ccw`.
proof fn lemma_identity_triangle_2()
    ensures
        identity_triangle_faceted_ccw(2),
{
    lemma_identity_vertex_position(6);
    lemma_identity_vertex_position(7);
    lemma_identity_vertex_position(8);
    lemma_identity_normal(1);
    let v0 = vertex_model(spec_identity(), 6).position;
    let v1 = vertex_model(spec_identity(), 7).position;
    let v2 = vertex_model(spec_identity(), 8).position;
    let n = vertex_model(spec_identity(), 6).normal;
    assert(v0.x.num == 32 && v0.y.num == -32 && v0.z.num == 32);
    assert(v1.x.num == 32 && v1.y.num == -32 && v1.z.num == -32);
    assert(v2.x.num == 32 && v2.y.num == 32 && v2.z.num == 32);
    assert(n.x.num == 1 && n.y.num == 0 && n.z.num == 0);
    assert(n.x.den == 1 && n.y.den == 1 && n.z.den == 1);
    crate::frac::lemma_mul_ints(v1.y.num - v0.y.num, v2.z.num - v0.z.num, 0, 0);
    crate::frac::lemma_mul_ints(v1.z.num - v0.z.num, v2.y.num - v0.y.num, -64, 64);
    crate::frac::lemma_mul_ints(v1.z.num - v0.z.num, v2.x.num - v0.x.num, -64, 0);
    crate::frac::lemma_mul_ints(v1.x.num - v0.x.num, v2.z.num - v0.z.num, 0, 0);
    crate::frac::lemma_mul_ints(v1.x.num - v0.x.num, v2.y.num - v0.y.num, 0, 64);
    crate::frac::lemma_mul_ints(v1.y.num - v0.y.num, v2.x.num - v0.x.num, 0, 0);
    assert(cross_x(v0, v1, v2) == 4096);
    assert(cross_y(v0, v1, v2) == 0);
    assert(cross_z(v0, v1, v2) == 0);
    crate::frac::lemma_mul_ints(cross_x(v0, v1, v2), n.x.num as int, 4096, 1);
    crate::frac::lemma_mul_ints(cross_y(v0, v1, v2), n.y.num as int, 0, 0);
    crate::frac::lemma_mul_ints(cross_z(v0, v1, v2), n.z.num as int, 0, 0);
}

/// One case of `lemma_identity_triangles_faceted_ccw`.
proof fn lemma_identity_triangle_3()
    ensures
        identity_triangle_faceted_ccw(3),
{
    lemma_identity_vertex_position(9);
    lemma_identity_vertex_position(10);
    lemma_identity_vertex_position(11);
    lemma_identity_normal(1);
    let v0 = vertex_model(spec_identity(), 9).position;
    let v1 = vertex_model(spec_identity(), 10).position;
    let v2 = vertex_model(spec_identity(), 11).position;
    let n = vertex_model(spec_identity(), 9).normal;
    assert(v0.x.num == 32 && v0.y.num == 32 && v0.z.num == 32);
    assert(v1.x.num == 32 && v1.y.num == -32 && v1.z.num == -32);
    assert(v2.x.num == 32 && v2.y.num == 32 && v2.z.num == -32);
    assert(n.x.num == 1 && n.y.num == 0 && n.z.num == 0);
    assert(n.x.den == 1 && n.y.den == 1 && n.z.den == 1);
    crate::frac::lemma_mul_ints(v1.y.num - v0.y.num, v2.z.num - v0.z.num, -64, -64);
    crate::frac::lemma_mul_ints(v1.z.num - v0.z.num, v2.y.num - v0.y.num, -64, 0);
    crate::frac::lemma_mul_ints(v1.z.num - v0.z.num, v2.x.num - v0.x.num, -64, 0);
    crate::frac::lemma_mul_ints(v1.x.num - v0.x.num, v2.z.num - v0.z.num, 0, -64);
    crate::frac::lemma_mul_ints(v1.x.num - v0.x.num, v2.y.num - v0.y.num, 0, 0);
    crate::frac::lemma_mul_ints(v1.y.num - v0.y.num, v2.x.num - v0.x.num, -64, 0);
    assert(cross_x(v0, v1, v2) == 4096);
    assert(cross_y(v0, v1, v2) == 0);
    assert(cross_z(v0, v1, v2) == 0);
    crate::frac::lemma_mul_ints(cross_x(v0, v1, v2), n.x.num as int, 4096, 1);
    crate::frac::lemma_mul_ints(cross_y(v0, v1, v2), n.y.num as int, 0, 0);
    crate::frac::lemma_mul_ints(cross_z(v0, v1, v2), n.z.num as int, 0, 0);
}

/// One case of `lemma_identity_triangles_faceted_ccw`.
proof fn lemma_identity_triangle_4()
    ensures
        identity_triangle_faceted_ccw(4),
{
    lemma_identity_vertex_position(12);
    lemma_identity_vertex_position(13);
    lemma_identity_vertex_position(14);
    lemma_identity_normal(2);
    let v0 = vertex_model(spec_identity(), 12).position;
    let v1 = vertex_model(spec_identity(), 13).position;
    let v2 = vertex_model(spec_identity(), 14).position;
    let n = vertex_model(spec_identity(), 12).normal;
    assert(v0.x.num == -32 && v0.y.num == -32 && v0.z.num == -32);
    assert(v1.x.num == 32 && v1.y.num == -32 && v1.z.num == -32);
    assert(v2.x.num == -32 && v2.y.num == -32 && v2.z.num == 32);
    assert(n.x.num == 0 && n.y.num == -1 && n.z.num == 0);
    assert(n.x.den == 1 && n.y.den == 1 && n.z.den == 1);
    crate::frac::lemma_mul_ints(v1.y.num - v0.y.num, v2.z.num - v0.z.num, 0, 64);
    crate::frac::lemma_mul_ints(v1.z.num - v0.z.num, v2.y.num - v0.y.num, 0, 0);
    crate::frac::lemma_mul_ints(v1.z.num - v0.z.num, v2.x.num - v0.x.num, 0, 0);
    crate::frac::lemma_mul_ints(v1.x.num - v0.x.num, v2.z.num - v0.z.num, 64, 64);
    crate::frac::lemma_mul_ints(v1.x.num - v0.x.num, v2.y.num - v0.y.num, 64, 0);
    crate::frac::lemma_mul_ints(v1.y.num - v0.y.num, v2.x.num - v0.x.num, 0, 0);
    assert(cross_x(v0, v1, v2) == 0);
    assert(cross_y(v0, v1, v2) == -4096);
    assert(cross_z(v0, v1, v2) == 0);
    crate::frac::lemma_mul_ints(cross_x(v0, v1, v2), n.x.num as int, 0, 0);
    crate::frac::lemma_mul_ints(cross_y(v0, v1, v2), n.y.num as int, -4096, -1);
    crate::frac::lemma_mul_ints(cross_z(v0, v1, v2), n.z.num as int, 0, 0);
}

/// One case of `lemma_identity_triangles_faceted_ccw`.
proof fn lemma_identity_triangle_5()
    ensures
        identity_triangle_faceted_ccw(5),
{
    lemma_identity_vertex_position(15);
    lemma_identity_vertex_position(16);
    lemma_identity_vertex_position(17);
    lemma_identity_normal(2);
    let v0 = vertex_model(spec_identity(), 15).position;
    let v1 = vertex_model(spec_identity(), 16).position;
    let v2 = vertex_model(spec_identity(), 17).position;
    let n = vertex_model(spec_identity(), 15).normal;
    assert(v0.x.num == -32 && v0.y.num == -32 && v0.z.num == 32);
    assert(v1.x.num == 32 && v1.y.num == -32 && v1.z.num == -32);
    assert(v2.x.num == 32 && v2.y.num == -32 && v2.z.num == 32);
    assert(n.x.num == 0 && n.y.num == -1 && n.z.num == 0);
    assert(n.x.den == 1 && n.y.den == 1 && n.z.den == 1);
    crate::frac::lemma_mul_ints(v1.y.num - v0.y.num, v2.z.num - v0.z.num, 0, 0);
    crate::frac::lemma_mul_ints(v1.z.num - v0.z.num, v2.y.num - v0.y.num, -64, 0);
    crate::frac::lemma_mul_ints(v1.z.num - v0.z.num, v2.x.num - v0.x.num, -64, 64);
    crate::frac::lemma_mul_ints(v1.x.num - v0.x.num, v2.z.num - v0.z.num, 64, 0);
    crate::frac::lemma_mul_ints(v1.x.num - v0.x.num, v2.y.num - v0.y.num, 64, 0);
    crate::frac::lemma_mul_ints(v1.y.num - v0.y.num, v2.x.num - v0.x.num, 0, 64);
    assert(cross_x(v0, v1, v2) == 0);
    assert(cross_y(v0, v1, v2) == -4096);
    assert(cross_z(v0, v1, v2) == 0);
    crate::frac::lemma_mul_ints(cross_x(v0, v1, v2), n.x.num as int, 0, 0);
    crate::frac::lemma_mul_ints(cross_y(v0, v1, v2), n.y.num as int, -4096, -1);
    crate::frac::lemma_mul_ints(cross_z(v0, v1, v2), n.z.num as int, 0, 0);
}

/// One case of `lemma_identity_triangles_faceted_ccw`.
proof fn lemma_identity_triangle_6()
    ensures
        identity_triangle_faceted_ccw(6),
{
    lemma_identity_vertex_position(18);
    lemma_identity_vertex_position(19);
    lemma_identity_vertex_position(20);
    lemma_identity_normal(3);
    let v0 = vertex_model(spec_identity(), 18).position;
    let v1 = vertex_model(spec_identity(), 19).position;
    let v2 = vertex_model(spec_identity(), 20).position;
    let n = vertex_model(spec_identity(), 18).normal;
    assert(v0.x.num == -32 && v0.y.num == 32 && v0.z.num == 32);
    assert(v1.x.num == 32 && v1.y.num == 32 && v1.z.num == 32);
    assert(v2.x.num == -32 && v2.y.num == 32 && v2.z.num == -32);
    assert(n.x.num == 0 && n.y.num == 1 && n.z.num == 0);
    assert(n.x.den == 1 && n.y.den == 1 && n.z.den == 1);
    crate::frac::lemma_mul_ints(v1.y.num - v0.y.num, v2.z.num - v0.z.num, 0, -64);
    crate::frac::lemma_mul_ints(v1.z.num - v0.z.num, v2.y.num - v0.y.num, 0, 0);
    crate::frac::lemma_mul_ints(v1.z.num - v0.z.num, v2.x.num - v0.x.num, 0, 0);
    crate::frac::lemma_mul_ints(v1.x.num - v0.x.num, v2.z.num - v0.z.num, 64, -64);
    crate::frac::lemma_mul_ints(v1.x.num - v0.x.num, v2.y.num - v0.y.num, 64, 0);
    crate::frac::lemma_mul_ints(v1.y.num - v0.y.num, v2.x.num - v0.x.num, 0, 0);
    assert(cross_x(v0, v1, v2) == 0);
    assert(cross_y(v0, v1, v2) == 4096);
    assert(cross_z(v0, v1, v2) == 0);
    crate::frac::lemma_mul_ints(cross_x(v0, v1, v2), n.x.num as int, 0, 0);
    crate::frac::lemma_mul_ints(cross_y(v0, v1, v2), n.y.num as int, 4096, 1);
    crate::frac::lemma_mul_ints(cross_z(v0, v1, v2), n.z.num as int, 0, 0);
}

/// One case of `lemma_identity_triangles_faceted_ccw`.
proof fn lemma_identity_triangle_7()
    ensures
        identity_triangle_faceted_ccw(7),
{
    lemma_identity_vertex_position(21);
    lemma_identity_vertex_position(22);
    lemma_identity_vertex_position(23);
    lemma_identity_normal(3);
    let v0 = vertex_model(spec_identity(), 21).position;
    let v1 = vertex_model(spec_identity(), 22).position;
    let v2 = vertex_model(spec_identity(), 23).position;
    let n = vertex_model(spec_identity(), 21).normal;
    assert(v0.x.num == -32 && v0.y.num == 32 && v0.z.num == -32);
    assert(v1.x.num == 32 && v1.y.num == 32 && v1.z.num == 32);
    assert(v2.x.num == 32 && v2.y.num == 32 && v2.z.num == -32);
    assert(n.x.num == 0 && n.y.num == 1 && n.z.num == 0);
    assert(n.x.den == 1 && n.y.den == 1 && n.z.den == 1);
    crate::frac::lemma_mul_ints(v1.y.num - v0.y.num, v2.z.num - v0.z.num, 0, 0);
    crate::frac::lemma_mul_ints(v1.z.num - v0.z.num, v2.y.num - v0.y.num, 64, 0);
    crate::frac::lemma_mul_ints(v1.z.num - v0.z.num, v2.x.num - v0.x.num, 64, 64);
    crate::frac::lemma_mul_ints(v1.x.num - v0.x.num, v2.z.num - v0.z.num, 64, 0);
    crate::frac::lemma_mul_ints(v1.x.num - v0.x.num, v2.y.num - v0.y.num, 64, 0);
    crate::frac::lemma_mul_ints(v1.y.num - v0.y.num, v2.x.num - v0.x.num, 0, 64);
    assert(cross_x(v0, v1, v2) == 0);
    assert(cross_y(v0, v1, v2) == 4096);
    assert(cross_z(v0, v1, v2) == 0);
    crate::frac::lemma_mul_ints(cross_x(v0, v1, v2), n.x.num as int, 0, 0);
    crate::frac::lemma_mul_ints(cross_y(v0, v1, v2), n.y.num as int, 4096, 1);
    crate::frac::lemma_mul_ints(cross_z(v0, v1, v2), n.z.num as int, 0, 0);
}

/// One case of `lemma_identity_triangles_faceted_ccw`.
proof fn lemma_identity_triangle_8()
    ensures
        identity_triangle_faceted_ccw(8),
{
    lemma_identity_vertex_position(24);
    lemma_identity_vertex_position(25);
    lemma_identity_vertex_position(26);
    lemma_identity_normal(4);
    let v0 = vertex_model(spec_identity(), 24).position;
    let v1 = vertex_model(spec_identity(), 25).position;
    let v2 = vertex_model(spec_identity(), 26).position;
    let n = vertex_model(spec_identity(), 24).normal;
    assert(v0.x.num == 32 && v0.y.num == -32 && v0.z.num == -32);
    assert(v1.x.num == -32 && v1.y.num == -32 && v1.z.num == -32);
    assert(v2.x.num == 32 && v2.y.num == 32 && v2.z.num == -32);
    assert(n.x.num == 0 && n.y.num == 0 && n.z.num == -1);
    assert(n.x.den == 1 && n.y.den == 1 && n.z.den == 1);
    crate::frac::lemma_mul_ints(v1.y.num - v0.y.num, v2.z.num - v0.z.num, 0, 0);
    crate::frac::lemma_mul_ints(v1.z.num - v0.z.num, v2.y.num - v0.y.num, 0, 64);
    crate::frac::lemma_mul_ints(v1.z.num - v0.z.num, v2.x.num - v0.x.num, 0, 0);
    crate::frac::lemma_mul_ints(v1.x.num - v0.x.num, v2.z.num - v0.z.num, -64, 0);
    crate::frac::lemma_mul_ints(v1.x.num - v0.x.num, v2.y.num - v0.y.num, -64, 64);
    crate::frac::lemma_mul_ints(v1.y.num - v0.y.num, v2.x.num - v0.x.num, 0, 0);
    assert(cross_x(v0, v1, v2) == 0);
    assert(cross_y(v0, v1, v2) == 0);
    assert(cross_z(v0, v1, v2) == -4096);
    crate::frac::lemma_mul_ints(cross_x(v0, v1, v2), n.x.num as int, 0, 0);
    crate::frac::lemma_mul_ints(cross_y(v0, v1, v2), n.y.num as int, 0, 0);
    crate::frac::lemma_mul_ints(cross_z(v0, v1, v2), n.z.num as int, -4096, -1);
}

/// One case of `lemma_identity_triangles_faceted_ccw`.
proof fn lemma_identity_triangle_9()
    ensures
        identity_triangle_faceted_ccw(9),
{
    lemma_identity_vertex_position(27);
    lemma_identity_vertex_position(28);
    lemma_identity_vertex_position(29);
    lemma_identity_normal(4);
    let v0 = vertex_model(spec_identity(), 27).position;
    let v1 = vertex_model(spec_identity(), 28).position;
    let v2 = vertex_model(spec_identity(), 29).position;
    let n = vertex_model(spec_identity(), 27).normal;
    assert(v0.x.num == 32 && v0.y.num == 32 && v0.z.num == -32);
    assert(v1.x.num == -32 && v1.y.num == -32 && v1.z.num == -32);
    assert(v2.x.num == -32 && v2.y.num == 32 && v2.z.num == -32);
    assert(n.x.num == 0 && n.y.num == 0 && n.z.num == -1);
    assert(n.x.den == 1 && n.y.den == 1 && n.z.den == 1);
    crate::frac::lemma_mul_ints(v1.y.num - v0.y.num, v2.z.num - v0.z.num, -64, 0);
    crate::frac::lemma_mul_ints(v1.z.num - v0.z.num, v2.y.num - v0.y.num, 0, 0);
    crate::frac::lemma_mul_ints(v1.z.num - v0.z.num, v2.x.num - v0.x.num, 0, -64);
    crate::frac::lemma_mul_ints(v1.x.num - v0.x.num, v2.z.num - v0.z.num, -64, 0);
    crate::frac::lemma_mul_ints(v1.x.num - v0.x.num, v2.y.num - v0.y.num, -64, 0);
    crate::frac::lemma_mul_ints(v1.y.num - v0.y.num, v2.x.num - v0.x.num, -64, -64);
    assert(cross_x(v0, v1, v2) == 0);
    assert(cross_y(v0, v1, v2) == 0);
    assert(cross_z(v0, v1, v2) == -4096);
    crate::frac::lemma_mul_ints(cross_x(v0, v1, v2), n.x.num as int, 0, 0);
    crate::frac::lemma_mul_ints(cross_y(v0, v1, v2), n.y.num as int, 0, 0);
    crate::frac::lemma_mul_ints(cross_z(v0, v1, v2), n.z.num as int, -4096, -1);
}

/// One case of `lemma_identity_triangles_faceted_ccw`.
proof fn lemma_identity_triangle_10()
    ensures
        identity_triangle_faceted_ccw(10),
{
    lemma_identity_vertex_position(30);
    lemma_identity_vertex_position(31);
    lemma_identity_vertex_position(32);
    lemma_identity_normal(5);
    let v0 = vertex_model(spec_identity(), 30).position;
    let v1 = vertex_model(spec_identity(), 31).position;
    let v2 = vertex_model(spec_identity(), 32).position;
    let n = vertex_model(spec_identity(), 30).normal;
    assert(v0.x.num == -32 && v0.y.num == -32 && v0.z.num == 32);
    assert(v1.x.num == 32 && v1.y.num == -32 && v1.z.num == 32);
    assert(v2.x.num == -32 && v2.y.num == 32 && v2.z.num == 32);
    assert(n.x.num == 0 && n.y.num == 0 && n.z.num == 1);
    assert(n.x.den == 1 && n.y.den == 1 && n.z.den == 1);
    crate::frac::lemma_mul_ints(v1.y.num - v0.y.num, v2.z.num - v0.z.num, 0, 0);
    crate::frac::lemma_mul_ints(v1.z.num - v0.z.num, v2.y.num - v0.y.num, 0, 64);
    crate::frac::lemma_mul_ints(v1.z.num - v0.z.num, v2.x.num - v0.x.num, 0, 0);
    crate::frac::lemma_mul_ints(v1.x.num - v0.x.num, v2.z.num - v0.z.num, 64, 0);
    crate::frac::lemma_mul_ints(v1.x.num - v0.x.num, v2.y.num - v0.y.num, 64, 64);
    crate::frac::lemma_mul_ints(v1.y.num - v0.y.num, v2.x.num - v0.x.num, 0, 0);
    assert(cross_x(v0, v1, v2) == 0);
    assert(cross_y(v0, v1, v2) == 0);
    assert(cross_z(v0, v1, v2) == 4096);
    crate::frac::lemma_mul_ints(cross_x(v0, v1, v2), n.x.num as int, 0, 0);
    crate::frac::lemma_mul_ints(cross_y(v0, v1, v2), n.y.num as int, 0, 0);
    crate::frac::lemma_mul_ints(cross_z(v0, v1, v2), n.z.num as int, 4096, 1);
}

/// One case of `lemma_identity_triangles_faceted_ccw`.
proof fn lemma_identity_triangle_11()
    ensures
        identity_triangle_faceted_ccw(11),
{
    lemma_identity_vertex_position(33);
    lemma_identity_vertex_position(34);
    lemma_identity_vertex_position(35);
    lemma_identity_normal(5);
    let v0 = vertex_model(spec_identity(), 33).position;
    let v1 = vertex_model(spec_identity(), 34).position;
    let v2 = vertex_model(spec_identity(), 35).position;
    let n = vertex_model(spec_identity(), 33).normal;
    assert(v0.x.num == -32 && v0.y.num == 32 && v0.z.num == 32);
    assert(v1.x.num == 32 && v1.y.num == -32 && v1.z.num == 32);
    assert(v2.x.num == 32 && v2.y.num == 32 && v2.z.num == 32);
    assert(n.x.num == 0 && n.y.num == 0 && n.z.num == 1);
    assert(n.x.den == 1 && n.y.den == 1 && n.z.den == 1);
    crate::frac::lemma_mul_ints(v1.y.num - v0.y.num, v2.z.num - v0.z.num, -64, 0);
    crate::frac::lemma_mul_ints(v1.z.num - v0.z.num, v2.y.num - v0.y.num, 0, 0);
    crate::frac::lemma_mul_ints(v1.z.num - v0.z.num, v2.x.num - v0.x.num, 0, 64);
    crate::frac::lemma_mul_ints(v1.x.num - v0.x.num, v2.z.num - v0.z.num, 64, 0);
    crate::frac::lemma_mul_ints(v1.x.num - v0.x.num, v2.y.num - v0.y.num, 64, 0);
    crate::frac::lemma_mul_ints(v1.y.num - v0.y.num, v2.x.num - v0.x.num, -64, 64);
    assert(cross_x(v0, v1, v2) == 0);
    assert(cross_y(v0, v1, v2) == 0);
    assert(cross_z(v0, v1, v2) == 4096);
    crate::frac::lemma_mul_ints(cross_x(v0, v1, v2), n.x.num as int, 0, 0);
    crate::frac::lemma_mul_ints(cross_y(v0, v1, v2), n.y.num as int, 0, 0);
    crate::frac::lemma_mul_ints(cross_z(v0, v1, v2), n.z.num as int, 4096, 1);
}

/// Every consecutive triangle of the identity-transform cuboid winds
/// counter-clockwise seen from outside, and its stored direction is the
/// geometric face normal: the cross product of its edges is a positive
/// multiple of the stored outward unit direction.
pub proof fn lemma_identity_triangles_faceted_ccw(t: int)
    requires
        0 <= t < 12,
    ensures
        identity_triangle_faceted_ccw(t),
{
    if t == 0 {
        lemma_identity_triangle_0();
    } else if t == 1 {
        lemma_identity_triangle_1();
    } else if t == 2 {
        lemma_identity_triangle_2();
    } else if t == 3 {
        lemma_identity_triangle_3();
    } else if t == 4 {
        lemma_identity_triangle_4();
    } else if t == 5 {
        lemma_identity_triangle_5();
    } else if t == 6 {
        lemma_identity_triangle_6();
    } else if t == 7 {
        lemma_identity_triangle_7();
    } else if t == 8 {
        lemma_identity_triangle_8();
    } else if t == 9 {
        lemma_identity_triangle_9();
    } else if t == 10 {
        lemma_identity_triangle_10();
    } else {
        lemma_identity_triangle_11();
    }
}

/// The running sum of the x numerators of the first `n` identity-transform
/// vertices (every identity position has denominator 64, so a zero numerator
/// sum is a zero rational sum).
pub open spec fn identity_x_num_sum(n: int) -> int
    decreases n,
{
    if n <= 0 {
        0
    } else {
        identity_x_num_sum(n - 1) + vertex_model(spec_identity(), n - 1).position.x.num
    }
}

/// As `identity_x_num_sum`, for the y components.
pub open spec fn identity_y_num_sum(n: int) -> int
    decreases n,
{
    if n <= 0 {
        0
    } else {
        identity_y_num_sum(n - 1) + vertex_model(spec_identity(), n - 1).position.y.num
    }
}

/// As `identity_x_num_sum`, for the z components.
pub open spec fn identity_z_num_sum(n: int) -> int
    decreases n,
{
    if n <= 0 {
        0
    } else {
        identity_z_num_sum(n - 1) + vertex_model(spec_identity(), n - 1).position.z.num
    }
}

/// The centroid of the identity-transform cuboid is the origin: over the
/// whole sequence the position components sum to zero on every axis (each
/// component is a numerator over the common denominator 64).
pub proof fn lemma_identity_centroid_at_origin()
    ensures
        identity_x_num_sum(36) == 0,
        identity_y_num_sum(36) == 0,
        identity_z_num_sum(36) == 0,
{
    assert(identity_x_num_sum(0) == 0);
    assert(identity_y_num_sum(0) == 0);
    assert(identity_z_num_sum(0) == 0);
    lemma_identity_vertex_position(0);
    assert(vertex_model(spec_identity(), 0).position.x.num == -32);
    assert(vertex_model(spec_identity(), 0).position.y.num == -32);
    assert(vertex_model(spec_identity(), 0).position.z.num == -32);
    assert(identity_x_num_sum(1) == -32);
    assert(identity_y_num_sum(1) == -32);
    assert(identity_z_num_sum(1) == -32);
    lemma_identity_vertex_position(1);
    assert(vertex_model(spec_identity(), 1).position.x.num == -32);
    assert(vertex_model(spec_identity(), 1).position.y.num == -32);
    assert(vertex_model(spec_identity(), 1).position.z.num == 32);
    assert(identity_x_num_sum(2) == -64);
    assert(identity_y_num_sum(2) == -64);
    assert(identity_z_num_sum(2) == 0);
    lemma_identity_vertex_position(2);
    assert(vertex_model(spec_identity(), 2).position.x.num == -32);
    assert(vertex_model(spec_identity(), 2).position.y.num == 32);
    assert(vertex_model(spec_identity(), 2).position.z.num == -32);
    assert(identity_x_num_sum(3) == -96);
    assert(identity_y_num_sum(3) == -32);
    assert(identity_z_num_sum(3) == -32);
    lemma_identity_vertex_position(3);
    assert(vertex_model(spec_identity(), 3).position.x.num == -32);
    assert(vertex_model(spec_identity(), 3).position.y.num == 32);
    assert(vertex_model(spec_identity(), 3).position.z.num == -32);
    assert(identity_x_num_sum(4) == -128);
    assert(identity_y_num_sum(4) == 0);
    assert(identity_z_num_sum(4) == -64);
    lemma_identity_vertex_position(4);
    assert(vertex_model(spec_identity(), 4).position.x.num == -32);
    assert(vertex_model(spec_identity(), 4).position.y.num == -32);
    assert(vertex_model(spec_identity(), 4).position.z.num == 32);
    assert(identity_x_num_sum(5) == -160);
    assert(identity_y_num_sum(5) == -32);
    assert(identity_z_num_sum(5) == -32);
    lemma_identity_vertex_position(5);
    assert(vertex_model(spec_identity(), 5).position.x.num == -32);
    assert(vertex_model(spec_identity(), 5).position.y.num == 32);
    assert(vertex_model(spec_identity(), 5).position.z.num == 32);
    assert(identity_x_num_sum(6) == -192);
    assert(identity_y_num_sum(6) == 0);
    assert(identity_z_num_sum(6) == 0);
    lemma_identity_vertex_position(6);
    assert(vertex_model(spec_identity(), 6).position.x.num == 32);
    assert(vertex_model(spec_identity(), 6).position.y.num == -32);
    assert(vertex_model(spec_identity(), 6).position.z.num == 32);
    assert(identity_x_num_sum(7) == -160);
    assert(identity_y_num_sum(7) == -32);
    assert(identity_z_num_sum(7) == 32);
    lemma_identity_vertex_position(7);
    assert(vertex_model(spec_identity(), 7).position.x.num == 32);
    assert(vertex_model(spec_identity(), 7).position.y.num == -32);
    assert(vertex_model(spec_identity(), 7).position.z.num == -32);
    assert(identity_x_num_sum(8) == -128);
    assert(identity_y_num_sum(8) == -64);
    assert(identity_z_num_sum(8) == 0);
    lemma_identity_vertex_position(8);
    assert(vertex_model(spec_identity(), 8).position.x.num == 32);
    assert(vertex_model(spec_identity(), 8).position.y.num == 32);
    assert(vertex_model(spec_identity(), 8).position.z.num == 32);
    assert(identity_x_num_sum(9) == -96);
    assert(identity_y_num_sum(9) == -32);
    assert(identity_z_num_sum(9) == 32);
    lemma_identity_vertex_position(9);
    assert(vertex_model(spec_identity(), 9).position.x.num == 32);
    assert(vertex_model(spec_identity(), 9).position.y.num == 32);
    assert(vertex_model(spec_identity(), 9).position.z.num == 32);
    assert(identity_x_num_sum(10) == -64);
    assert(identity_y_num_sum(10) == 0);
    assert(identity_z_num_sum(10) == 64);
    lemma_identity_vertex_position(10);
    assert(vertex_model(spec_identity(), 10).position.x.num == 32);
    assert(vertex_model(spec_identity(), 10).position.y.num == -32);
    assert(vertex_model(spec_identity(), 10).position.z.num == -32);
    assert(identity_x_num_sum(11) == -32);
    assert(identity_y_num_sum(11) == -32);
    assert(identity_z_num_sum(11) == 32);
    lemma_identity_vertex_position(11);
    assert(vertex_model(spec_identity(), 11).position.x.num == 32);
    assert(vertex_model(spec_identity(), 11).position.y.num == 32);
    assert(vertex_model(spec_identity(), 11).position.z.num == -32);
    assert(identity_x_num_sum(12) == 0);
    assert(identity_y_num_sum(12) == 0);
    assert(identity_z_num_sum(12) == 0);
    lemma_identity_vertex_position(12);
    assert(vertex_model(spec_identity(), 12).position.x.num == -32);
    assert(vertex_model(spec_identity(), 12).position.y.num == -32);
    assert(vertex_model(spec_identity(), 12).position.z.num == -32);
    assert(identity_x_num_sum(13) == -32);
    assert(identity_y_num_sum(13) == -32);
    assert(identity_z_num_sum(13) == -32);
    lemma_identity_vertex_position(13);
    assert(vertex_model(spec_identity(), 13).position.x.num == 32);
    assert(vertex_model(spec_identity(), 13).position.y.num == -32);
    assert(vertex_model(spec_identity(), 13).position.z.num == -32);
    assert(identity_x_num_sum(14) == 0);
    assert(identity_y_num_sum(14) == -64);
    assert(identity_z_num_sum(14) == -64);
    lemma_identity_vertex_position(14);
    assert(vertex_model(spec_identity(), 14).position.x.num == -32);
    assert(vertex_model(spec_identity(), 14).position.y.num == -32);
    assert(vertex_model(spec_identity(), 14).position.z.num == 32);
    assert(identity_x_num_sum(15) == -32);
    assert(identity_y_num_sum(15) == -96);
    assert(identity_z_num_sum(15) == -32);
    lemma_identity_vertex_position(15);
    assert(vertex_model(spec_identity(), 15).position.x.num == -32);
    assert(vertex_model(spec_identity(), 15).position.y.num == -32);
    assert(vertex_model(spec_identity(), 15).position.z.num == 32);
    assert(identity_x_num_sum(16) == -64);
    assert(identity_y_num_sum(16) == -128);
    assert(identity_z_num_sum(16) == 0);
    lemma_identity_vertex_position(16);
    assert(vertex_model(spec_identity(), 16).position.x.num == 32);
    assert(vertex_model(spec_identity(), 16).position.y.num == -32);
    assert(vertex_model(spec_identity(), 16).position.z.num == -32);
    assert(identity_x_num_sum(17) == -32);
    assert(identity_y_num_sum(17) == -160);
    assert(identity_z_num_sum(17) == -32);
    lemma_identity_vertex_position(17);
    assert(vertex_model(spec_identity(), 17).position.x.num == 32);
    assert(vertex_model(spec_identity(), 17).position.y.num == -32);
    assert(vertex_model(spec_identity(), 17).position.z.num == 32);
    assert(identity_x_num_sum(18) == 0);
    assert(identity_y_num_sum(18) == -192);
    assert(identity_z_num_sum(18) == 0);
    lemma_identity_vertex_position(18);
    assert(vertex_model(spec_identity(), 18).position.x.num == -32);
    assert(vertex_model(spec_identity(), 18).position.y.num == 32);
    assert(vertex_model(spec_identity(), 18).position.z.num == 32);
    assert(identity_x_num_sum(19) == -32);
    assert(identity_y_num_sum(19) == -160);
    assert(identity_z_num_sum(19) == 32);
    lemma_identity_vertex_position(19);
    assert(vertex_model(spec_identity(), 19).position.x.num == 32);
    assert(vertex_model(spec_identity(), 19).position.y.num == 32);
    assert(vertex_model(spec_identity(), 19).position.z.num == 32);
    assert(identity_x_num_sum(20) == 0);
    assert(identity_y_num_sum(20) == -128);
    assert(identity_z_num_sum(20) == 64);
    lemma_identity_vertex_position(20);
    assert(vertex_model(spec_identity(), 20).position.x.num == -32);
    assert(vertex_model(spec_identity(), 20).position.y.num == 32);
    assert(vertex_model(spec_identity(), 20).position.z.num == -32);
    assert(identity_x_num_sum(21) == -32);
    assert(identity_y_num_sum(21) == -96);
    assert(identity_z_num_sum(21) == 32);
    lemma_identity_vertex_position(21);
    assert(vertex_model(spec_identity(), 21).position.x.num == -32);
    assert(vertex_model(spec_identity(), 21).position.y.num == 32);
    assert(vertex_model(spec_identity(), 21).position.z.num == -32);
    assert(identity_x_num_sum(22) == -64);
    assert(identity_y_num_sum(22) == -64);
    assert(identity_z_num_sum(22) == 0);
    lemma_identity_vertex_position(22);
    assert(vertex_model(spec_identity(), 22).position.x.num == 32);
    assert(vertex_model(spec_identity(), 22).position.y.num == 32);
    assert(vertex_model(spec_identity(), 22).position.z.num == 32);
    assert(identity_x_num_sum(23) == -32);
    assert(identity_y_num_sum(23) == -32);
    assert(identity_z_num_sum(23) == 32);
    lemma_identity_vertex_position(23);
    assert(vertex_model(spec_identity(), 23).position.x.num == 32);
    assert(vertex_model(spec_identity(), 23).position.y.num == 32);
    assert(vertex_model(spec_identity(), 23).position.z.num == -32);
    assert(identity_x_num_sum(24) == 0);
    assert(identity_y_num_sum(24) == 0);
    assert(identity_z_num_sum(24) == 0);
    lemma_identity_vertex_position(24);
    assert(vertex_model(spec_identity(), 24).position.x.num == 32);
    assert(vertex_model(spec_identity(), 24).position.y.num == -32);
    assert(vertex_model(spec_identity(), 24).position.z.num == -32);
    assert(identity_x_num_sum(25) == 32);
    assert(identity_y_num_sum(25) == -32);
    assert(identity_z_num_sum(25) == -32);
    lemma_identity_vertex_position(25);
    assert(vertex_model(spec_identity(), 25).position.x.num == -32);
    assert(vertex_model(spec_identity(), 25).position.y.num == -32);
    assert(vertex_model(spec_identity(), 25).position.z.num == -32);
    assert(identity_x_num_sum(26) == 0);
    assert(identity_y_num_sum(26) == -64);
    assert(identity_z_num_sum(26) == -64);
    lemma_identity_vertex_position(26);
    assert(vertex_model(spec_identity(), 26).position.x.num == 32);
    assert(vertex_model(spec_identity(), 26).position.y.num == 32);
    assert(vertex_model(spec_identity(), 26).position.z.num == -32);
    assert(identity_x_num_sum(27) == 32);
    assert(identity_y_num_sum(27) == -32);
    assert(identity_z_num_sum(27) == -96);
    lemma_identity_vertex_position(27);
    assert(vertex_model(spec_identity(), 27).position.x.num == 32);
    assert(vertex_model(spec_identity(), 27).position.y.num == 32);
    assert(vertex_model(spec_identity(), 27).position.z.num == -32);
    assert(identity_x_num_sum(28) == 64);
    assert(identity_y_num_sum(28) == 0);
    assert(identity_z_num_sum(28) == -128);
    lemma_identity_vertex_position(28);
    assert(vertex_model(spec_identity(), 28).position.x.num == -32);
    assert(vertex_model(spec_identity(), 28).position.y.num == -32);
    assert(vertex_model(spec_identity(), 28).position.z.num == -32);
    assert(identity_x_num_sum(29) == 32);
    assert(identity_y_num_sum(29) == -32);
    assert(identity_z_num_sum(29) == -160);
    lemma_identity_vertex_position(29);
    assert(vertex_model(spec_identity(), 29).position.x.num == -32);
    assert(vertex_model(spec_identity(), 29).position.y.num == 32);
    assert(vertex_model(spec_identity(), 29).position.z.num == -32);
    assert(identity_x_num_sum(30) == 0);
    assert(identity_y_num_sum(30) == 0);
    assert(identity_z_num_sum(30) == -192);
    lemma_identity_vertex_position(30);
    assert(vertex_model(spec_identity(), 30).position.x.num == -32);
    assert(vertex_model(spec_identity(), 30).position.y.num == -32);
    assert(vertex_model(spec_identity(), 30).position.z.num == 32);
    assert(identity_x_num_sum(31) == -32);
    assert(identity_y_num_sum(31) == -32);
    assert(identity_z_num_sum(31) == -160);
    lemma_identity_vertex_position(31);
    assert(vertex_model(spec_identity(), 31).position.x.num == 32);
    assert(vertex_model(spec_identity(), 31).position.y.num == -32);
    assert(vertex_model(spec_identity(), 31).position.z.num == 32);
    assert(identity_x_num_sum(32) == 0);
    assert(identity_y_num_sum(32) == -64);
    assert(identity_z_num_sum(32) == -128);
    lemma_identity_vertex_position(32);
    assert(vertex_model(spec_identity(), 32).position.x.num == -32);
    assert(vertex_model(spec_identity(), 32).position.y.num == 32);
    assert(vertex_model(spec_identity(), 32).position.z.num == 32);
    assert(identity_x_num_sum(33) == -32);
    assert(identity_y_num_sum(33) == -32);
    assert(identity_z_num_sum(33) == -96);
    lemma_identity_vertex_position(33);
    assert(vertex_model(spec_identity(), 33).position.x.num == -32);
    assert(vertex_model(spec_identity(), 33).position.y.num == 32);
    assert(vertex_model(spec_identity(), 33).position.z.num == 32);
    assert(identity_x_num_sum(34) == -64);
    assert(identity_y_num_sum(34) == 0);
    assert(identity_z_num_sum(34) == -64);
    lemma_identity_vertex_position(34);
    assert(vertex_model(spec_identity(), 34).position.x.num == 32);
    assert(vertex_model(spec_identity(), 34).position.y.num == -32);
    assert(vertex_model(spec_identity(), 34).position.z.num == 32);
    assert(identity_x_num_sum(35) == -32);
    assert(identity_y_num_sum(35) == -32);
    assert(identity_z_num_sum(35) == -32);
    lemma_identity_vertex_position(35);
    assert(vertex_model(spec_identity(), 35).position.x.num == 32);
    assert(vertex_model(spec_identity(), 35).position.y.num == 32);
    assert(vertex_model(spec_identity(), 35).position.z.num == 32);
    assert(identity_x_num_sum(36) == 0);
    assert(identity_y_num_sum(36) == 0);
    assert(identity_z_num_sum(36) == 0);
}


} // verus!
