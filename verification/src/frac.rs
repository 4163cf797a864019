//! Exact rational scalars.
//!
//! Every scalar the mesh generator touches is a rational number held as a
//! numerator/denominator pair of machine integers. Arithmetic keeps results
//! exact; each operation carries a precondition saying that the resulting
//! pair still fits in the machine integers, which is the only limit the
//! representation imposes.

use vstd::prelude::*;

verus! {

/// An exact rational number `num / den`. Well-formed values keep `den > 0`.
#[derive(Clone, Copy, PartialEq, Eq, Structural, Debug)]
pub struct Frac {
    pub num: i64,
    pub den: i64,
}

/// `x` fits in an `i64`.
pub open spec fn in64(x: int) -> bool {
    i64::MIN <= x <= i64::MAX
}

impl Frac {
    /// The denominator is positive, so the pair denotes a rational number
    /// and comparisons by cross-multiplication are meaningful.
    pub open spec fn wf(self) -> bool {
        self.den > 0
    }

    /// `self` and `other` denote the same rational number
    /// (cross-multiplication; both sides well-formed).
    pub open spec fn eqv(self, other: Frac) -> bool {
        self.num * other.den == other.num * self.den
    }

    /// The denoted number is zero.
    pub open spec fn is_zero(self) -> bool {
        self.num == 0
    }
}

/// The rational zero.
pub open spec fn spec_zero() -> Frac {
    Frac { num: 0, den: 1 }
}

/// The rational one.
pub open spec fn spec_one() -> Frac {
    Frac { num: 1, den: 1 }
}

/// The product of `a` and `b` fits in the representation.
pub open spec fn mul_fits(a: Frac, b: Frac) -> bool {
    in64(a.num * b.num) && in64(a.den * b.den)
}

/// The exact product of `a` and `b` (meaningful when `mul_fits(a, b)`).
pub open spec fn spec_mul(a: Frac, b: Frac) -> Frac {
    Frac { num: (a.num * b.num) as i64, den: (a.den * b.den) as i64 }
}

/// The sum of `a` and `b` fits in the representation.
pub open spec fn add_fits(a: Frac, b: Frac) -> bool {
    in64(a.num * b.den) && in64(b.num * a.den) && in64(a.num * b.den + b.num * a.den)
        && in64(a.den * b.den)
}

/// The exact sum of `a` and `b` (meaningful when `add_fits(a, b)`).
pub open spec fn spec_add(a: Frac, b: Frac) -> Frac {
    Frac {
        num: (a.num * b.den + b.num * a.den) as i64,
        den: (a.den * b.den) as i64,
    }
}

/// The difference of `a` and `b` fits in the representation.
pub open spec fn sub_fits(a: Frac, b: Frac) -> bool {
    in64(a.num * b.den) && in64(b.num * a.den) && in64(a.num * b.den - b.num * a.den)
        && in64(a.den * b.den)
}

/// The exact difference `a - b` (meaningful when `sub_fits(a, b)`).
pub open spec fn spec_sub(a: Frac, b: Frac) -> Frac {
    Frac {
        num: (a.num * b.den - b.num * a.den) as i64,
        den: (a.den * b.den) as i64,
    }
}

/// The negation of `a` fits in the representation.
pub open spec fn neg_fits(a: Frac) -> bool {
    in64(-a.num)
}

/// The exact negation of `a`.
pub open spec fn spec_neg(a: Frac) -> Frac {
    Frac { num: (-a.num) as i64, den: a.den }
}

/// The quotient of `a` by `b` fits in the representation.
pub open spec fn div_fits(a: Frac, b: Frac) -> bool {
    in64(a.num * b.den) && in64(a.den * b.num) && in64(-(a.num * b.den)) && in64(
        -(a.den * b.num),
    )
}

/// The exact quotient `a / b` (meaningful when `b` is well-formed,
/// `!b.is_zero()` and `div_fits(a, b)`); the sign of `b`'s numerator is
/// folded in so the result stays well-formed.
pub open spec fn spec_div(a: Frac, b: Frac) -> Frac {
    if b.num >= 0 {
        Frac { num: (a.num * b.den) as i64, den: (a.den * b.num) as i64 }
    } else {
        Frac { num: (-(a.num * b.den)) as i64, den: (-(a.den * b.num)) as i64 }
    }
}

/// The absolute value of `a` (meaningful when `in64(-a.num)`).
pub open spec fn spec_abs(a: Frac) -> Frac {
    Frac { num: if a.num < 0 { (-a.num) as i64 } else { a.num }, den: a.den }
}

/// The product of two positive integers is positive.
pub proof fn lemma_pos_mul(a: int, b: int)
    by (nonlinear_arith)
    requires
        a > 0,
        b > 0,
    ensures
        a * b > 0,
{
}

/// Multiplication respects equality: products of equal factors are equal.
pub proof fn lemma_mul_ints(x: int, y: int, vx: int, vy: int)
    by (nonlinear_arith)
    requires
        x == vx,
        y == vy,
    ensures
        x * y == vx * vy,
{
}

/// Bounded factors give a bounded product.
pub proof fn lemma_small_product(x: int, y: int)
    by (nonlinear_arith)
    requires
        -1000000 <= x <= 1000000,
        -1000000 <= y <= 1000000,
    ensures
        -1000000000000 <= x * y <= 1000000000000,
{
}

/// Evaluates `spec_mul` once the factors' fields are known and small.
pub proof fn lemma_mul_eval(a: Frac, b: Frac, an: int, ad: int, bn: int, bd: int)
    requires
        a.num == an,
        a.den == ad,
        b.num == bn,
        b.den == bd,
        -1000000 <= an <= 1000000,
        -1000000 <= ad <= 1000000,
        -1000000 <= bn <= 1000000,
        -1000000 <= bd <= 1000000,
    ensures
        spec_mul(a, b).num == an * bn,
        spec_mul(a, b).den == ad * bd,
{
    lemma_small_product(an, bn);
    lemma_small_product(ad, bd);
    lemma_mul_ints(a.num as int, b.num as int, an, bn);
    lemma_mul_ints(a.den as int, b.den as int, ad, bd);
}

/// Evaluates `spec_add` once the addends' fields are known.
pub proof fn lemma_add_eval(a: Frac, b: Frac, an: int, ad: int, bn: int, bd: int)
    requires
        a.num == an,
        a.den == ad,
        b.num == bn,
        b.den == bd,
        -1000000 <= an <= 1000000,
        -1000000 <= ad <= 1000000,
        -1000000 <= bn <= 1000000,
        -1000000 <= bd <= 1000000,
    ensures
        spec_add(a, b).num == an * bd + bn * ad,
        spec_add(a, b).den == ad * bd,
{
    lemma_small_product(an, bd);
    lemma_small_product(bn, ad);
    lemma_small_product(ad, bd);
    lemma_mul_ints(a.num as int, b.den as int, an, bd);
    lemma_mul_ints(b.num as int, a.den as int, bn, ad);
    lemma_mul_ints(a.den as int, b.den as int, ad, bd);
}

/// Evaluates `spec_sub` once the operands' fields are known.
pub proof fn lemma_sub_eval(a: Frac, b: Frac, an: int, ad: int, bn: int, bd: int)
    requires
        a.num == an,
        a.den == ad,
        b.num == bn,
        b.den == bd,
        -1000000 <= an <= 1000000,
        -1000000 <= ad <= 1000000,
        -1000000 <= bn <= 1000000,
        -1000000 <= bd <= 1000000,
    ensures
        spec_sub(a, b).num == an * bd - bn * ad,
        spec_sub(a, b).den == ad * bd,
{
    lemma_small_product(an, bd);
    lemma_small_product(bn, ad);
    lemma_small_product(ad, bd);
    lemma_mul_ints(a.num as int, b.den as int, an, bd);
    lemma_mul_ints(b.num as int, a.den as int, bn, ad);
    lemma_mul_ints(a.den as int, b.den as int, ad, bd);
}

/// Evaluates `spec_neg` once the operand's fields are known.
pub proof fn lemma_neg_eval(a: Frac, an: int)
    requires
        a.num == an,
        -1000000 <= an <= 1000000,
    ensures
        spec_neg(a).num == -an,
        spec_neg(a).den == a.den,
{
}

/// Evaluates `spec_div` for a divisor of positive numerator, once the
/// operands' fields are known.
pub proof fn lemma_div_eval(a: Frac, b: Frac, an: int, ad: int, bn: int, bd: int)
    requires
        a.num == an,
        a.den == ad,
        b.num == bn,
        b.den == bd,
        bn > 0,
        -1000000 <= an <= 1000000,
        -1000000 <= ad <= 1000000,
        -1000000 <= bn <= 1000000,
        -1000000 <= bd <= 1000000,
    ensures
        spec_div(a, b).num == an * bd,
        spec_div(a, b).den == ad * bn,
{
    lemma_small_product(an, bd);
    lemma_small_product(ad, bn);
    lemma_mul_ints(a.num as int, b.den as int, an, bd);
    lemma_mul_ints(a.den as int, b.num as int, ad, bn);
}

/// The product of a positive and a negative integer is negative.
pub proof fn lemma_pos_neg_mul(a: int, b: int)
    by (nonlinear_arith)
    requires
        a > 0,
        b < 0,
    ensures
        a * b < 0,
{
}

impl Frac {
    /// Build the rational `num / den`.
    pub fn new(num: i64, den: i64) -> (r: Frac)
        requires
            den > 0,
        ensures
            r == (Frac { num, den }),
            r.wf(),
    {
        Frac { num, den }
    }

    /// Build the rational `n / 1`.
    pub fn from_int(n: i64) -> (r: Frac)
        ensures
            r == (Frac { num: n, den: 1 }),
            r.wf(),
    {
        Frac { num: n, den: 1 }
    }

    /// The rational zero.
    pub fn zero() -> (r: Frac)
        ensures
            r == spec_zero(),
            r.wf(),
    {
        Frac { num: 0, den: 1 }
    }

    /// The rational one.
    pub fn one() -> (r: Frac)
        ensures
            r == spec_one(),
            r.wf(),
    {
        Frac { num: 1, den: 1 }
    }
}

/// Exact product.
pub fn fmul(a: Frac, b: Frac) -> (r: Frac)
    requires
        a.wf(),
        b.wf(),
        mul_fits(a, b),
    ensures
        r == spec_mul(a, b),
        r.wf(),
{
    proof {
        lemma_pos_mul(a.den as int, b.den as int);
    }
    Frac { num: a.num * b.num, den: a.den * b.den }
}

/// Exact sum.
pub fn fadd(a: Frac, b: Frac) -> (r: Frac)
    requires
        a.wf(),
        b.wf(),
        add_fits(a, b),
    ensures
        r == spec_add(a, b),
        r.wf(),
{
    proof {
        lemma_pos_mul(a.den as int, b.den as int);
    }
    Frac { num: a.num * b.den + b.num * a.den, den: a.den * b.den }
}

/// Exact difference.
pub fn fsub(a: Frac, b: Frac) -> (r: Frac)
    requires
        a.wf(),
        b.wf(),
        sub_fits(a, b),
    ensures
        r == spec_sub(a, b),
        r.wf(),
{
    proof {
        lemma_pos_mul(a.den as int, b.den as int);
    }
    Frac { num: a.num * b.den - b.num * a.den, den: a.den * b.den }
}

/// Exact negation.
pub fn fneg(a: Frac) -> (r: Frac)
    requires
        a.wf(),
        neg_fits(a),
    ensures
        r == spec_neg(a),
        r.wf(),
{
    Frac { num: -a.num, den: a.den }
}

/// Exact quotient; the divisor must denote a non-zero number.
pub fn fdiv(a: Frac, b: Frac) -> (r: Frac)
    requires
        a.wf(),
        b.wf(),
        !b.is_zero(),
        div_fits(a, b),
    ensures
        r == spec_div(a, b),
        r.wf(),
{
    if b.num >= 0 {
        proof {
            lemma_pos_mul(a.den as int, b.num as int);
        }
        Frac { num: a.num * b.den, den: a.den * b.num }
    } else {
        proof {
            lemma_pos_neg_mul(a.den as int, b.num as int);
        }
        let n = a.num * b.den;
        let d = a.den * b.num;
        Frac { num: -n, den: -d }
    }
}

} // verus!
