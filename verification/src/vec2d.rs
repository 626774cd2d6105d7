//! Two-dimensional vectors over fixed-point scalars.
//!
//! Supports addition, subtraction, scaling, dot and cross products, the
//! perpendicular, unit normalization and lengths, plus the intersection
//! point of two infinite lines. Every operation is total and returns
//! exactly what its specification function states.

use vstd::prelude::*;

use crate::fx::{
    fx_add, fx_div, fx_len, fx_mul, fx_neg, fx_sub, spec_fx_add, spec_fx_div, spec_fx_len,
    spec_fx_mul, spec_fx_neg, spec_fx_sub, FX_ONE,
};

verus! {

/// A point or displacement in the plane, in fixed-point ticks.
#[derive(Clone, Copy, PartialEq, Eq, Structural, Debug)]
pub struct Vec2D {
    pub x: i64,
    pub y: i64,
}

impl Vec2D {
    /// The vector with the given coordinates.
    pub open spec fn spec_new(x: i64, y: i64) -> Vec2D {
        Vec2D { x, y }
    }

    /// The vector with the given coordinates.
    #[verifier::when_used_as_spec(spec_new)]
    pub fn new(x: i64, y: i64) -> (r: Vec2D)
        ensures
            r == Vec2D::spec_new(x, y),
    {
        Vec2D { x, y }
    }

    /// Componentwise saturating sum.
    pub open spec fn spec_add(self, other: Vec2D) -> Vec2D {
        Vec2D { x: spec_fx_add(self.x, other.x), y: spec_fx_add(self.y, other.y) }
    }

    /// Componentwise saturating sum.
    #[verifier::when_used_as_spec(spec_add)]
    pub fn add(self, other: Vec2D) -> (r: Vec2D)
        ensures
            r == self.spec_add(other),
    {
        Vec2D { x: fx_add(self.x, other.x), y: fx_add(self.y, other.y) }
    }

    /// Componentwise saturating difference.
    pub open spec fn spec_sub(self, other: Vec2D) -> Vec2D {
        Vec2D { x: spec_fx_sub(self.x, other.x), y: spec_fx_sub(self.y, other.y) }
    }

    /// Componentwise saturating difference.
    #[verifier::when_used_as_spec(spec_sub)]
    pub fn sub(self, other: Vec2D) -> (r: Vec2D)
        ensures
            r == self.spec_sub(other),
    {
        Vec2D { x: fx_sub(self.x, other.x), y: fx_sub(self.y, other.y) }
    }

    /// Both components scaled by the fixed-point factor `n`.
    pub open spec fn spec_mul_n(self, n: i64) -> Vec2D {
        Vec2D { x: spec_fx_mul(self.x, n), y: spec_fx_mul(self.y, n) }
    }

    /// Both components scaled by the fixed-point factor `n`.
    #[verifier::when_used_as_spec(spec_mul_n)]
    pub fn mul_n(self, n: i64) -> (r: Vec2D)
        ensures
            r == self.spec_mul_n(n),
    {
        Vec2D { x: fx_mul(self.x, n), y: fx_mul(self.y, n) }
    }

    /// Dot product `a.x * b.x + a.y * b.y` in fixed point.
    pub open spec fn spec_dot(a: Vec2D, b: Vec2D) -> i64 {
        spec_fx_add(spec_fx_mul(a.x, b.x), spec_fx_mul(a.y, b.y))
    }

    /// Dot product `a.x * b.x + a.y * b.y` in fixed point.
    pub fn dot(a: &Vec2D, b: &Vec2D) -> (r: i64)
        ensures
            r == Vec2D::spec_dot(*a, *b),
    {
        fx_add(fx_mul(a.x, b.x), fx_mul(a.y, b.y))
    }

    /// Scalar cross product `a.x * b.y - a.y * b.x`, twice the signed
    /// area of the triangle the two vectors span.
    pub open spec fn spec_cross(a: Vec2D, b: Vec2D) -> i64 {
        spec_fx_sub(spec_fx_mul(a.x, b.y), spec_fx_mul(a.y, b.x))
    }

    /// Scalar cross product `a.x * b.y - a.y * b.x`.
    pub fn cross(a: &Vec2D, b: &Vec2D) -> (r: i64)
        ensures
            r == Vec2D::spec_cross(*a, *b),
    {
        fx_sub(fx_mul(a.x, b.y), fx_mul(a.y, b.x))
    }

    /// The perpendicular `(-y, x)`: `self` rotated a quarter turn toward
    /// positive winding.
    pub open spec fn spec_normal(self) -> Vec2D {
        Vec2D { x: spec_fx_neg(self.y), y: self.x }
    }

    /// The perpendicular `(-y, x)`.
    #[verifier::when_used_as_spec(spec_normal)]
    pub fn normal(self) -> (r: Vec2D)
        ensures
            r == self.spec_normal(),
    {
        Vec2D { x: fx_neg(self.y), y: self.x }
    }

    /// Distance between `self` and `other` read as points.
    pub open spec fn spec_len_vector(&self, other: &Vec2D) -> i64 {
        spec_fx_len(spec_fx_sub(self.x, other.x), spec_fx_sub(self.y, other.y))
    }

    /// Distance between `self` and `other` read as points.
    #[verifier::when_used_as_spec(spec_len_vector)]
    pub fn len_vector(&self, other: &Vec2D) -> (r: i64)
        ensures
            r == self.spec_len_vector(other),
    {
        fx_len(fx_sub(self.x, other.x), fx_sub(self.y, other.y))
    }

    /// `self` scaled to length `FX_ONE` by dividing each component by the
    /// truncated length. The zero vector has no direction and is returned
    /// unchanged: callers that need a true unit vector must rule it out.
    pub open spec fn spec_unit(self) -> Vec2D {
        let len = spec_fx_len(self.x, self.y);
        if len == 0 {
            Vec2D { x: 0, y: 0 }
        } else {
            Vec2D { x: spec_fx_div(self.x, len), y: spec_fx_div(self.y, len) }
        }
    }

    /// `self` scaled to length `FX_ONE`; the zero vector stays zero.
    #[verifier::when_used_as_spec(spec_unit)]
    pub fn unit(self) -> (r: Vec2D)
        ensures
            r == self.spec_unit(),
    {
        let len = fx_len(self.x, self.y);
        if len == 0 {
            Vec2D { x: 0, y: 0 }
        } else {
            Vec2D { x: fx_div(self.x, len), y: fx_div(self.y, len) }
        }
    }

    /// Intersection of the infinite line through `p1` and `p2` with the
    /// infinite line through `p3` and `p4`: `None` when the direction
    /// vectors have zero cross product (parallel or degenerate lines),
    /// otherwise the point `p1 + (p2 - p1) * t` for the fixed-point
    /// parameter `t = cross(p3 - p1, p4 - p3) / cross(p2 - p1, p4 - p3)`.
    pub open spec fn spec_cross_pointll(p1: Vec2D, p2: Vec2D, p3: Vec2D, p4: Vec2D) -> Option<
        Vec2D,
    > {
        let d1 = p2.spec_sub(p1);
        let d2 = p4.spec_sub(p3);
        let denominator = Vec2D::spec_cross(d1, d2);
        if denominator == 0 {
            None
        } else {
            let t = spec_fx_div(Vec2D::spec_cross(p3.spec_sub(p1), d2), denominator);
            Some(p1.spec_add(d1.spec_mul_n(t)))
        }
    }

    /// Intersection point of two infinite lines given by point pairs.
    pub fn cross_pointll(p1: Vec2D, p2: Vec2D, p3: Vec2D, p4: Vec2D) -> (r: Option<Vec2D>)
        ensures
            r == Vec2D::spec_cross_pointll(p1, p2, p3, p4),
    {
        let d1 = p2.sub(p1);
        let d2 = p4.sub(p3);
        let denominator = Vec2D::cross(&d1, &d2);
        if denominator == 0 {
            None
        } else {
            let t = fx_div(Vec2D::cross(&p3.sub(p1), &d2), denominator);
            Some(p1.add(d1.mul_n(t)))
        }
    }
}

/// The floor square root of one component's contribution never exceeds
/// what the exact quotient contributes.
proof fn lemma_unit_component(x: i64, len: i64)
    requires
        len >= FX_ONE,
        len < 2199023255552,
        crate::fx::abs1(x as int) <= 1099511627776,
    ensures
        crate::fx::spec_fx_div(x, len) as int == crate::fx::trunc_div(
            x as int * (FX_ONE as int),
            len as int,
        ),
        crate::fx::abs1(spec_fx_div(x, len) as int) * (len as int) <= crate::fx::abs1(x as int) * (
        FX_ONE as int),
        (crate::fx::abs1(spec_fx_div(x, len) as int) + 1) * (len as int) > crate::fx::abs1(
            x as int,
        ) * (FX_ONE as int),
{
    let scaled = x as int * (FX_ONE as int);
    crate::fx::lemma_mag_product(x as int, FX_ONE as int);
    assert(crate::fx::abs1(scaled) == crate::fx::abs1(x as int) * (FX_ONE as int));
    assert(crate::fx::abs1(scaled) <= 1099511627776 * (FX_ONE as int)) by (nonlinear_arith)
        requires
            crate::fx::abs1(scaled) == crate::fx::abs1(x as int) * (FX_ONE as int),
            crate::fx::abs1(x as int) <= 1099511627776,
    ;
    crate::fx::lemma_trunc_div_bound(scaled, len as int, 1099511627776 * (FX_ONE as int));
    assert(1099511627776 * (FX_ONE as int) <= 1099511627776 * (len as int)) by (nonlinear_arith)
        requires len >= FX_ONE;
    crate::fx::lemma_trunc_div_bound(scaled, len as int, 1099511627776);
    crate::fx::lemma_trunc_div_mag(scaled, len as int);
    let quotient = crate::fx::abs1(scaled) / (len as int);
    vstd::arithmetic::div_mod::lemma_fundamental_div_mod(crate::fx::abs1(scaled), len as int);
    assert(quotient * (len as int) <= crate::fx::abs1(scaled));
    assert((quotient + 1) * (len as int) > crate::fx::abs1(scaled)) by (nonlinear_arith)
        requires
            crate::fx::abs1(scaled) == (len as int) * quotient + crate::fx::abs1(scaled) % (
            len as int),
            crate::fx::abs1(scaled) % (len as int) < len as int,
    ;
    assert(crate::fx::abs1(crate::fx::trunc_div(scaled, len as int)) == quotient);
}

/// Normalizing a vector at least one unit long yields a vector whose
/// length is the fixed-point unit to within three ticks: `unit`
/// preserves direction and pins the length at `FX_ONE` up to the
/// quantization of its two truncated divisions. Vectors shorter than a
/// unit lose too much to quantization for any such bound.
pub proof fn lemma_unit_length(v: Vec2D)
    requires
        v.x * v.x + v.y * v.y >= (FX_ONE as int) * (FX_ONE as int),
        crate::fx::abs1(v.x as int) <= 1099511627776,
        crate::fx::abs1(v.y as int) <= 1099511627776,
    ensures
        FX_ONE - 3 <= spec_fx_len(v.spec_unit().x, v.spec_unit().y) <= FX_ONE,
{
    let one = FX_ONE as int;
    let sq = v.x as int * v.x as int + v.y as int * v.y as int;
    crate::fx::lemma_mag_product(v.x as int, v.x as int);
    crate::fx::lemma_mag_product(v.y as int, v.y as int);
    assert(sq <= 2417851639229258349412352) by (nonlinear_arith)
        requires
            sq == v.x as int * v.x as int + v.y as int * v.y as int,
            crate::fx::abs1(v.x as int) <= 1099511627776,
            crate::fx::abs1(v.y as int) <= 1099511627776,
            crate::fx::abs1(v.x as int * v.x as int) == crate::fx::abs1(v.x as int) * crate::fx::abs1(v.x as int),
            crate::fx::abs1(v.y as int * v.y as int) == crate::fx::abs1(v.y as int) * crate::fx::abs1(v.y as int),
    ;
    crate::fx::lemma_sqrt_floor_bounds(sq);
    let len = crate::fx::sqrt_floor(sq);
    assert(len >= one) by (nonlinear_arith)
        requires
            sq >= one * one,
            len >= 0,
            sq < (len + 1) * (len + 1),
            one > 0,
    ;
    assert(len < 2199023255552) by (nonlinear_arith)
        requires
            len * len <= sq,
            sq <= 2417851639229258349412352,
            len >= 0,
    ;
    assert(spec_fx_len(v.x, v.y) == len);
    let ux = spec_fx_div(v.x, len as i64);
    let uy = spec_fx_div(v.y, len as i64);
    assert(v.spec_unit() == (Vec2D { x: ux, y: uy }));
    lemma_unit_component(v.x, len as i64);
    lemma_unit_component(v.y, len as i64);
    let mx = crate::fx::abs1(ux as int);
    let my = crate::fx::abs1(uy as int);
    let t = ux as int * ux as int + uy as int * uy as int;
    crate::fx::lemma_mag_product(ux as int, ux as int);
    crate::fx::lemma_mag_product(uy as int, uy as int);

    // Upper bound: each truncated component is at most the exact one.
    assert(mx * mx * (len * len) <= (v.x as int * v.x as int) * (one * one)) by (nonlinear_arith)
        requires
            mx * len <= crate::fx::abs1(v.x as int) * one,
            mx >= 0,
            len > 0,
            crate::fx::abs1(v.x as int) * crate::fx::abs1(v.x as int) == v.x as int * v.x as int,
            crate::fx::abs1(v.x as int) >= 0,
    ;
    assert(my * my * (len * len) <= (v.y as int * v.y as int) * (one * one)) by (nonlinear_arith)
        requires
            my * len <= crate::fx::abs1(v.y as int) * one,
            my >= 0,
            len > 0,
            crate::fx::abs1(v.y as int) * crate::fx::abs1(v.y as int) == v.y as int * v.y as int,
            crate::fx::abs1(v.y as int) >= 0,
    ;
    assert(t * (len * len) <= sq * (one * one)) by (nonlinear_arith)
        requires
            mx * mx * (len * len) <= (v.x as int * v.x as int) * (one * one),
            my * my * (len * len) <= (v.y as int * v.y as int) * (one * one),
            t == mx * mx + my * my,
            sq == v.x as int * v.x as int + v.y as int * v.y as int,
    ;
    assert(sq * (one * one) <= (len * len + 2 * len) * (one * one)) by (nonlinear_arith)
        requires
            sq < (len + 1) * (len + 1),
            one > 0,
    ;
    assert(t <= one * one + 2 * one) by (nonlinear_arith)
        requires
            t * (len * len) <= (len * len + 2 * len) * (one * one),
            len >= one,
            one > 0,
    ;

    // Lower bound: each truncated component misses by less than one.
    assert((mx + 1) * (mx + 1) * (len * len) > (v.x as int * v.x as int) * (one * one))
        by (nonlinear_arith)
        requires
            (mx + 1) * len > crate::fx::abs1(v.x as int) * one,
            mx >= 0,
            len > 0,
            crate::fx::abs1(v.x as int) * crate::fx::abs1(v.x as int) == v.x as int * v.x as int,
            crate::fx::abs1(v.x as int) >= 0,
            one > 0,
    ;
    assert((my + 1) * (my + 1) * (len * len) > (v.y as int * v.y as int) * (one * one))
        by (nonlinear_arith)
        requires
            (my + 1) * len > crate::fx::abs1(v.y as int) * one,
            my >= 0,
            len > 0,
            crate::fx::abs1(v.y as int) * crate::fx::abs1(v.y as int) == v.y as int * v.y as int,
            crate::fx::abs1(v.y as int) >= 0,
            one > 0,
    ;
    assert(((mx + 1) * (mx + 1) + (my + 1) * (my + 1)) * (len * len) > (len * len) * (one * one))
        by (nonlinear_arith)
        requires
            (mx + 1) * (mx + 1) * (len * len) > (v.x as int * v.x as int) * (one * one),
            (my + 1) * (my + 1) * (len * len) > (v.y as int * v.y as int) * (one * one),
            sq == v.x as int * v.x as int + v.y as int * v.y as int,
            sq >= len * len,
            one > 0,
            len > 0,
    ;
    assert((mx + 1) * (mx + 1) + (my + 1) * (my + 1) > one * one) by (nonlinear_arith)
        requires
            ((mx + 1) * (mx + 1) + (my + 1) * (my + 1)) * (len * len) > (len * len) * (one * one),
            len > 0,
    ;
    assert(mx <= one) by (nonlinear_arith)
        requires
            mx * mx <= t,
            t <= one * one + 2 * one,
            mx >= 0,
            one > 0,
    ;
    assert(my <= one) by (nonlinear_arith)
        requires
            my * my <= t,
            t <= one * one + 2 * one,
            my >= 0,
            one > 0,
    ;
    assert(t > one * one - 2 * mx - 2 * my - 2) by (nonlinear_arith)
        requires
            (mx + 1) * (mx + 1) + (my + 1) * (my + 1) > one * one,
            t == mx * mx + my * my,
    ;
    assert(t >= (one - 3) * (one - 3)) by (nonlinear_arith)
        requires
            t > one * one - 4 * one - 2,
            one >= 10,
    ;

    // Squeeze the final square root.
    crate::fx::lemma_sqrt_floor_bounds(t);
    let reported = crate::fx::sqrt_floor(t);
    assert(reported <= one) by (nonlinear_arith)
        requires
            reported * reported <= t,
            t <= one * one + 2 * one,
            reported >= 0,
            one > 0,
    ;
    assert(reported >= one - 3) by (nonlinear_arith)
        requires
            t < (reported + 1) * (reported + 1),
            t >= (one - 3) * (one - 3),
            reported >= 0,
            one > 3,
    ;
    assert(spec_fx_len(ux, uy) == reported);
}

impl Default for Vec2D {
    /// The zero vector.
    fn default() -> (r: Self)
        ensures
            r == (Vec2D { x: 0, y: 0 }),
    {
        Vec2D { x: 0, y: 0 }
    }
}

} // verus!
