//! Fixed-point scalar arithmetic.
//!
//! A quantity is an `i64` counting ticks of `1 / FX_ONE` of a unit.
//! Multiplication and division rescale by [`FX_ONE`] and truncate toward
//! zero; every operation saturates at the `i64` range instead of wrapping,
//! the fixed-point counterpart of a binary float overflowing toward its
//! largest magnitudes. Each executable operation returns exactly the value
//! of its specification function, so callers can reason about results
//! without tolerance.

use vstd::prelude::*;

verus! {

/// Ticks per unit: quantities carry 20 fractional bits.
pub const FX_ONE: i64 = 1048576;

/// The mathematical value, pulled back into the representable range.
pub open spec fn clamp64(n: int) -> int {
    if n > i64::MAX {
        i64::MAX as int
    } else if n < i64::MIN {
        i64::MIN as int
    } else {
        n
    }
}

/// Quotient of `x` by `d`, rounded toward zero (the rounding that machine
/// division performs), written with Euclidean `/` on magnitudes.
pub open spec fn trunc_div(x: int, d: int) -> int {
    if x == 0 {
        0
    } else if x > 0 && d > 0 {
        x / d
    } else if x < 0 && d < 0 {
        (x * -1) / (d * -1)
    } else if x < 0 {
        ((x * -1) / d) * -1
    } else {
        (x / (d * -1)) * -1
    }
}

/// Saturating sum.
pub open spec fn spec_fx_add(a: i64, b: i64) -> i64 {
    clamp64(a + b) as i64
}

/// Saturating difference.
pub open spec fn spec_fx_sub(a: i64, b: i64) -> i64 {
    clamp64(a - b) as i64
}

/// Saturating negation.
pub open spec fn spec_fx_neg(a: i64) -> i64 {
    clamp64(-a) as i64
}

/// Fixed-point product: the exact product rescaled by `FX_ONE`, truncated
/// toward zero, then saturated.
pub open spec fn spec_fx_mul(a: i64, b: i64) -> i64 {
    clamp64(trunc_div(a * b, FX_ONE as int)) as i64
}

/// Fixed-point quotient: `a / b` carried to `FX_ONE` scale, truncated
/// toward zero, then saturated. A zero divisor saturates toward the sign
/// of `a`, the counterpart of a float quotient running to infinity.
pub open spec fn spec_fx_div(a: i64, b: i64) -> i64 {
    if b == 0 {
        if a > 0 {
            i64::MAX
        } else if a < 0 {
            i64::MIN
        } else {
            0
        }
    } else {
        clamp64(trunc_div(a * (FX_ONE as int), b as int)) as i64
    }
}

/// Half of `a`, truncated toward zero.
pub open spec fn spec_fx_half(a: i64) -> i64 {
    trunc_div(a as int, 2) as i64
}

/// The magnitude of `a` as a mathematical integer.
pub open spec fn abs1(a: int) -> int {
    if a >= 0 {
        a
    } else {
        -a
    }
}

/// Magnitude of an `i64`, exact even for the smallest value.
fn abs_u128(a: i64) -> (r: u128)
    ensures
        r == abs1(a as int),
{
    if a >= 0 {
        a as u128
    } else {
        (-(a as i128)) as u128
    }
}

/// Truncated division of a non-negative magnitude, re-signed and saturated.
fn signed_clamped(neg: bool, mag: u128) -> (r: i64)
    ensures
        neg ==> r == clamp64(-(mag as int)),
        !neg ==> r == clamp64(mag as int),
{
    if neg {
        if mag >= 9223372036854775808u128 {
            i64::MIN
        } else {
            (-(mag as i128)) as i64
        }
    } else {
        if mag > i64::MAX as u128 {
            i64::MAX
        } else {
            mag as i64
        }
    }
}

/// Saturating sum of two fixed-point quantities.
pub fn fx_add(a: i64, b: i64) -> (r: i64)
    ensures
        r == spec_fx_add(a, b),
{
    let wide: i128 = a as i128 + b as i128;
    if wide > i64::MAX as i128 {
        i64::MAX
    } else if wide < i64::MIN as i128 {
        i64::MIN
    } else {
        wide as i64
    }
}

/// Saturating difference of two fixed-point quantities.
pub fn fx_sub(a: i64, b: i64) -> (r: i64)
    ensures
        r == spec_fx_sub(a, b),
{
    let wide: i128 = a as i128 - b as i128;
    if wide > i64::MAX as i128 {
        i64::MAX
    } else if wide < i64::MIN as i128 {
        i64::MIN
    } else {
        wide as i64
    }
}

/// Saturating negation of a fixed-point quantity.
pub fn fx_neg(a: i64) -> (r: i64)
    ensures
        r == spec_fx_neg(a),
{
    if a == i64::MIN {
        i64::MAX
    } else {
        -a
    }
}

#[verifier::nonlinear]
pub proof fn lemma_mag_product(a: int, b: int)
    ensures
        abs1(a) * abs1(b) == abs1(a * b),
        a * b == 0 <==> (a == 0 || b == 0),
        (a > 0 && b > 0) || (a < 0 && b < 0) ==> a * b > 0,
        (a > 0 && b < 0) || (a < 0 && b > 0) ==> a * b < 0,
{
}

/// Truncated division on magnitudes agrees with `trunc_div` after re-signing.
pub proof fn lemma_trunc_div_mag(x: int, d: int)
    requires
        d != 0,
    ensures
        x * d >= 0 ==> trunc_div(x, d) == abs1(x) / abs1(d),
        x * d < 0 ==> trunc_div(x, d) == -(abs1(x) / abs1(d)),
        trunc_div(x, d) * abs1(d) <= abs1(x) * abs1(d),
{
    lemma_mag_product(x, d);
    assert(abs1(x) / abs1(d) >= 0) by (nonlinear_arith)
        requires abs1(x) >= 0 && abs1(d) > 0;
    assert(abs1(x) / abs1(d) <= abs1(x)) by (nonlinear_arith)
        requires abs1(x) >= 0 && abs1(d) > 0;
    assert(trunc_div(x, d) * abs1(d) <= abs1(x) * abs1(d)) by (nonlinear_arith)
        requires
            abs1(d) > 0,
            abs1(x) >= 0,
            trunc_div(x, d) <= abs1(x) / abs1(d) <= abs1(x),
    ;
}

/// Fixed-point product.
pub fn fx_mul(a: i64, b: i64) -> (r: i64)
    ensures
        r == spec_fx_mul(a, b),
{
    let neg = (a < 0) != (b < 0) && a != 0 && b != 0;
    let ua = abs_u128(a);
    let ub = abs_u128(b);
    proof {
        lemma_mag_product(a as int, b as int);
        lemma_trunc_div_mag(a as int * b as int, FX_ONE as int);
        assert(abs1(a as int) * abs1(b as int) < 0x100000000000000000000000000000000int)
            by (nonlinear_arith)
            requires
                0 <= abs1(a as int) < 0x10000000000000000int,
                0 <= abs1(b as int) < 0x10000000000000000int,
        ;
    }
    let mag = (ua * ub) / (FX_ONE as u128);
    signed_clamped(neg, mag)
}

/// Fixed-point quotient.
pub fn fx_div(a: i64, b: i64) -> (r: i64)
    ensures
        r == spec_fx_div(a, b),
{
    if b == 0 {
        if a > 0 {
            i64::MAX
        } else if a < 0 {
            i64::MIN
        } else {
            0
        }
    } else {
        let neg = (a < 0) != (b < 0) && a != 0;
        let ua = abs_u128(a);
        let ub = abs_u128(b);
        proof {
            lemma_mag_product(a as int, FX_ONE as int);
            lemma_mag_product(a as int * FX_ONE as int, b as int);
            lemma_trunc_div_mag(a as int * FX_ONE as int, b as int);
            assert(abs1(a as int) * (FX_ONE as int) < 0x100000000000000000000000000000000int)
                by (nonlinear_arith)
                requires 0 <= abs1(a as int) < 0x10000000000000000int,
            ;
            assert(abs1(a as int * FX_ONE as int) == abs1(a as int) * (FX_ONE as int));
        }
        let mag = (ua * (FX_ONE as u128)) / ub;
        signed_clamped(neg, mag)
    }
}

/// The largest `r >= 0` with `r * r <= n` (and `0` for negative `n`).
pub open spec fn sqrt_floor(n: int) -> int
    decreases n,
{
    if n <= 0 {
        0
    } else if (sqrt_floor(n - 1) + 1) * (sqrt_floor(n - 1) + 1) <= n {
        sqrt_floor(n - 1) + 1
    } else {
        sqrt_floor(n - 1)
    }
}

/// `sqrt_floor(n)` squares to at most `n`, and is the last integer to do so.
pub proof fn lemma_sqrt_floor_bounds(n: int)
    requires
        n >= 0,
    ensures
        sqrt_floor(n) >= 0,
        sqrt_floor(n) * sqrt_floor(n) <= n,
        n < (sqrt_floor(n) + 1) * (sqrt_floor(n) + 1),
    decreases n,
{
    if n > 0 {
        lemma_sqrt_floor_bounds(n - 1);
        let p = sqrt_floor(n - 1);
        if (p + 1) * (p + 1) <= n {
            assert((p + 1) * (p + 1) < (p + 2) * (p + 2)) by (nonlinear_arith)
                requires p >= 0;
        }
    }
}

/// Any integer in the squeeze is the floor square root.
pub proof fn lemma_sqrt_floor_unique(n: int, r: int)
    requires
        n >= 0,
        r >= 0,
        r * r <= n,
        n < (r + 1) * (r + 1),
    ensures
        r == sqrt_floor(n),
{
    lemma_sqrt_floor_bounds(n);
    let s = sqrt_floor(n);
    if r < s {
        assert((r + 1) * (r + 1) <= s * s) by (nonlinear_arith)
            requires 0 <= r + 1 <= s;
    }
    if s < r {
        assert((s + 1) * (s + 1) <= r * r) by (nonlinear_arith)
            requires 0 <= s + 1 <= r;
    }
}

/// Floor square root by bisection.
fn isqrt(n: u128) -> (r: u128)
    ensures
        r == sqrt_floor(n as int),
        r * r <= n,
{
    proof {
        lemma_sqrt_floor_bounds(n as int);
    }
    if n == 0 {
        proof {
            lemma_sqrt_floor_unique(0, 0);
        }
        return 0;
    }
    let mut lo: u128 = 0;
    let mut hi: u128 = 0x10000000000000000;
    while hi - lo > 1
        invariant
            lo < hi <= 0x10000000000000000,
            (lo as int) * (lo as int) <= n as int,
            (n as int) < (hi as int) * (hi as int),
        decreases hi - lo,
    {
        let mid = lo + (hi - lo) / 2;
        proof {
            assert((mid as int) * (mid as int) < 0x100000000000000000000000000000000int)
                by (nonlinear_arith)
                requires 0 <= mid as int <= 0xffffffffffffffffint;
        }
        if mid * mid <= n {
            lo = mid;
        } else {
            hi = mid;
        }
    }
    proof {
        lemma_sqrt_floor_unique(n as int, lo as int);
    }
    lo
}

/// Euclidean length of the vector `(x, y)`, saturated at the `i64` range.
pub open spec fn spec_fx_len(x: i64, y: i64) -> i64 {
    clamp64(sqrt_floor(x * x + y * y)) as i64
}

/// Length of the vector `(x, y)` in ticks.
pub fn fx_len(x: i64, y: i64) -> (r: i64)
    ensures
        r == spec_fx_len(x, y),
{
    let ux = abs_u128(x);
    let uy = abs_u128(y);
    proof {
        lemma_mag_product(x as int, x as int);
        lemma_mag_product(y as int, y as int);
        assert(abs1(x as int) * abs1(x as int) <= 0x40000000000000000000000000000000int)
            by (nonlinear_arith)
            requires 0 <= abs1(x as int) <= 0x8000000000000000int;
        assert(abs1(y as int) * abs1(y as int) <= 0x40000000000000000000000000000000int)
            by (nonlinear_arith)
            requires 0 <= abs1(y as int) <= 0x8000000000000000int;
    }
    let sq = ux * ux + uy * uy;
    let root = isqrt(sq);
    proof {
        lemma_sqrt_floor_bounds(sq as int);
    }
    if root > i64::MAX as u128 {
        i64::MAX
    } else {
        root as i64
    }
}

/// Scaling by a divisor and dividing again changes nothing, whatever
/// the sign of the value.
pub proof fn lemma_trunc_div_cancel(b: int, c: int)
    requires
        c > 0,
    ensures
        trunc_div(b * c, c) == b,
{
    lemma_mag_product(b, c);
    if b > 0 {
        vstd::arithmetic::div_mod::lemma_div_multiples_vanish(b, c);
        assert(b * c == c * b) by (nonlinear_arith);
    } else if b < 0 {
        assert(-(b * c) == (-b) * c) by (nonlinear_arith);
        vstd::arithmetic::div_mod::lemma_div_multiples_vanish(-b, c);
        assert((-b) * c == c * (-b)) by (nonlinear_arith);
    }
}

/// Scaling by the negated unit is exactly the saturating negation.
pub proof fn lemma_fx_mul_neg_one(a: i64)
    ensures
        spec_fx_mul(a, (-1048576) as i64) == spec_fx_neg(a),
{
    assert(a * ((-1048576) as i64) == (-a) * (FX_ONE as int)) by (nonlinear_arith);
    lemma_trunc_div_cancel(-a, FX_ONE as int);
}

/// Truncation toward zero is symmetric around zero.
pub proof fn lemma_trunc_div_neg(x: int, d: int)
    requires
        d > 0,
    ensures
        trunc_div(-x, d) == -trunc_div(x, d),
{
}

/// A quotient truncated toward zero keeps any bound the exact quotient
/// obeys.
pub proof fn lemma_trunc_div_bound(x: int, d: int, m: int)
    requires
        d > 0,
        m >= 0,
        abs1(x) <= m * d,
    ensures
        abs1(trunc_div(x, d)) <= m,
{
    lemma_trunc_div_mag(x, d);
    lemma_mag_product(x, d);
    assert(abs1(trunc_div(x, d)) == abs1(x) / d);
    vstd::arithmetic::div_mod::lemma_div_is_ordered(abs1(x), m * d, d);
    vstd::arithmetic::div_mod::lemma_div_multiples_vanish(m, d);
    assert(m * d == d * m) by (nonlinear_arith);
}

/// Scaling by the fixed-point unit changes nothing.
pub proof fn lemma_fx_mul_one(a: i64)
    ensures
        spec_fx_mul(a, FX_ONE) == a,
        spec_fx_mul(FX_ONE, a) == a,
{
    lemma_trunc_div_cancel(a as int, FX_ONE as int);
    assert((FX_ONE as int) * (a as int) == (a as int) * (FX_ONE as int)) by (nonlinear_arith);
}

/// Scaling by zero gives zero.
pub proof fn lemma_fx_mul_zero(a: i64)
    ensures
        spec_fx_mul(a, 0) == 0,
        spec_fx_mul(0, a) == 0,
{
}

/// Scaling by zero annihilates and scaling by the unit changes
/// nothing, for every quantity at once.
pub proof fn lemma_fx_units()
    ensures
        forall|a: i64| (#[trigger] spec_fx_mul(a, 0i64)) == 0i64,
        forall|a: i64| (#[trigger] spec_fx_mul(0i64, a)) == 0i64,
        forall|a: i64| (#[trigger] spec_fx_mul(a, FX_ONE)) == a,
        forall|a: i64| (#[trigger] spec_fx_mul(FX_ONE, a)) == a,
{
    assert forall|a: i64| (#[trigger] spec_fx_mul(a, 0i64)) == 0i64 by {
        lemma_fx_mul_zero(a);
    }
    assert forall|a: i64| (#[trigger] spec_fx_mul(0i64, a)) == 0i64 by {
        lemma_fx_mul_zero(a);
    }
    assert forall|a: i64| (#[trigger] spec_fx_mul(a, FX_ONE)) == a by {
        lemma_fx_mul_one(a);
    }
    assert forall|a: i64| (#[trigger] spec_fx_mul(FX_ONE, a)) == a by {
        lemma_fx_mul_one(a);
    }
}

/// Half of a fixed-point quantity, truncated toward zero.
pub fn fx_half(a: i64) -> (r: i64)
    ensures
        r == spec_fx_half(a),
{
    let neg = a < 0;
    let mag = abs_u128(a) / 2;
    proof {
        lemma_trunc_div_mag(a as int, 2);
        assert(a as int * 2 >= 0 <==> a >= 0) by (nonlinear_arith);
    }
    signed_clamped(neg, mag)
}

} // verus!
