//! Fixed-point sine and cosine for the launcher's orientation.
//!
//! The launcher only ever points within 1.2 radians of straight up, so a
//! short odd/even polynomial (the first three terms of the sine and cosine
//! series) is evaluated in integer arithmetic. Angles are given in angle
//! subunits (microradians); results are milliunit-scaled components of a
//! unit vector, held to `[-1000, 1000]`. At angle zero the results are
//! exact: sine 0, cosine 1000.

use vstd::prelude::*;

use crate::fixed::clamped;
use crate::fixed::mag;

verus! {

/// Largest angle magnitude, in angle subunits, on which the polynomial
/// approximations are stated and proved.
pub const TRIG_MAX_ANGLE: i64 = 1_200_000;

/// Sine series `a - a^3/6 + a^5/120` evaluated in angle subunits for
/// `a >= 0`, with each power brought back to subunit scale.
pub open spec fn sin_series(a: int) -> int {
    let a2 = (a * a) / 1_000_000;
    let a3 = (a2 * a) / 1_000_000;
    let a5 = (a3 * a2) / 1_000_000;
    a - a3 / 6 + a5 / 120
}

/// Cosine series `1 - a^2/2 + a^4/24` evaluated in angle subunits, with each
/// power brought back to subunit scale.
pub open spec fn cos_series(a: int) -> int {
    let a2 = (a * a) / 1_000_000;
    let a4 = (a2 * a2) / 1_000_000;
    1_000_000 - a2 / 2 + a4 / 24
}

/// Milliunit sine of an angle in subunits: the odd extension of the series,
/// scaled down and held to `[-1000, 1000]`.
pub open spec fn sin_milli_spec(t: int) -> int {
    if t >= 0 {
        clamped(sin_series(t) / 1000, -1000, 1000)
    } else {
        -clamped(sin_series(-t) / 1000, -1000, 1000)
    }
}

/// Milliunit cosine of an angle in subunits: the even series, scaled down
/// and held to `[-1000, 1000]`.
pub open spec fn cos_milli_spec(t: int) -> int {
    clamped(cos_series(mag(t)) / 1000, -1000, 1000)
}

/// For factors within the given bounds, the subunit-scaled product is
/// nonnegative and within the subunit-scaled product of the bounds.
proof fn lemma_prod_scaled_bound(x: int, y: int, bx: int, by: int)
    requires
        0 <= x <= bx,
        0 <= y <= by,
    ensures
        0 <= (x * y) / 1_000_000 <= (bx * by) / 1_000_000,
{
    assert(0 <= x * y <= bx * by) by (nonlinear_arith)
        requires
            0 <= x <= bx,
            0 <= y <= by,
    ;
    vstd::arithmetic::div_mod::lemma_div_is_ordered(0, x * y, 1_000_000);
    vstd::arithmetic::div_mod::lemma_div_is_ordered(x * y, bx * by, 1_000_000);
}

/// A subunit-scaled product with one factor at most 2_000_000 is at most
/// twice the other factor.
proof fn lemma_prod_scaled_double(x: int, y: int)
    requires
        0 <= x <= 2_000_000,
        0 <= y,
    ensures
        (x * y) / 1_000_000 <= 2 * y,
{
    assert(x * y <= 2_000_000 * y) by (nonlinear_arith)
        requires
            0 <= x <= 2_000_000,
            0 <= y,
    ;
    vstd::arithmetic::div_mod::lemma_div_is_ordered(x * y, 2_000_000 * y, 1_000_000);
    assert(2_000_000 * y == 1_000_000 * (2 * y));
    vstd::arithmetic::div_mod::lemma_div_multiples_vanish(2 * y, 1_000_000);
}

/// Sixth of a value at most twice `y` is at most `y`.
proof fn lemma_sixth_le(x: int, y: int)
    requires
        0 <= x <= 2 * y,
    ensures
        x / 6 <= y,
{
    vstd::arithmetic::div_mod::lemma_div_is_ordered(x, 6 * y, 6);
    vstd::arithmetic::div_mod::lemma_div_multiples_vanish(y, 6);
}

/// Sine of a nonnegative angle, in milliunits.
fn sin_milli_pos(a: u64) -> (r: i64)
    requires
        a <= TRIG_MAX_ANGLE,
    ensures
        r as int == clamped(sin_series(a as int) / 1000, -1000, 1000),
        0 <= r <= 1000,
{
    proof {
        lemma_prod_scaled_bound(a as int, a as int, 1_200_000, 1_200_000);
    }
    let a2: u64 = (a * a) / 1_000_000;
    proof {
        lemma_prod_scaled_bound(a2 as int, a as int, 1_440_000, 1_200_000);
        lemma_prod_scaled_double(a2 as int, a as int);
    }
    let a3: u64 = (a2 * a) / 1_000_000;
    proof {
        lemma_prod_scaled_bound(a3 as int, a2 as int, 1_728_000, 1_440_000);
        lemma_sixth_le(a3 as int, a as int);
        vstd::arithmetic::div_mod::lemma_div_is_ordered(0, a3 as int, 6);
    }
    let a5: u64 = (a3 * a2) / 1_000_000;
    let s: u64 = a - a3 / 6 + a5 / 120;
    assert(s as int == sin_series(a as int));
    let q: u64 = s / 1000;
    proof {
        vstd::arithmetic::div_mod::lemma_div_is_ordered(0, s as int, 1000);
    }
    if q > 1000 {
        1000
    } else {
        q as i64
    }
}

/// Cosine of a nonnegative angle, in milliunits.
fn cos_milli_pos(a: u64) -> (r: i64)
    requires
        a <= TRIG_MAX_ANGLE,
    ensures
        r as int == clamped(cos_series(a as int) / 1000, -1000, 1000),
        280 <= r <= 1000,
{
    proof {
        lemma_prod_scaled_bound(a as int, a as int, 1_200_000, 1_200_000);
    }
    let a2: u64 = (a * a) / 1_000_000;
    proof {
        lemma_prod_scaled_bound(a2 as int, a2 as int, 1_440_000, 1_440_000);
        lemma_prod_scaled_double(a2 as int, a2 as int);
        vstd::arithmetic::div_mod::lemma_div_is_ordered(a2 as int, 1_440_000, 2);
        vstd::arithmetic::div_mod::lemma_div_is_ordered(0, a2 as int, 2);
    }
    let a4: u64 = (a2 * a2) / 1_000_000;
    proof {
        // a4 <= 2 * a2, so the quartic term never outweighs the quadratic one.
        vstd::arithmetic::div_mod::lemma_div_is_ordered(a4 as int, 2 * a2, 24);
        vstd::arithmetic::div_mod::lemma_div_is_ordered(2 * a2, 12 * a2, 24);
        vstd::arithmetic::div_mod::lemma_div_multiples_vanish_quotient(12, a2 as int, 2);
    }
    let c: u64 = 1_000_000 - a2 / 2 + a4 / 24;
    assert(c as int == cos_series(a as int));
    assert(280_000 <= c <= 1_000_000);
    let q: u64 = c / 1000;
    proof {
        vstd::arithmetic::div_mod::lemma_div_is_ordered(280_000, c as int, 1000);
        vstd::arithmetic::div_mod::lemma_div_is_ordered(c as int, 1_000_000, 1000);
    }
    let r: i64 = q as i64;
    r
}

/// Milliunit sine of an angle in subunits.
pub fn sin_milli(t: i64) -> (r: i64)
    requires
        -TRIG_MAX_ANGLE <= t <= TRIG_MAX_ANGLE,
    ensures
        r as int == sin_milli_spec(t as int),
        -1000 <= r <= 1000,
{
    if t >= 0 {
        sin_milli_pos(t as u64)
    } else {
        -sin_milli_pos((-t) as u64)
    }
}

/// Milliunit cosine of an angle in subunits. The result is always positive:
/// within the domain the cosine series stays above 0.28.
pub fn cos_milli(t: i64) -> (r: i64)
    requires
        -TRIG_MAX_ANGLE <= t <= TRIG_MAX_ANGLE,
    ensures
        r as int == cos_milli_spec(t as int),
        280 <= r <= 1000,
{
    if t >= 0 {
        cos_milli_pos(t as u64)
    } else {
        cos_milli_pos((-t) as u64)
    }
}

} // verus!
