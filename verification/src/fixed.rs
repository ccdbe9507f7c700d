//! Fixed-point conventions shared by the whole simulation.
//!
//! Lengths and angles are stored in *subunits*: one world unit (or one radian)
//! is `SUBUNITS` subunits. Rates (speeds, rotation speeds) are stored in
//! *milliunits per second*, and durations in whole milliseconds. With these
//! scales a rate `r` advances a position by exactly `r` subunits per
//! millisecond, so `r * dt_ms` is the exact displacement in subunits and no
//! division is needed in the per-tick updates.

use vstd::prelude::*;

verus! {

/// Subunits per world unit (and per radian).
pub const SUBUNITS: i64 = 1_000_000;

/// Milliunits per unit: the scale of rates and of unit direction vectors.
pub const MILLIS: i64 = 1_000;

/// Largest rate (milliunits per second) any entity is tuned with. Together
/// with the other caps this keeps every per-tick product inside an `i64`.
pub const RATE_CAP: u32 = 10_000_000;

/// Largest magnitude, in subunits, of a coordinate an entity is placed at.
pub const ANCHOR_CAP: i64 = 1_000_000_000_000;

/// Slack between a projectile's spawn point and the origin: positions stay
/// within `ORIGIN_CAP` plus the distance travelled.
pub const ORIGIN_CAP: i64 = 1_000_000_000_000_000;

/// Largest nominal travel, in subunits, a projectile is advanced to.
pub const TRAVEL_CAP: i64 = 100_000_000_000_000_000;

/// `x` held to the interval `[lo, hi]`.
pub open spec fn clamped(x: int, lo: int, hi: int) -> int {
    if x < lo {
        lo
    } else if x > hi {
        hi
    } else {
        x
    }
}

/// Magnitude of an integer.
pub open spec fn mag(x: int) -> int {
    if x < 0 {
        -x
    } else {
        x
    }
}

/// Division of `x` by `MILLIS`, rounded towards zero. This is the rounding
/// used when a milliunit-scaled product is brought back down by one scale
/// step, e.g. a unit direction times a rate.
pub open spec fn descaled(x: int) -> int {
    if x >= 0 {
        x / 1000
    } else {
        -((-x) / 1000)
    }
}

/// Clamps a wide intermediate value into an `i64` interval.
pub fn clamp_wide(x: i128, lo: i64, hi: i64) -> (r: i64)
    requires
        lo <= hi,
    ensures
        r as int == clamped(x as int, lo as int, hi as int),
{
    if x < lo as i128 {
        lo
    } else if x > hi as i128 {
        hi
    } else {
        x as i64
    }
}

/// Brings a milliunit-scaled product back down by one scale step, rounding
/// towards zero.
pub fn descale(x: i64) -> (r: i64)
    requires
        i64::MIN < x,
    ensures
        r as int == descaled(x as int),
{
    if x >= 0 {
        ((x as u64) / 1000) as i64
    } else {
        let n: u64 = (-x) as u64;
        -((n / 1000) as i64)
    }
}

/// The exact displacement, in subunits, of a rate over a tick duration.
pub fn rate_step(rate: u32, dt: u32) -> (r: u64)
    ensures
        r as int == rate as int * dt as int,
{
    proof {
        assert((rate as int) * (dt as int) < 0x10000000000000000) by (nonlinear_arith)
            requires
                rate < 0x100000000,
                dt < 0x100000000,
        ;
        vstd::arithmetic::mul::lemma_mul_nonnegative(rate as int, dt as int);
    }
    (rate as u64) * (dt as u64)
}

/// A capped rate over any 32-bit tick duration stays far inside the travel
/// cap.
pub proof fn lemma_rate_step_bound(rate: int, dt: int)
    requires
        0 <= rate <= RATE_CAP,
        0 <= dt <= u32::MAX,
    ensures
        0 <= rate * dt <= 42_949_672_950_000_000,
{
    vstd::arithmetic::mul::lemma_mul_nonnegative(rate, dt);
    vstd::arithmetic::mul::lemma_mul_inequality(rate, RATE_CAP as int, dt);
    vstd::arithmetic::mul::lemma_mul_inequality(dt, u32::MAX as int, RATE_CAP as int);
    vstd::arithmetic::mul::lemma_mul_is_commutative(RATE_CAP as int, dt);
}

/// A product's magnitude is bounded by the product of a bound on one factor
/// with the (nonnegative) other factor.
pub proof fn lemma_mag_mul(v: int, b: int, t: int)
    requires
        mag(v) <= b,
        0 <= t,
    ensures
        mag(v * t) <= b * t,
{
    vstd::arithmetic::mul::lemma_mul_inequality(mag(v), b, t);
    if v >= 0 {
        assert(v * t >= 0) by (nonlinear_arith)
            requires
                v >= 0,
                t >= 0,
        ;
    } else {
        assert(v * t <= 0 && -(v * t) == (-v) * t) by (nonlinear_arith)
            requires
                v < 0,
                t >= 0,
        ;
    }
}

/// A value descaled from a product with a unit-vector component keeps the
/// other factor as a bound: `|descaled(d * s)| <= s` whenever `|d| <= 1000`.
pub proof fn lemma_descaled_bound(d: int, s: int)
    requires
        mag(d) <= 1000,
        0 <= s,
    ensures
        mag(descaled(d * s)) <= s,
{
    vstd::arithmetic::mul::lemma_mul_inequality(mag(d), 1000, s);
    if d >= 0 {
        assert(d * s >= 0) by (nonlinear_arith)
            requires
                d >= 0,
                s >= 0,
        ;
    } else {
        assert(d * s <= 0 && -(d * s) == (-d) * s) by (nonlinear_arith)
            requires
                d < 0,
                s >= 0,
        ;
    }
    assert(mag(d * s) == mag(d) * s);
    vstd::arithmetic::div_mod::lemma_div_is_ordered(mag(d * s), 1000 * s, 1000);
    vstd::arithmetic::div_mod::lemma_div_multiples_vanish(s, 1000);
}

} // verus!
