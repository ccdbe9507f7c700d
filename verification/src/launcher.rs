//! The launcher: a rotating turret that fires projectiles.
//!
//! Rotation input turns the orientation at the tuned rotation speed and the
//! orientation is always held to `[-ORIENT_LIMIT, ORIENT_LIMIT]`. Firing
//! spawns one projectile at the muzzle — the launcher's position offset by
//! its height along the forward direction — with velocity equal to the
//! forward unit direction scaled by the tuned projectile speed. The forward
//! direction of an orientation `t` is `(-sin t, cos t)`: orientation zero
//! points straight up.

use vstd::prelude::*;

use crate::fixed::clamp_wide;
use crate::fixed::clamped;
use crate::fixed::descale;
use crate::fixed::descaled;
use crate::fixed::lemma_descaled_bound;
use crate::fixed::lemma_mag_mul;
use crate::fixed::mag;
use crate::fixed::ANCHOR_CAP;
use crate::fixed::RATE_CAP;
use crate::projectile::Projectile;
use crate::projectile::PROJECTILE_DAMAGE;
use crate::trig::cos_milli;
use crate::trig::cos_milli_spec;
use crate::trig::sin_milli;
use crate::trig::sin_milli_spec;

verus! {

/// Orientation clamp, in angle subunits: 1.2 radians either side of up.
pub const ORIENT_LIMIT: i64 = 1_200_000;

/// Rotation clamp of the decorative crank, in angle subunits (3.6 radians).
pub const CRANK_LIMIT: i64 = 3_600_000;

/// Default rotation speed: 2 radians per second, in milliradians per second.
pub const ROTATION_SPEED: u32 = 2_000;

/// Default crank rotation speed, in milliradians per second.
pub const CRANK_ROTATION_SPEED: u32 = 6_000;

/// Default projectile speed: 500 units per second, in milliunits per second.
pub const PROJECTILE_SPEED: u32 = 500_000;

/// Default muzzle height above the launcher's anchor, in subunits.
pub const LAUNCHER_HEIGHT: i64 = 40_000_000;

/// Default vertical anchor of the launcher, in subunits.
pub const LAUNCHER_START_Y: i64 = -450_000_000;

/// Largest muzzle height, in subunits, a launcher is tuned with.
pub const HEIGHT_CAP: i64 = 1_000_000_000;

/// The turret. The anchor `(x, y)` is in subunits, the orientation in angle
/// subunits, and the rates in milli-per-second.
#[derive(Clone, Copy, Debug, PartialEq, Eq, Structural)]
pub struct Launcher {
    pub x: i64,
    pub y: i64,
    pub orientation: i64,
    pub rotation_speed: u32,
    pub projectile_speed: u32,
    pub height: i64,
}

/// The orientation reached from `orientation` by turning in `direction` for
/// `dt` milliseconds at `rotation_speed`, held to `[-limit, limit]`.
pub open spec fn turned(
    orientation: int,
    direction: int,
    rotation_speed: int,
    dt: int,
    limit: int,
) -> int {
    clamped(orientation + direction * rotation_speed * dt, -limit, limit)
}

/// Turns an orientation by `direction * rotation_speed * dt` and holds it to
/// `[-limit, limit]`.
fn turn(orientation: i64, direction: i8, rotation_speed: u32, dt: u32, limit: i64) -> (r: i64)
    requires
        -1 <= direction <= 1,
        0 < limit,
    ensures
        r as int == turned(orientation as int, direction as int, rotation_speed as int, dt as int, limit as int),
        -limit <= r <= limit,
{
    proof {
        assert((rotation_speed as int) * (dt as int) < 0x10000000000000000) by (nonlinear_arith)
            requires
                rotation_speed < 0x100000000,
                dt < 0x100000000,
        ;
        vstd::arithmetic::mul::lemma_mul_nonnegative(rotation_speed as int, dt as int);
    }
    let swing: u64 = (rotation_speed as u64) * (dt as u64);
    let target: i128 = if direction > 0 {
        (orientation as i128) + (swing as i128)
    } else if direction < 0 {
        (orientation as i128) - (swing as i128)
    } else {
        orientation as i128
    };
    proof {
        let d = direction as int;
        let rs = rotation_speed as int;
        let t = dt as int;
        assert(d * rs * t == d * (rs * t)) by (nonlinear_arith);
        if direction > 0 {
            assert(d * (rs * t) == rs * t) by (nonlinear_arith)
                requires
                    d == 1,
            ;
        } else if direction < 0 {
            assert(d * (rs * t) == -(rs * t)) by (nonlinear_arith)
                requires
                    d == -1,
            ;
        } else {
            assert(d * (rs * t) == 0) by (nonlinear_arith)
                requires
                    d == 0,
            ;
        }
        assert(target as int == orientation + d * rs * t);
    }
    clamp_wide(target, -limit, limit)
}

impl Launcher {
    /// Well-formedness: the orientation is inside its clamp range and the
    /// tuning values are inside the global caps.
    pub open spec fn wf(self) -> bool {
        &&& -ORIENT_LIMIT <= self.orientation <= ORIENT_LIMIT
        &&& mag(self.x as int) <= ANCHOR_CAP
        &&& mag(self.y as int) <= ANCHOR_CAP
        &&& 0 <= self.height <= HEIGHT_CAP
        &&& 1 <= self.projectile_speed <= RATE_CAP
    }

    /// The launcher after a rotation tick.
    pub open spec fn rotated(self, direction: int, dt: u32) -> Launcher {
        Launcher {
            orientation: turned(
                self.orientation as int,
                direction,
                self.rotation_speed as int,
                dt as int,
                ORIENT_LIMIT as int,
            ) as i64,
            ..self
        }
    }

    /// Turns the launcher for `dt` milliseconds: `direction` is 1 to turn
    /// left (counterclockwise), -1 to turn right and 0 to hold. The
    /// orientation never leaves `[-ORIENT_LIMIT, ORIENT_LIMIT]`.
    pub fn rotate(&mut self, direction: i8, dt: u32)
        requires
            old(self).wf(),
            -1 <= direction <= 1,
        ensures
            *final(self) == old(self).rotated(direction as int, dt),
            -ORIENT_LIMIT <= final(self).orientation <= ORIENT_LIMIT,
            final(self).wf(),
    {
        self.orientation = turn(self.orientation, direction, self.rotation_speed, dt, ORIENT_LIMIT);
    }

    /// The projectile produced by firing: spawned at the muzzle, moving
    /// along the forward direction at the tuned speed, with no travel yet.
    pub open spec fn fired(self) -> Projectile {
        let s = sin_milli_spec(self.orientation as int);
        let c = cos_milli_spec(self.orientation as int);
        Projectile {
            x: (self.x + descaled(-s * self.height)) as i64,
            y: (self.y + descaled(c * self.height)) as i64,
            vel_x: descaled(-s * self.projectile_speed) as i64,
            vel_y: descaled(c * self.projectile_speed) as i64,
            speed: self.projectile_speed,
            distance: 0,
            damage: PROJECTILE_DAMAGE,
        }
    }

    /// Fires one projectile from the muzzle along the forward direction.
    pub fn fire(&self) -> (p: Projectile)
        requires
            self.wf(),
        ensures
            p == self.fired(),
            p.wf(),
            p.speed == self.projectile_speed,
            p.damage == PROJECTILE_DAMAGE,
            p.distance == 0,
    {
        let s: i64 = sin_milli(self.orientation);
        let c: i64 = cos_milli(self.orientation);
        proof {
            lemma_mag_mul(-s as int, 1000, self.height as int);
            lemma_mag_mul(c as int, 1000, self.height as int);
            lemma_mag_mul(-s as int, 1000, self.projectile_speed as int);
            lemma_mag_mul(c as int, 1000, self.projectile_speed as int);
            lemma_descaled_bound(-s as int, self.height as int);
            lemma_descaled_bound(c as int, self.height as int);
            lemma_descaled_bound(-s as int, self.projectile_speed as int);
            lemma_descaled_bound(c as int, self.projectile_speed as int);
        }
        let off_x: i64 = descale(-s * self.height);
        let off_y: i64 = descale(c * self.height);
        Projectile {
            x: self.x + off_x,
            y: self.y + off_y,
            vel_x: descale(-s * (self.projectile_speed as i64)),
            vel_y: descale(c * (self.projectile_speed as i64)),
            speed: self.projectile_speed,
            distance: 0,
            damage: PROJECTILE_DAMAGE,
        }
    }
}

/// The decorative crank beside the launcher: it only turns, with a wider
/// clamp of its own, and never fires.
#[derive(Clone, Copy, Debug, PartialEq, Eq, Structural)]
pub struct LauncherCrank {
    pub orientation: i64,
    pub rotation_speed: u32,
}

impl LauncherCrank {
    /// Well-formedness: the orientation is inside the crank's clamp range.
    pub open spec fn wf(self) -> bool {
        -CRANK_LIMIT <= self.orientation <= CRANK_LIMIT
    }

    /// The crank after a rotation tick.
    pub open spec fn rotated(self, direction: int, dt: u32) -> LauncherCrank {
        LauncherCrank {
            orientation: turned(
                self.orientation as int,
                direction,
                self.rotation_speed as int,
                dt as int,
                CRANK_LIMIT as int,
            ) as i64,
            ..self
        }
    }

    /// Turns the crank; it spins opposite to the launcher, so callers pass
    /// the negated rotation input.
    pub fn rotate(&mut self, direction: i8, dt: u32)
        requires
            old(self).wf(),
            -1 <= direction <= 1,
        ensures
            *final(self) == old(self).rotated(direction as int, dt),
            final(self).wf(),
    {
        self.orientation = turn(self.orientation, direction, self.rotation_speed, dt, CRANK_LIMIT);
    }
}

/// A launcher with the default tuning, anchored at the bottom of the scene.
pub fn launcher() -> (l: Launcher)
    ensures
        l == (Launcher {
            x: 0,
            y: LAUNCHER_START_Y,
            orientation: 0,
            rotation_speed: ROTATION_SPEED,
            projectile_speed: PROJECTILE_SPEED,
            height: LAUNCHER_HEIGHT,
        }),
        l.wf(),
{
    Launcher {
        x: 0,
        y: LAUNCHER_START_Y,
        orientation: 0,
        rotation_speed: ROTATION_SPEED,
        projectile_speed: PROJECTILE_SPEED,
        height: LAUNCHER_HEIGHT,
    }
}

/// A crank with the default tuning.
pub fn launcher_crank() -> (c: LauncherCrank)
    ensures
        c == (LauncherCrank { orientation: 0, rotation_speed: CRANK_ROTATION_SPEED }),
        c.wf(),
{
    LauncherCrank { orientation: 0, rotation_speed: CRANK_ROTATION_SPEED }
}

} // verus!
