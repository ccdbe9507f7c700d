//! The patrolling opponent (UAP).
//!
//! An opponent patrols horizontally between the viewport bounds shrunk by
//! its margin: on reaching a bound its position clamps exactly to the bound
//! and its direction flips once. Damage lowers its health exactly by the
//! damage dealt, never heals, and the moment health reaches zero one
//! destroy event (and one score event) is raised; the consumer despawns the
//! entity in the same tick.

use vstd::prelude::*;

use crate::animation::fresh;
use crate::animation::UapAnimation;
use crate::animation::UapAnimationState;
use crate::events::DestroyUapEvent;
use crate::events::ScoreEvent;
use crate::fixed::mag;
use crate::fixed::rate_step;
use crate::fixed::RATE_CAP;

verus! {

/// Default patrol speed: 200 units per second, in milliunits per second.
pub const UAP_SPEED: u32 = 200_000;

/// Default screen margin, in subunits.
pub const UAP_MARGIN: i64 = 50_000_000;

/// Default health of a fresh opponent.
pub const UAP_HEALTH: i64 = 100;

/// Half extents of an opponent's collision box, in subunits.
pub const UAP_HALF_WIDTH: i64 = 28_000_000;

/// Half extents of an opponent's collision box, in subunits.
pub const UAP_HALF_HEIGHT: i64 = 12_000_000;

/// Points awarded when an opponent is destroyed.
pub const DESTROY_POINTS: usize = 100;

/// Largest viewport half-width, in subunits, the patrol is driven with.
pub const HALF_WIDTH_CAP: i64 = 1_000_000_000_000;

/// Largest margin, in subunits, an opponent is tuned with.
pub const MARGIN_CAP: i64 = 1_000_000_000_000;

/// Largest health an opponent is tuned with.
pub const HEALTH_CAP: i64 = 1_000_000_000;

/// Largest magnitude, in subunits, of an opponent coordinate.
pub const UAP_POS_CAP: i64 = 4_000_000_000_000;

/// A patrolling opponent. Positions are in subunits, the speed in
/// milliunits per second; `direction` is 1 for rightward and -1 for
/// leftward patrol.
#[derive(Clone, Copy, Debug, PartialEq, Eq, Structural)]
pub struct Uap {
    pub id: u64,
    pub x: i64,
    pub y: i64,
    pub speed: u32,
    pub direction: i8,
    pub margin: i64,
    pub health: i64,
    pub animation: UapAnimation,
}

impl Uap {
    /// Well-formedness: the direction is a sign, the tuning values are
    /// inside the global caps and the animation record is well formed.
    pub open spec fn wf(self) -> bool {
        &&& (self.direction == 1 || self.direction == -1)
        &&& self.speed <= RATE_CAP
        &&& 0 <= self.margin <= MARGIN_CAP
        &&& mag(self.x as int) <= UAP_POS_CAP
        &&& mag(self.y as int) <= UAP_POS_CAP
        &&& self.health <= HEALTH_CAP
        &&& self.animation.wf()
    }

    /// Whether the opponent is still alive.
    pub open spec fn live(self) -> bool {
        self.health > 0
    }

    /// The opponent after one patrol tick against a viewport of the given
    /// half-width (subunits): it moves by `speed * direction * dt` and, on
    /// reaching the bound it is heading for, clamps exactly to that bound
    /// and flips direction once.
    pub open spec fn patrolled(self, dt: u32, half_width: int) -> Uap {
        let left = -half_width + self.margin;
        let right = half_width - self.margin;
        let moved = self.x + self.direction * (self.speed * dt);
        if moved >= right && self.direction > 0 {
            Uap { x: right as i64, direction: -1i8, ..self }
        } else if moved <= left && self.direction < 0 {
            Uap { x: left as i64, direction: 1i8, ..self }
        } else {
            Uap { x: moved as i64, ..self }
        }
    }

    /// One patrol tick.
    pub fn patrol(&mut self, dt: u32, half_width: i64)
        requires
            old(self).wf(),
            0 <= half_width <= HALF_WIDTH_CAP,
        ensures
            *final(self) == old(self).patrolled(dt, half_width as int),
            final(self).wf(),
            final(self).health == old(self).health,
            final(self).id == old(self).id,
    {
        let step: u64 = rate_step(self.speed, dt);
        let moved: i128 = if self.direction > 0 {
            (self.x as i128) + (step as i128)
        } else {
            (self.x as i128) - (step as i128)
        };
        proof {
            let d = self.direction as int;
            let sw = (self.speed as int) * (dt as int);
            if self.direction > 0 {
                assert(d * sw == sw) by (nonlinear_arith)
                    requires
                        d == 1,
                ;
            } else {
                assert(d * sw == -sw) by (nonlinear_arith)
                    requires
                        d == -1,
                ;
            }
            assert(moved as int == self.x + d * sw);
        }
        let left: i128 = -(half_width as i128) + (self.margin as i128);
        let right: i128 = (half_width as i128) - (self.margin as i128);
        if moved >= right && self.direction > 0 {
            self.x = right as i64;
            self.direction = -1;
        } else if moved <= left && self.direction < 0 {
            self.x = left as i64;
            self.direction = 1;
        } else {
            self.x = moved as i64;
        }
    }

    /// The opponent after taking `damage` points of damage.
    pub open spec fn damaged(self, damage: u32) -> Uap {
        Uap { health: (self.health - damage) as i64, ..self }
    }

    /// Deals damage: health drops exactly by `damage`, and if the
    /// resulting health is zero or below — and only then — one destroy
    /// event with the opponent's label and last position, and one score
    /// event worth [`DESTROY_POINTS`], are raised.
    pub fn take_damage(
        &mut self,
        damage: u32,
        destroy_events: &mut Vec<DestroyUapEvent>,
        score_events: &mut Vec<ScoreEvent>,
    )
        requires
            i64::MIN <= old(self).health - damage,
        ensures
            *final(self) == old(self).damaged(damage),
            final(self).health == old(self).health - damage,
            final(self).health <= 0 ==> final(destroy_events)@ == old(destroy_events)@.push(
                DestroyUapEvent { entity: old(self).id, x: old(self).x, y: old(self).y },
            ),
            final(self).health <= 0 ==> final(score_events)@ == old(score_events)@.push(
                ScoreEvent { score_to_add: DESTROY_POINTS },
            ),
            final(self).health > 0 ==> final(destroy_events)@ == old(destroy_events)@,
            final(self).health > 0 ==> final(score_events)@ == old(score_events)@,
    {
        self.health = self.health - (damage as i64);
        if self.health <= 0 {
            destroy_events.push(DestroyUapEvent { entity: self.id, x: self.x, y: self.y });
            score_events.push(ScoreEvent { score_to_add: DESTROY_POINTS });
        }
    }
}

/// The record of a fresh opponent with the default tuning and the given
/// label: spawned at the default transform (the origin), patrolling
/// rightward, idling.
pub open spec fn uap_spec(id: u64) -> Uap {
    Uap {
        id,
        x: 0,
        y: 0,
        speed: UAP_SPEED,
        direction: 1i8,
        margin: UAP_MARGIN,
        health: UAP_HEALTH,
        animation: fresh(UapAnimationState::Idling),
    }
}

/// A fresh opponent with the default tuning, spawned at the default
/// transform (the origin), patrolling rightward, idling.
pub fn uap(id: u64) -> (u: Uap)
    ensures
        u == uap_spec(id),
        u.wf(),
        u.live(),
{
    Uap {
        id,
        x: 0,
        y: 0,
        speed: UAP_SPEED,
        direction: 1,
        margin: UAP_MARGIN,
        health: UAP_HEALTH,
        animation: UapAnimation::new(),
    }
}

impl Default for Uap {
    /// The default opponent tuning, with label zero.
    fn default() -> (u: Uap)
        ensures
            u == uap_spec(0),
            u.wf(),
    {
        uap(0)
    }
}

/// Patrol keeps an opponent inside the patrol band and flips its direction
/// exactly on bound contact, with no overshoot: whenever the band is
/// nonempty and the opponent starts inside it, it ends inside it; on
/// reaching the bound it is heading for, it lands exactly on the bound with
/// the direction reversed, and otherwise the direction is kept.
pub proof fn lemma_patrol_stays_bounded(u: Uap, dt: u32, half_width: int)
    requires
        u.wf(),
        0 <= half_width <= HALF_WIDTH_CAP,
        u.margin <= half_width,
        -half_width + u.margin <= u.x <= half_width - u.margin,
    ensures
        -half_width + u.margin <= u.patrolled(dt, half_width).x <= half_width - u.margin,
        ({
            let moved = u.x + u.direction * (u.speed * dt);
            let v = u.patrolled(dt, half_width);
            &&& (u.direction == 1 && moved >= half_width - u.margin) ==> (v.x == half_width
                - u.margin && v.direction == -1)
            &&& (u.direction == -1 && moved <= -half_width + u.margin) ==> (v.x == -half_width
                + u.margin && v.direction == 1)
            &&& (u.direction == 1 && moved < half_width - u.margin) ==> (v.x == moved
                && v.direction == 1)
            &&& (u.direction == -1 && moved > -half_width + u.margin) ==> (v.x == moved
                && v.direction == -1)
        }),
{
    let sw = (u.speed as int) * (dt as int);
    vstd::arithmetic::mul::lemma_mul_nonnegative(u.speed as int, dt as int);
    if u.direction == 1 {
        assert(u.direction * sw == sw) by (nonlinear_arith)
            requires
                u.direction as int == 1,
        ;
    } else {
        assert(u.direction * sw == -sw) by (nonlinear_arith)
            requires
                u.direction as int == -1,
        ;
    }
}

} // verus!
