//! Ballistic flight of a fired projectile.
//!
//! A projectile moves at a fixed velocity and records its nominal travel:
//! the distance grows by `speed * dt` subunits each tick, the exact
//! displacement magnitude when the velocity is a unit direction scaled by
//! `speed`. Once the travel exceeds [`MAX_RANGE`] the projectile is due for
//! auto-detonation: the cleanup step despawns it and raises exactly one
//! explosion event.

use vstd::prelude::*;

use crate::events::ProjectileExplosionEvent;
use crate::fixed::lemma_mag_mul;
use crate::fixed::mag;
use crate::fixed::ORIGIN_CAP;
use crate::fixed::RATE_CAP;
use crate::fixed::TRAVEL_CAP;

verus! {

/// Nominal travel, in subunits, beyond which a projectile auto-detonates.
pub const MAX_RANGE: i64 = 1_000_000_000;

/// Damage dealt by one projectile hit.
pub const PROJECTILE_DAMAGE: u32 = 20;

/// Half extents of a projectile's collision box, in subunits.
pub const PROJECTILE_HALF_WIDTH: i64 = 6_000_000;

/// Half extents of a projectile's collision box, in subunits.
pub const PROJECTILE_HALF_HEIGHT: i64 = 6_000_000;

/// A projectile in flight. Positions are in subunits, the velocity in
/// milliunits per second, and `distance` is the nominal travel in subunits
/// accumulated since the projectile was fired.
#[derive(Clone, Copy, Debug, PartialEq, Eq, Structural)]
pub struct Projectile {
    pub x: i64,
    pub y: i64,
    pub vel_x: i64,
    pub vel_y: i64,
    pub speed: u32,
    pub distance: i64,
    pub damage: u32,
}

impl Projectile {
    /// Well-formedness: the nominal speed bounds both velocity components,
    /// and the position has drifted from near the origin by at most the
    /// distance travelled. These bounds keep every per-tick product inside
    /// an `i64`.
    pub open spec fn wf(self) -> bool {
        &&& 0 <= self.distance
        &&& self.speed <= RATE_CAP
        &&& mag(self.vel_x as int) <= self.speed
        &&& mag(self.vel_y as int) <= self.speed
        &&& mag(self.x as int) <= ORIGIN_CAP + self.distance
        &&& mag(self.y as int) <= ORIGIN_CAP + self.distance
    }

    /// The projectile after one tick of `dt` milliseconds: the position
    /// moves by `velocity * dt` and the travel grows by `speed * dt`.
    pub open spec fn advanced(self, dt: u32) -> Projectile {
        Projectile {
            x: (self.x + self.vel_x * dt) as i64,
            y: (self.y + self.vel_y * dt) as i64,
            distance: (self.distance + self.speed * dt) as i64,
            ..self
        }
    }

    /// Advances the projectile by `dt` milliseconds of flight.
    pub fn advance(&mut self, dt: u32)
        requires
            old(self).wf(),
            old(self).distance + old(self).speed * dt <= TRAVEL_CAP,
        ensures
            *final(self) == old(self).advanced(dt),
            final(self).x as int == old(self).x + old(self).vel_x * dt,
            final(self).y as int == old(self).y + old(self).vel_y * dt,
            final(self).distance == old(self).distance + old(self).speed * dt,
            final(self).vel_x == old(self).vel_x,
            final(self).vel_y == old(self).vel_y,
            final(self).speed == old(self).speed,
            final(self).damage == old(self).damage,
            final(self).wf(),
    {
        proof {
            lemma_mag_mul(self.vel_x as int, self.speed as int, dt as int);
            lemma_mag_mul(self.vel_y as int, self.speed as int, dt as int);
            vstd::arithmetic::mul::lemma_mul_nonnegative(self.speed as int, dt as int);
        }
        let step: u64 = (self.speed as u64) * (dt as u64);
        let nx: i128 = (self.x as i128) + (self.vel_x as i128) * (dt as i128);
        let ny: i128 = (self.y as i128) + (self.vel_y as i128) * (dt as i128);
        self.x = nx as i64;
        self.y = ny as i64;
        self.distance = self.distance + (step as i64);
    }

    /// Whether the projectile has outlived its range and is due for
    /// auto-detonation.
    pub fn range_exceeded(&self) -> (r: bool)
        ensures
            r == (self.distance > MAX_RANGE),
    {
        self.distance > MAX_RANGE
    }
}

/// The cleanup pass over a projectile queue, with the kept projectiles and
/// the explosion events raised so far as accumulators: a projectile whose
/// travel exceeds [`MAX_RANGE`] auto-detonates — despawned with exactly one
/// explosion at its position — and every other projectile is kept.
pub open spec fn cleaned(
    ps: Seq<Projectile>,
    kept: Seq<Projectile>,
    evs: Seq<ProjectileExplosionEvent>,
) -> (Seq<Projectile>, Seq<ProjectileExplosionEvent>)
    decreases ps.len(),
{
    if ps.len() == 0 {
        (kept, evs)
    } else if ps[0].distance > MAX_RANGE {
        cleaned(ps.drop_first(), kept, evs.push(ProjectileExplosionEvent { x: ps[0].x, y: ps[0].y }))
    } else {
        cleaned(ps.drop_first(), kept.push(ps[0]), evs)
    }
}

/// Cleanup accounts for every projectile exactly once: each one is either
/// kept or exploded.
pub proof fn lemma_cleaned_partitions(
    ps: Seq<Projectile>,
    kept: Seq<Projectile>,
    evs: Seq<ProjectileExplosionEvent>,
)
    ensures
        cleaned(ps, kept, evs).0.len() + cleaned(ps, kept, evs).1.len() == kept.len() + evs.len()
            + ps.len(),
    decreases ps.len(),
{
    if ps.len() > 0 {
        if ps[0].distance > MAX_RANGE {
            lemma_cleaned_partitions(
                ps.drop_first(),
                kept,
                evs.push(ProjectileExplosionEvent { x: ps[0].x, y: ps[0].y }),
            );
        } else {
            lemma_cleaned_partitions(ps.drop_first(), kept.push(ps[0]), evs);
        }
    }
}

/// Every projectile kept by cleanup is within range: none is left alive
/// past its despawn tick.
pub proof fn lemma_cleaned_kept_in_range(
    ps: Seq<Projectile>,
    kept: Seq<Projectile>,
    evs: Seq<ProjectileExplosionEvent>,
)
    requires
        forall|k: int| 0 <= k < kept.len() ==> (#[trigger] kept[k]).distance <= MAX_RANGE,
    ensures
        forall|k: int|
            0 <= k < cleaned(ps, kept, evs).0.len() ==> (#[trigger] cleaned(ps, kept, evs).0[k]).distance
                <= MAX_RANGE,
    decreases ps.len(),
{
    if ps.len() > 0 {
        if ps[0].distance > MAX_RANGE {
            let evs1 = evs.push(ProjectileExplosionEvent { x: ps[0].x, y: ps[0].y });
            lemma_cleaned_kept_in_range(ps.drop_first(), kept, evs1);
            assert(cleaned(ps, kept, evs) == cleaned(ps.drop_first(), kept, evs1));
            assert forall|k: int| 0 <= k < cleaned(ps, kept, evs).0.len() implies (
            #[trigger] cleaned(ps, kept, evs).0[k]).distance <= MAX_RANGE by {
                assert(cleaned(ps, kept, evs).0[k] == cleaned(ps.drop_first(), kept, evs1).0[k]);
            }
        } else {
            assert forall|k: int| 0 <= k < kept.push(ps[0]).len() implies (#[trigger] kept.push(
                ps[0],
            )[k]).distance <= MAX_RANGE by {
                if k < kept.len() {
                    assert(kept.push(ps[0])[k] == kept[k]);
                } else {
                    assert(kept.push(ps[0])[k] == ps[0]);
                }
            }
            lemma_cleaned_kept_in_range(ps.drop_first(), kept.push(ps[0]), evs);
            assert(cleaned(ps, kept, evs) == cleaned(ps.drop_first(), kept.push(ps[0]), evs));
            assert forall|k: int| 0 <= k < cleaned(ps, kept, evs).0.len() implies (
            #[trigger] cleaned(ps, kept, evs).0[k]).distance <= MAX_RANGE by {
                assert(cleaned(ps, kept, evs).0[k] == cleaned(
                    ps.drop_first(),
                    kept.push(ps[0]),
                    evs,
                ).0[k]);
            }
        }
    }
}

/// Despawns every projectile whose travel exceeds its range, raising one
/// explosion event for each, and returns the kept projectiles.
pub fn cleanup_projectiles(
    ps: &Vec<Projectile>,
    explosions: &mut Vec<ProjectileExplosionEvent>,
) -> (kept: Vec<Projectile>)
    requires
        forall|k: int| 0 <= k < ps@.len() ==> (#[trigger] ps@[k]).wf(),
    ensures
        (kept@, final(explosions)@) == cleaned(ps@, Seq::empty(), old(explosions)@),
        forall|k: int| 0 <= k < kept@.len() ==> (#[trigger] kept@[k]).wf() && kept@[k].distance
            <= MAX_RANGE,
{
    let mut kept: Vec<Projectile> = Vec::new();
    proof {
        assert(ps@.skip(0) =~= ps@);
    }
    let mut i: usize = 0;
    while i < ps.len()
        invariant
            i <= ps@.len(),
            forall|k: int| 0 <= k < ps@.len() ==> (#[trigger] ps@[k]).wf(),
            forall|k: int| 0 <= k < kept@.len() ==> (#[trigger] kept@[k]).wf() && kept@[k].distance
                <= MAX_RANGE,
            cleaned(ps@, Seq::empty(), old(explosions)@) == cleaned(
                ps@.skip(i as int),
                kept@,
                explosions@,
            ),
        decreases ps@.len() - i,
    {
        let ghost kept0 = kept@;
        let ghost evs0 = explosions@;
        let p: Projectile = ps[i];
        if p.range_exceeded() {
            explosions.push(ProjectileExplosionEvent { x: p.x, y: p.y });
        } else {
            kept.push(p);
        }
        proof {
            assert(ps@.skip(i as int).drop_first() =~= ps@.skip(i + 1));
            assert(ps@.skip(i as int)[0] == ps@[i as int]);
            assert(cleaned(ps@.skip(i as int), kept0, evs0) == cleaned(
                ps@.skip(i + 1),
                kept@,
                explosions@,
            ));
        }
        i = i + 1;
    }
    proof {
        assert(ps@.skip(ps@.len() as int) =~= Seq::<Projectile>::empty());
    }
    kept
}

/// Sum of the nominal travel steps `speed * dt` over a sequence of tick
/// durations.
pub open spec fn travel_sum(speed: int, dts: Seq<u32>) -> int
    decreases dts.len(),
{
    if dts.len() == 0 {
        0
    } else {
        speed * dts[0] + travel_sum(speed, dts.drop_first())
    }
}

/// The projectile after a whole sequence of ticks.
pub open spec fn advanced_over(p: Projectile, dts: Seq<u32>) -> Projectile
    decreases dts.len(),
{
    if dts.len() == 0 {
        p
    } else {
        advanced_over(p.advanced(dts[0]), dts.drop_first())
    }
}

/// Over any sequence of tick durations a projectile's travel never
/// decreases, and it equals the travel at the start plus the sum of the
/// per-tick displacement magnitudes `speed * dt`.
pub proof fn lemma_distance_accumulates(p: Projectile, dts: Seq<u32>)
    requires
        p.wf(),
        p.distance + travel_sum(p.speed as int, dts) <= TRAVEL_CAP,
    ensures
        advanced_over(p, dts).wf(),
        advanced_over(p, dts).distance == p.distance + travel_sum(p.speed as int, dts),
        advanced_over(p, dts).speed == p.speed,
        p.distance <= advanced_over(p, dts).distance,
    decreases dts.len(),
{
    if dts.len() > 0 {
        let q = p.advanced(dts[0]);
        lemma_mag_mul(p.vel_x as int, p.speed as int, dts[0] as int);
        lemma_mag_mul(p.vel_y as int, p.speed as int, dts[0] as int);
        vstd::arithmetic::mul::lemma_mul_nonnegative(p.speed as int, dts[0] as int);
        lemma_travel_sum_nonneg(p.speed as int, dts.drop_first());
        lemma_distance_accumulates(q, dts.drop_first());
    }
}

/// The travel sum of a nonnegative speed is nonnegative.
pub proof fn lemma_travel_sum_nonneg(speed: int, dts: Seq<u32>)
    requires
        0 <= speed,
    ensures
        0 <= travel_sum(speed, dts),
    decreases dts.len(),
{
    if dts.len() > 0 {
        vstd::arithmetic::mul::lemma_mul_nonnegative(speed, dts[0] as int);
        lemma_travel_sum_nonneg(speed, dts.drop_first());
    }
}

} // verus!
