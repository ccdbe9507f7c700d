//! The entity store and the per-tick pipeline.
//!
//! One `World` holds every live entity and runs a whole simulation tick in
//! a fixed order: rotate and fire the launcher, move projectiles and
//! patrol opponents, resolve collisions, clean up spent projectiles and
//! destroyed opponents, replenish the opponent population, update every
//! animation record, and absorb the score events. The order is part of
//! the design: collisions see the positions after movement, cleanup runs
//! after collision so the two despawn paths cannot race, and the score is
//! settled last so every score event of a tick is counted once. Pausing
//! is simply not calling `tick`, so an outside observer only ever sees
//! tick-boundary states.

use vstd::prelude::*;

use crate::animation::fresh;
use crate::animation::UapAnimationState;
use crate::collision::projectile_collision;
use crate::collision::resolve_all;
use crate::collision::Resolution;
use crate::events::DestroyUapEvent;
use crate::events::ProjectileExplosionEvent;
use crate::events::ScoreEvent;
use crate::fixed::lemma_rate_step_bound;
use crate::fixed::TRAVEL_CAP;
use crate::launcher::launcher;
use crate::launcher::Launcher;
use crate::projectile::cleaned;
use crate::projectile::cleanup_projectiles;
use crate::projectile::Projectile;
use crate::projectile::MAX_RANGE;
use crate::score::score;
use crate::score::tallied;
use crate::score::Scoreboard;
use crate::spawner::spawn_timer;
use crate::spawner::SpawnTimer;
use crate::spawner::MAX_UAPS;
use crate::uap::uap;
use crate::uap::uap_spec;
use crate::uap::Uap;
use crate::uap::HALF_WIDTH_CAP;

verus! {

/// Per-tick input state of the logical actions: the pressed state of the
/// two rotation actions and the rising edge of the fire action.
#[derive(Clone, Copy, Debug, PartialEq, Eq, Structural)]
pub struct TickInput {
    pub rotate_left: bool,
    pub rotate_right: bool,
    pub fire: bool,
}

/// Events handed to the external effect collaborators at the end of a
/// tick; they are never kept across ticks.
pub struct TickEffects {
    pub explosions: Vec<ProjectileExplosionEvent>,
    pub destroys: Vec<DestroyUapEvent>,
}

/// The world as the contracts see it.
pub struct WorldModel {
    pub launcher: Option<Launcher>,
    pub projectiles: Seq<Projectile>,
    pub uaps: Seq<Uap>,
    pub spawn_timer: SpawnTimer,
    pub cap: usize,
    pub scoreboard: Scoreboard,
    pub next_id: u64,
}

/// Outcome of a tick at the model level.
pub struct TickOutcome {
    pub world: WorldModel,
    pub explosions: Seq<ProjectileExplosionEvent>,
    pub destroys: Seq<DestroyUapEvent>,
}

/// The rotation direction encoded by the input: left and right cancel.
pub open spec fn rotation_input(input: TickInput) -> int {
    (if input.rotate_left {
        1int
    } else {
        0int
    }) - (if input.rotate_right {
        1int
    } else {
        0int
    })
}

/// Rotation stage: with no launcher the stage is a no-op.
pub open spec fn rotated_launcher(l: Option<Launcher>, input: TickInput, dt: u32) -> Option<
    Launcher,
> {
    match l {
        Some(l) => Some(l.rotated(rotation_input(input), dt)),
        None => None,
    }
}

/// Firing stage: on a fire edge the (already rotated) launcher appends one
/// projectile; with no launcher the stage is a no-op.
pub open spec fn after_fire(ps: Seq<Projectile>, l: Option<Launcher>, input: TickInput) -> Seq<
    Projectile,
> {
    match l {
        Some(l) => if input.fire {
            ps.push(l.fired())
        } else {
            ps
        },
        None => ps,
    }
}

/// Movement stage for projectiles.
pub open spec fn moved_projectiles(ps: Seq<Projectile>, dt: u32) -> Seq<Projectile> {
    ps.map_values(|p: Projectile| p.advanced(dt))
}

/// Movement stage for opponents: with no viewport the patrol is a no-op.
pub open spec fn patrolled_uaps(us: Seq<Uap>, dt: u32, half_width: Option<i64>) -> Seq<Uap> {
    match half_width {
        Some(hw) => us.map_values(|u: Uap| u.patrolled(dt, hw as int)),
        None => us,
    }
}

/// Despawn stage for opponents, with the kept opponents as accumulator:
/// every opponent whose health dropped to zero or below is removed.
pub open spec fn still_live(us: Seq<Uap>, kept: Seq<Uap>) -> Seq<Uap>
    decreases us.len(),
{
    if us.len() == 0 {
        kept
    } else if us[0].live() {
        still_live(us.drop_first(), kept.push(us[0]))
    } else {
        still_live(us.drop_first(), kept)
    }
}

/// The label after one spawn.
pub open spec fn next_label(id: u64) -> u64 {
    if id == u64::MAX {
        0u64
    } else {
        (id + 1) as u64
    }
}

/// Spawn stage: the countdown always advances; on completion one opponent
/// is spawned only below the population cap — a skipped spawn is
/// discarded, never queued, and the countdown restarts either way.
pub open spec fn after_spawn(
    us: Seq<Uap>,
    timer: SpawnTimer,
    dt: u32,
    cap: usize,
    next_id: u64,
) -> (Seq<Uap>, SpawnTimer, u64) {
    if timer.fires(dt) && us.len() < cap {
        (us.push(uap_spec(next_id)), timer.ticked(dt), next_label(next_id))
    } else {
        (us, timer.ticked(dt), next_id)
    }
}

/// Animation stage for one opponent: the frame timer accumulates the tick,
/// then the state follows the movement intent — a patrolling opponent with
/// a nonzero speed intends to move, so it flies; otherwise it idles. A
/// state change reconstructs the record from scratch.
pub open spec fn animated(u: Uap, dt: u32) -> Uap {
    let a1 = u.animation.ticked(dt);
    let intent = if u.speed != 0 {
        UapAnimationState::Flying
    } else {
        UapAnimationState::Idling
    };
    let a2 = if a1.state == intent {
        a1
    } else {
        fresh(intent)
    };
    Uap { animation: a2, ..u }
}

/// Animation stage over all opponents.
pub open spec fn animated_uaps(us: Seq<Uap>, dt: u32) -> Seq<Uap> {
    us.map_values(|u: Uap| animated(u, dt))
}

/// One whole tick at the model level, in the fixed pipeline order.
pub open spec fn tick_spec(
    w: WorldModel,
    input: TickInput,
    dt: u32,
    half_width: Option<i64>,
) -> TickOutcome {
    let l1 = rotated_launcher(w.launcher, input, dt);
    let ps1 = after_fire(w.projectiles, l1, input);
    let ps2 = moved_projectiles(ps1, dt);
    let us1 = patrolled_uaps(w.uaps, dt, half_width);
    let r = resolve_all(
        ps2,
        Resolution {
            survivors: Seq::empty(),
            uaps: us1,
            explosions: Seq::empty(),
            destroys: Seq::empty(),
            scores: Seq::empty(),
        },
    );
    let c = cleaned(r.survivors, Seq::empty(), r.explosions);
    let us2 = still_live(r.uaps, Seq::empty());
    let s = after_spawn(us2, w.spawn_timer, dt, w.cap, w.next_id);
    let us3 = animated_uaps(s.0, dt);
    let sb = Scoreboard { score: tallied(w.scoreboard.score as int, r.scores) as usize };
    TickOutcome {
        world: WorldModel {
            launcher: l1,
            projectiles: c.0,
            uaps: us3,
            spawn_timer: s.1,
            cap: w.cap,
            scoreboard: sb,
            next_id: s.2,
        },
        explosions: c.1,
        destroys: r.destroys,
    }
}

impl WorldModel {
    /// The world invariant, re-established at every tick boundary: the
    /// launcher (when present) is well formed, every projectile is well
    /// formed and within range, every opponent is well formed and live,
    /// the countdown is well formed, and the live-opponent count never
    /// exceeds the population cap.
    pub open spec fn inv(self) -> bool {
        &&& match self.launcher {
            Some(l) => l.wf(),
            None => true,
        }
        &&& forall|i: int|
            0 <= i < self.projectiles.len() ==> (#[trigger] self.projectiles[i]).wf()
                && self.projectiles[i].distance <= MAX_RANGE
        &&& forall|j: int|
            0 <= j < self.uaps.len() ==> (#[trigger] self.uaps[j]).wf() && self.uaps[j].live()
        &&& self.spawn_timer.wf()
        &&& self.uaps.len() <= self.cap
    }
}

/// The world of a fresh session: one launcher with the default tuning, no
/// projectiles, no opponents, the default spawn countdown, the default
/// population cap and a zero score.
pub open spec fn initial_world() -> WorldModel {
    WorldModel {
        launcher: Some(
            Launcher {
                x: 0,
                y: crate::launcher::LAUNCHER_START_Y,
                orientation: 0,
                rotation_speed: crate::launcher::ROTATION_SPEED,
                projectile_speed: crate::launcher::PROJECTILE_SPEED,
                height: crate::launcher::LAUNCHER_HEIGHT,
            },
        ),
        projectiles: Seq::empty(),
        uaps: Seq::empty(),
        spawn_timer: SpawnTimer { interval_ms: crate::spawner::SPAWN_INTERVAL_MS, elapsed_ms: 0 },
        cap: MAX_UAPS,
        scoreboard: Scoreboard { score: 0 },
        next_id: 0,
    }
}

/// One recorded tick of a session: the input, the tick duration and the
/// viewport half-width the tick was driven with.
#[derive(Clone, Copy, Debug, PartialEq, Eq, Structural)]
pub struct TickStep {
    pub input: TickInput,
    pub dt: u32,
    pub half_width: Option<i64>,
}

/// The world after a whole sequence of ticks.
pub open spec fn ticked_over(w: WorldModel, steps: Seq<TickStep>) -> WorldModel
    decreases steps.len(),
{
    if steps.len() == 0 {
        w
    } else {
        ticked_over(
            tick_spec(w, steps[0].input, steps[0].dt, steps[0].half_width).world,
            steps.drop_first(),
        )
    }
}

/// The despawn stage never grows the opponent queue.
proof fn lemma_still_live_len(us: Seq<Uap>, kept: Seq<Uap>)
    ensures
        still_live(us, kept).len() <= kept.len() + us.len(),
    decreases us.len(),
{
    if us.len() > 0 {
        if us[0].live() {
            lemma_still_live_len(us.drop_first(), kept.push(us[0]));
        } else {
            lemma_still_live_len(us.drop_first(), kept);
        }
    }
}

/// The live-opponent count never exceeds the population cap: a tick that
/// starts at or below the cap ends at or below the cap, whatever the
/// input, the tick duration and the viewport.
pub proof fn lemma_population_cap(w: WorldModel, input: TickInput, dt: u32, half_width: Option<
    i64,
>)
    requires
        w.uaps.len() <= w.cap,
    ensures
        tick_spec(w, input, dt, half_width).world.uaps.len() <= w.cap,
        tick_spec(w, input, dt, half_width).world.cap == w.cap,
{
    let l1 = rotated_launcher(w.launcher, input, dt);
    let ps2 = moved_projectiles(after_fire(w.projectiles, l1, input), dt);
    let us1 = patrolled_uaps(w.uaps, dt, half_width);
    let init = Resolution {
        survivors: Seq::empty(),
        uaps: us1,
        explosions: Seq::empty(),
        destroys: Seq::empty(),
        scores: Seq::empty(),
    };
    crate::collision::lemma_resolve_keeps_uap_count(ps2, init);
    lemma_still_live_len(resolve_all(ps2, init).uaps, Seq::empty());
}

/// Over any sequence of ticks — any inputs, any tick durations, any
/// viewports — the live-opponent count never exceeds the configured cap.
pub proof fn lemma_population_cap_over(w: WorldModel, steps: Seq<TickStep>)
    requires
        w.uaps.len() <= w.cap,
    ensures
        ticked_over(w, steps).uaps.len() <= ticked_over(w, steps).cap,
        ticked_over(w, steps).cap == w.cap,
    decreases steps.len(),
{
    if steps.len() > 0 {
        lemma_population_cap(w, steps[0].input, steps[0].dt, steps[0].half_width);
        lemma_population_cap_over(
            tick_spec(w, steps[0].input, steps[0].dt, steps[0].half_width).world,
            steps.drop_first(),
        );
    }
}

/// Every projectile alive at a tick's collision stage is despawned by at
/// most one path, with exactly one explosion per despawn: the projectiles
/// kept at the end of the tick plus the explosions raised account for the
/// whole queue — a projectile despawned by collision never reaches the
/// range cleanup, a projectile that exceeded its range raises exactly one
/// explosion, and no kept projectile is past its range.
pub proof fn lemma_projectile_single_despawn(
    w: WorldModel,
    input: TickInput,
    dt: u32,
    half_width: Option<i64>,
)
    ensures
        ({
            let l1 = rotated_launcher(w.launcher, input, dt);
            let ps2 = moved_projectiles(after_fire(w.projectiles, l1, input), dt);
            let r = resolve_all(
                ps2,
                Resolution {
                    survivors: Seq::empty(),
                    uaps: patrolled_uaps(w.uaps, dt, half_width),
                    explosions: Seq::empty(),
                    destroys: Seq::empty(),
                    scores: Seq::empty(),
                },
            );
            let out = tick_spec(w, input, dt, half_width);
            &&& r.survivors.len() + r.explosions.len() == ps2.len()
            &&& out.world.projectiles.len() + out.explosions.len() == ps2.len()
            &&& forall|k: int|
                0 <= k < out.world.projectiles.len() ==> (
                #[trigger] out.world.projectiles[k]).distance <= MAX_RANGE
        }),
{
    let l1 = rotated_launcher(w.launcher, input, dt);
    let ps2 = moved_projectiles(after_fire(w.projectiles, l1, input), dt);
    let init = Resolution {
        survivors: Seq::empty(),
        uaps: patrolled_uaps(w.uaps, dt, half_width),
        explosions: Seq::empty(),
        destroys: Seq::empty(),
        scores: Seq::empty(),
    };
    let r = resolve_all(ps2, init);
    crate::collision::lemma_resolve_partitions(ps2, init);
    crate::projectile::lemma_cleaned_partitions(r.survivors, Seq::empty(), r.explosions);
    crate::projectile::lemma_cleaned_kept_in_range(r.survivors, Seq::empty(), r.explosions);
}

/// Advances every projectile by one tick of flight.
fn advance_all(ps: &mut Vec<Projectile>, dt: u32)
    requires
        forall|k: int| 0 <= k < old(ps)@.len() ==> (#[trigger] old(ps)@[k]).wf()
            && old(ps)@[k].distance <= MAX_RANGE,
    ensures
        final(ps)@ == moved_projectiles(old(ps)@, dt),
        forall|k: int| 0 <= k < final(ps)@.len() ==> (#[trigger] final(ps)@[k]).wf()
            && final(ps)@[k].distance <= TRAVEL_CAP,
{
    let ghost ps0 = ps@;
    let mut i: usize = 0;
    while i < ps.len()
        invariant
            i <= ps@.len(),
            ps@.len() == ps0.len(),
            forall|k: int| 0 <= k < ps0.len() ==> (#[trigger] ps0[k]).wf() && ps0[k].distance
                <= MAX_RANGE,
            forall|k: int|
                0 <= k < i ==> ps@[k] == (#[trigger] ps0[k]).advanced(dt) && ps@[k].wf()
                    && ps@[k].distance <= TRAVEL_CAP,
            forall|k: int| i <= k < ps0.len() ==> (#[trigger] ps@[k]) == ps0[k],
        decreases ps@.len() - i,
    {
        proof {
            lemma_rate_step_bound(ps0[i as int].speed as int, dt as int);
        }
        let mut p: Projectile = ps[i];
        p.advance(dt);
        ps.set(i, p);
        i = i + 1;
    }
    proof {
        assert(ps@ =~= moved_projectiles(ps0, dt));
    }
}

/// Patrols every opponent for one tick against the given viewport
/// half-width.
fn patrol_all(us: &mut Vec<Uap>, dt: u32, half_width: i64)
    requires
        forall|k: int| 0 <= k < old(us)@.len() ==> (#[trigger] old(us)@[k]).wf()
            && old(us)@[k].live(),
        0 <= half_width <= HALF_WIDTH_CAP,
    ensures
        final(us)@ == old(us)@.map_values(|u: Uap| u.patrolled(dt, half_width as int)),
        forall|k: int| 0 <= k < final(us)@.len() ==> (#[trigger] final(us)@[k]).wf()
            && final(us)@[k].live(),
{
    let ghost us0 = us@;
    let mut j: usize = 0;
    while j < us.len()
        invariant
            j <= us@.len(),
            us@.len() == us0.len(),
            0 <= half_width <= HALF_WIDTH_CAP,
            forall|k: int| 0 <= k < us0.len() ==> (#[trigger] us0[k]).wf() && us0[k].live(),
            forall|k: int|
                0 <= k < j ==> us@[k] == (#[trigger] us0[k]).patrolled(dt, half_width as int)
                    && us@[k].wf() && us@[k].live(),
            forall|k: int| j <= k < us0.len() ==> (#[trigger] us@[k]) == us0[k],
        decreases us@.len() - j,
    {
        let mut u: Uap = us[j];
        u.patrol(dt, half_width);
        us.set(j, u);
        j = j + 1;
    }
    proof {
        assert(us@ =~= us0.map_values(|u: Uap| u.patrolled(dt, half_width as int)));
    }
}

/// Runs the animation state machine of every opponent for one tick.
fn animate_all(us: &mut Vec<Uap>, dt: u32)
    requires
        forall|k: int| 0 <= k < old(us)@.len() ==> (#[trigger] old(us)@[k]).wf()
            && old(us)@[k].live(),
    ensures
        final(us)@ == animated_uaps(old(us)@, dt),
        forall|k: int| 0 <= k < final(us)@.len() ==> (#[trigger] final(us)@[k]).wf()
            && final(us)@[k].live(),
{
    let ghost us0 = us@;
    let mut j: usize = 0;
    while j < us.len()
        invariant
            j <= us@.len(),
            us@.len() == us0.len(),
            forall|k: int| 0 <= k < us0.len() ==> (#[trigger] us0[k]).wf() && us0[k].live(),
            forall|k: int|
                0 <= k < j ==> us@[k] == animated(#[trigger] us0[k], dt) && us@[k].wf()
                    && us@[k].live(),
            forall|k: int| j <= k < us0.len() ==> (#[trigger] us@[k]) == us0[k],
        decreases us@.len() - j,
    {
        let mut u: Uap = us[j];
        u.animation.update_timer(dt);
        if u.speed != 0 {
            u.animation.update_state(UapAnimationState::Flying);
        } else {
            u.animation.update_state(UapAnimationState::Idling);
        }
        us.set(j, u);
        j = j + 1;
    }
    proof {
        assert(us@ =~= animated_uaps(us0, dt));
    }
}

/// Retains only the live opponents, in order.
fn retain_live(us: &Vec<Uap>) -> (kept: Vec<Uap>)
    requires
        forall|k: int| 0 <= k < us@.len() ==> (#[trigger] us@[k]).wf(),
    ensures
        kept@ == still_live(us@, Seq::empty()),
        forall|k: int| 0 <= k < kept@.len() ==> (#[trigger] kept@[k]).wf() && kept@[k].live(),
        kept@.len() <= us@.len(),
{
    let mut kept: Vec<Uap> = Vec::new();
    proof {
        assert(us@.skip(0) =~= us@);
    }
    let mut i: usize = 0;
    while i < us.len()
        invariant
            i <= us@.len(),
            forall|k: int| 0 <= k < us@.len() ==> (#[trigger] us@[k]).wf(),
            forall|k: int| 0 <= k < kept@.len() ==> (#[trigger] kept@[k]).wf() && kept@[k].live(),
            kept@.len() <= i,
            still_live(us@, Seq::empty()) == still_live(us@.skip(i as int), kept@),
        decreases us@.len() - i,
    {
        let ghost kept0 = kept@;
        let u: Uap = us[i];
        if u.health > 0 {
            kept.push(u);
        }
        proof {
            assert(us@.skip(i as int).drop_first() =~= us@.skip(i + 1));
            assert(us@.skip(i as int)[0] == us@[i as int]);
            assert(still_live(us@.skip(i as int), kept0) == still_live(us@.skip(i + 1), kept@));
        }
        i = i + 1;
    }
    proof {
        assert(us@.skip(us@.len() as int) =~= Seq::<Uap>::empty());
    }
    kept
}

/// The entity store: every live entity of the session, the spawner's
/// countdown, and the scoreboard.
pub struct World {
    pub launcher: Option<Launcher>,
    pub projectiles: Vec<Projectile>,
    pub uaps: Vec<Uap>,
    pub spawn_timer: SpawnTimer,
    pub cap: usize,
    pub scoreboard: Scoreboard,
    pub next_id: u64,
}

impl View for World {
    type V = WorldModel;

    open spec fn view(&self) -> WorldModel {
        WorldModel {
            launcher: self.launcher,
            projectiles: self.projectiles@,
            uaps: self.uaps@,
            spawn_timer: self.spawn_timer,
            cap: self.cap,
            scoreboard: self.scoreboard,
            next_id: self.next_id,
        }
    }
}

impl World {
    /// A fresh session.
    pub fn new() -> (w: World)
        ensures
            w@ == initial_world(),
            w@.inv(),
    {
        World {
            launcher: Some(launcher()),
            projectiles: Vec::new(),
            uaps: Vec::new(),
            spawn_timer: spawn_timer(),
            cap: MAX_UAPS,
            scoreboard: score(),
            next_id: 0,
        }
    }

    /// Removes the launcher, as on leaving the launch screen; the
    /// launcher-driven stages of later ticks are then no-ops.
    pub fn despawn_launcher(&mut self)
        requires
            old(self)@.inv(),
        ensures
            final(self)@ == (WorldModel { launcher: None, ..old(self)@ }),
            final(self)@.inv(),
    {
        self.launcher = None;
    }

    /// Installs a launcher with the default tuning, as on entering the
    /// launch screen.
    pub fn spawn_launcher(&mut self)
        requires
            old(self)@.inv(),
        ensures
            final(self)@ == (WorldModel { launcher: initial_world().launcher, ..old(self)@ }),
            final(self)@.inv(),
    {
        self.launcher = Some(launcher());
    }

    /// One whole simulation tick of `dt` milliseconds: rotate and fire on
    /// the input, move everything, resolve collisions, clean up both
    /// despawn paths, replenish the opponent population, animate, and
    /// absorb the score events. Returns the explosion and destroy events
    /// of the tick for the external effect collaborators; `half_width` is
    /// the current viewport half-width in subunits, absent during screen
    /// transitions (the patrol is then a no-op for the tick).
    pub fn tick(&mut self, input: TickInput, dt: u32, half_width: Option<i64>) -> (fx: TickEffects)
        requires
            old(self)@.inv(),
            match half_width {
                Some(h) => 0 <= h <= HALF_WIDTH_CAP,
                None => true,
            },
        ensures
            final(self)@ == tick_spec(old(self)@, input, dt, half_width).world,
            fx.explosions@ == tick_spec(old(self)@, input, dt, half_width).explosions,
            fx.destroys@ == tick_spec(old(self)@, input, dt, half_width).destroys,
            final(self)@.inv(),
            final(self)@.uaps.len() <= old(self)@.cap,
    {
        let ghost w0 = self@;
        // Input stage: the two rotation actions cancel each other out.
        let mut dir: i8 = 0;
        if input.rotate_left {
            dir = dir + 1;
        }
        if input.rotate_right {
            dir = dir - 1;
        }
        proof {
            assert(dir as int == rotation_input(input));
        }
        // Rotation stage.
        match &mut self.launcher {
            Some(l) => {
                l.rotate(dir, dt);
            },
            None => {},
        }
        let ghost l1 = rotated_launcher(w0.launcher, input, dt);
        proof {
            assert(self.launcher == l1);
        }
        // Firing stage: the fire edge spawns one projectile from the
        // rotated launcher.
        if input.fire {
            match &self.launcher {
                Some(l) => {
                    let p: Projectile = l.fire();
                    self.projectiles.push(p);
                },
                None => {},
            }
        }
        let ghost ps1 = after_fire(w0.projectiles, l1, input);
        proof {
            assert(self.projectiles@ == ps1);
            assert forall|k: int| 0 <= k < ps1.len() implies (#[trigger] ps1[k]).wf()
                && ps1[k].distance <= MAX_RANGE by {
                if k < w0.projectiles.len() {
                    assert(ps1[k] == w0.projectiles[k]);
                }
            }
        }
        // Movement stage: projectiles fly.
        advance_all(&mut self.projectiles, dt);
        let ghost ps2 = moved_projectiles(ps1, dt);
        proof {
            assert(self.projectiles@ == ps2);
        }
        // Movement stage: opponents patrol, if a viewport is present.
        let ghost us1 = patrolled_uaps(w0.uaps, dt, half_width);
        match half_width {
            Some(hw) => {
                patrol_all(&mut self.uaps, dt, hw);
            },
            None => {},
        }
        proof {
            assert(self.uaps@ == us1);
        }
        // Collision stage.
        let mut explosions: Vec<ProjectileExplosionEvent> = Vec::new();
        let mut destroys: Vec<DestroyUapEvent> = Vec::new();
        let mut score_events: Vec<ScoreEvent> = Vec::new();
        let survivors: Vec<Projectile> = projectile_collision(
            &self.projectiles,
            &mut self.uaps,
            &mut explosions,
            &mut destroys,
            &mut score_events,
        );
        self.projectiles = survivors;
        let ghost r = resolve_all(
            ps2,
            Resolution {
                survivors: Seq::empty(),
                uaps: us1,
                explosions: Seq::empty(),
                destroys: Seq::empty(),
                scores: Seq::empty(),
            },
        );
        proof {
            assert(self.projectiles@ == r.survivors);
            assert(self.uaps@ == r.uaps);
            assert(explosions@ == r.explosions);
            assert(destroys@ == r.destroys);
            assert(score_events@ == r.scores);
        }
        // Cleanup stage: the auto-detonation path.
        let kept: Vec<Projectile> = cleanup_projectiles(&self.projectiles, &mut explosions);
        self.projectiles = kept;
        let ghost c = cleaned(r.survivors, Seq::empty(), r.explosions);
        proof {
            assert(self.projectiles@ == c.0);
            assert(explosions@ == c.1);
        }
        // Cleanup stage: destroyed opponents are despawned, consuming the
        // destroy events raised this very tick.
        let live_uaps: Vec<Uap> = retain_live(&self.uaps);
        self.uaps = live_uaps;
        let ghost us2 = still_live(r.uaps, Seq::empty());
        proof {
            assert(self.uaps@ == us2);
            crate::collision::lemma_resolve_keeps_uap_count(
                ps2,
                Resolution {
                    survivors: Seq::empty(),
                    uaps: us1,
                    explosions: Seq::empty(),
                    destroys: Seq::empty(),
                    scores: Seq::empty(),
                },
            );
            assert(self.uaps@.len() <= w0.cap);
        }
        // Spawn stage.
        let fired: bool = self.spawn_timer.tick(dt);
        if fired && self.uaps.len() < self.cap {
            let u: Uap = uap(self.next_id);
            self.uaps.push(u);
            self.next_id = if self.next_id == u64::MAX {
                0
            } else {
                self.next_id + 1
            };
        }
        let ghost s = after_spawn(us2, w0.spawn_timer, dt, w0.cap, w0.next_id);
        proof {
            assert(self.uaps@ == s.0);
            assert(self.spawn_timer == s.1);
            assert(self.next_id == s.2);
            assert(self.uaps@.len() <= w0.cap);
        }
        // Animation stage.
        let ghost us3 = s.0;
        animate_all(&mut self.uaps, dt);
        proof {
            assert(self.uaps@ == animated_uaps(us3, dt));
        }
        // Score stage: the aggregator drains the tick's score events.
        self.scoreboard.absorb(&score_events);
        proof {
            let sb = Scoreboard { score: tallied(w0.scoreboard.score as int, r.scores) as usize };
            assert(self.scoreboard == sb);
            assert(self@ == tick_spec(w0, input, dt, half_width).world);
        }
        TickEffects { explosions, destroys }
    }
}

} // verus!
