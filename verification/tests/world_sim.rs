//! Tests of the whole per-tick pipeline.

use launchpad::animation::UapAnimationState;
use launchpad::launcher::launcher;
use launchpad::projectile::Projectile;
use launchpad::spawner::MAX_UAPS;
use launchpad::uap::uap;
use launchpad::world::{TickInput, World};

const HALF_WIDTH: i64 = 640_000_000;

fn idle_input() -> TickInput {
    TickInput { rotate_left: false, rotate_right: false, fire: false }
}

fn fire_input() -> TickInput {
    TickInput { rotate_left: false, rotate_right: false, fire: true }
}

#[test]
fn fresh_world_defaults() {
    let w = World::new();
    assert!(w.launcher.is_some());
    assert_eq!(w.launcher.unwrap(), launcher());
    assert!(w.projectiles.is_empty());
    assert!(w.uaps.is_empty());
    assert_eq!(w.cap, MAX_UAPS);
    assert_eq!(w.scoreboard.score, 0);
}

#[test]
fn tick_fires_and_moves_projectile() {
    let mut w = World::new();
    let fx = w.tick(fire_input(), 1000, Some(HALF_WIDTH));
    // The projectile spawned at the muzzle (0, -410 units) and flew 500
    // units straight up within the same tick.
    assert_eq!(w.projectiles.len(), 1);
    assert_eq!(w.projectiles[0].x, 0);
    assert_eq!(w.projectiles[0].y, 90_000_000);
    assert_eq!(w.projectiles[0].distance, 500_000_000);
    assert!(fx.explosions.is_empty());
    assert!(fx.destroys.is_empty());
}

#[test]
fn tick_without_launcher_is_noop_for_firing() {
    let mut w = World::new();
    w.despawn_launcher();
    let fx = w.tick(fire_input(), 1000, Some(HALF_WIDTH));
    assert!(w.projectiles.is_empty());
    assert!(fx.explosions.is_empty());
}

#[test]
fn launcher_respawns_on_screen_entry() {
    let mut w = World::new();
    w.despawn_launcher();
    assert!(w.launcher.is_none());
    w.spawn_launcher();
    assert_eq!(w.launcher.unwrap(), launcher());
    let fx = w.tick(fire_input(), 0, Some(HALF_WIDTH));
    assert_eq!(w.projectiles.len(), 1);
    assert!(fx.explosions.is_empty());
}

#[test]
fn tick_rotation_affects_next_shot() {
    let mut w = World::new();
    let left = TickInput { rotate_left: true, rotate_right: false, fire: true };
    w.tick(left, 500, Some(HALF_WIDTH));
    // Rotation runs before firing within the tick, so the shot leaves at
    // 1 rad to the left: drifting to negative x.
    assert_eq!(w.launcher.unwrap().orientation, 1_000_000);
    assert_eq!(w.projectiles.len(), 1);
    assert!(w.projectiles[0].vel_x < 0);
}

#[test]
fn tick_both_rotations_cancel() {
    let mut w = World::new();
    let both = TickInput { rotate_left: true, rotate_right: true, fire: false };
    w.tick(both, 1000, Some(HALF_WIDTH));
    assert_eq!(w.launcher.unwrap().orientation, 0);
}

#[test]
fn tick_collision_first_match_only() {
    let mut w = World::new();
    // A slow probe projectile sitting at the origin.
    let probe = Projectile { x: 0, y: 0, vel_x: 0, vel_y: 0, speed: 0, distance: 0, damage: 20 };
    w.projectiles.push(probe);
    // Two overlapping opponents; creation order decides which is hit.
    let mut first = uap(1);
    first.x = 10_000_000;
    first.y = 5_000_000;
    let mut second = uap(2);
    second.x = -10_000_000;
    second.y = -5_000_000;
    w.uaps.push(first);
    w.uaps.push(second);
    let fx = w.tick(idle_input(), 0, Some(HALF_WIDTH));
    // One explosion at the projectile's position, the projectile gone,
    // only the first opponent damaged.
    assert_eq!(fx.explosions.len(), 1);
    assert_eq!(fx.explosions[0].x, 0);
    assert_eq!(fx.explosions[0].y, 0);
    assert!(w.projectiles.is_empty());
    assert_eq!(w.uaps.len(), 2);
    assert_eq!(w.uaps[0].id, 1);
    assert_eq!(w.uaps[0].health, 80);
    assert_eq!(w.uaps[1].health, 100);
    assert!(fx.destroys.is_empty());
}

#[test]
fn tick_destroy_awards_score_and_despawns() {
    let mut w = World::new();
    let probe = Projectile { x: 0, y: 0, vel_x: 0, vel_y: 0, speed: 0, distance: 0, damage: 20 };
    w.projectiles.push(probe);
    let mut target = uap(5);
    target.health = 20;
    w.uaps.push(target);
    let fx = w.tick(idle_input(), 0, Some(HALF_WIDTH));
    assert_eq!(fx.destroys.len(), 1);
    assert_eq!(fx.destroys[0].entity, 5);
    // The destroy consumer despawned the opponent within the same tick,
    // and the score aggregator absorbed the award.
    assert!(w.uaps.is_empty());
    assert_eq!(w.scoreboard.score, 100);
}

#[test]
fn tick_range_despawn_always_explodes() {
    let mut w = World::new();
    // Fire and fly for two seconds: exactly 1000 units, still in range.
    w.tick(fire_input(), 1000, Some(HALF_WIDTH));
    w.tick(idle_input(), 1000, Some(HALF_WIDTH));
    assert_eq!(w.projectiles.len(), 1);
    assert_eq!(w.projectiles[0].distance, 1_000_000_000);
    // The next instant pushes it past the single range threshold: one
    // explosion at its position, despawned.
    let pos_before = (w.projectiles[0].x, w.projectiles[0].y + 500_000);
    let fx = w.tick(idle_input(), 1, Some(HALF_WIDTH));
    assert!(w.projectiles.is_empty());
    assert_eq!(fx.explosions.len(), 1);
    assert_eq!((fx.explosions[0].x, fx.explosions[0].y), pos_before);
}

#[test]
fn tick_despawn_paths_are_exclusive() {
    let mut w = World::new();
    // One projectile about to hit, one far away at the edge of its range.
    let probe = Projectile { x: 0, y: 0, vel_x: 0, vel_y: 0, speed: 0, distance: 0, damage: 20 };
    let spent = Projectile {
        x: 500_000_000,
        y: 500_000_000,
        vel_x: 0,
        vel_y: 0,
        speed: 500_000,
        distance: 1_000_000_000,
        damage: 20,
    };
    w.projectiles.push(probe);
    w.projectiles.push(spent);
    let mut target = uap(1);
    target.x = 10_000_000;
    w.uaps.push(target);
    let fx = w.tick(idle_input(), 1, Some(HALF_WIDTH));
    // Each projectile detonated by exactly one path: the probe by
    // collision at its position, the spent one by exceeding its range.
    assert!(w.projectiles.is_empty());
    assert_eq!(fx.explosions.len(), 2);
    assert_eq!((fx.explosions[0].x, fx.explosions[0].y), (0, 0));
    assert_eq!((fx.explosions[1].x, fx.explosions[1].y), (500_000_000, 500_000_000));
    assert_eq!(w.uaps[0].health, 80);
}

#[test]
fn tick_spawner_respects_cap() {
    let mut w = World::new();
    // Nine live opponents, countdown about to complete.
    for n in 0..9u64 {
        let mut u = uap(n);
        u.x = (n as i64) * 60_000_000 - 240_000_000;
        w.uaps.push(u);
    }
    w.next_id = 9;
    w.spawn_timer.elapsed_ms = 1999;
    w.tick(idle_input(), 1, Some(HALF_WIDTH));
    // The completion spawned the tenth opponent.
    assert_eq!(w.uaps.len(), 10);
    // The countdown completes again before any opponent is destroyed: the
    // spawn is skipped and discarded, never queued.
    w.tick(idle_input(), 2000, Some(HALF_WIDTH));
    assert_eq!(w.uaps.len(), 10);
    w.tick(idle_input(), 2000, Some(HALF_WIDTH));
    assert_eq!(w.uaps.len(), 10);
}

#[test]
fn population_never_exceeds_cap_over_long_run() {
    let mut w = World::new();
    for i in 0..200u32 {
        let input = TickInput { rotate_left: i % 3 == 0, rotate_right: false, fire: i % 5 == 0 };
        w.tick(input, 700, Some(HALF_WIDTH));
        assert!(w.uaps.len() <= w.cap);
    }
    // The spawner had ample completions: the population sits at the cap.
    assert_eq!(w.uaps.len(), MAX_UAPS);
}

#[test]
fn tick_patrol_skipped_without_viewport() {
    let mut w = World::new();
    w.uaps.push(uap(0));
    w.tick(idle_input(), 1000, None);
    // No viewport: the patrol was a no-op for the tick.
    assert_eq!(w.uaps[0].x, 0);
    // With a viewport the opponent moves again.
    w.tick(idle_input(), 100, Some(HALF_WIDTH));
    assert_eq!(w.uaps[0].x, 20_000_000);
}

#[test]
fn tick_animation_follows_intent() {
    let mut w = World::new();
    w.uaps.push(uap(0));
    // A patrolling opponent intends to move, so it flies; the fresh record
    // starts at frame zero.
    w.tick(idle_input(), 0, Some(HALF_WIDTH));
    assert_eq!(w.uaps[0].animation.state, UapAnimationState::Flying);
    assert_eq!(w.uaps[0].animation.get_atlas_index(), 0);
    // Two hundred milliseconds later the flying interval completes.
    w.tick(idle_input(), 200, Some(HALF_WIDTH));
    assert_eq!(w.uaps[0].animation.get_atlas_index(), 1);
    assert!(w.uaps[0].animation.changed());
}

#[test]
fn score_accumulates_across_ticks() {
    let mut w = World::new();
    for id in 0..3u64 {
        let probe = Projectile { x: 0, y: 0, vel_x: 0, vel_y: 0, speed: 0, distance: 0, damage: 100 };
        w.projectiles.push(probe);
        w.uaps.push(uap(id));
        let fx = w.tick(idle_input(), 0, Some(HALF_WIDTH));
        assert_eq!(fx.destroys.len(), 1);
    }
    assert_eq!(w.scoreboard.score, 300);
}
