//! Unit tests of the individual simulation components.

use launchpad::animation::{UapAnimation, UapAnimationState, FLYING_INTERVAL_MS, IDLE_INTERVAL_MS};
use launchpad::events::{DestroyUapEvent, ProjectileExplosionEvent, ScoreEvent};
use launchpad::launcher::{launcher, launcher_crank, ORIENT_LIMIT};
use launchpad::projectile::{cleanup_projectiles, Projectile, MAX_RANGE};
use launchpad::score::{score, Scoreboard};
use launchpad::spawner::spawn_timer;
use launchpad::uap::{uap, DESTROY_POINTS};

#[test]
fn rotate_stays_clamped_left() {
    let mut l = launcher();
    // 2 rad/s for 1000 seconds would be 2000 rad; the clamp holds at 1.2 rad.
    l.rotate(1, 1_000_000);
    assert_eq!(l.orientation, ORIENT_LIMIT);
}

#[test]
fn rotate_stays_clamped_right() {
    let mut l = launcher();
    l.rotate(-1, 1_000_000);
    assert_eq!(l.orientation, -ORIENT_LIMIT);
}

#[test]
fn rotate_exact_and_noop() {
    let mut l = launcher();
    // 2 rad/s for 100 ms turns by 0.2 rad (200_000 angle subunits).
    l.rotate(1, 100);
    assert_eq!(l.orientation, 200_000);
    l.rotate(0, 1_000_000);
    assert_eq!(l.orientation, 200_000);
    l.rotate(-1, 50);
    assert_eq!(l.orientation, 100_000);
}

#[test]
fn rotate_zero_dt_is_noop() {
    let mut l = launcher();
    l.rotate(1, 0);
    assert_eq!(l.orientation, 0);
}

#[test]
fn crank_rotates_with_wider_clamp() {
    let mut c = launcher_crank();
    // 6 rad/s for 100 ms turns by 0.6 rad.
    c.rotate(-1, 100);
    assert_eq!(c.orientation, -600_000);
    c.rotate(-1, 1_000_000);
    assert_eq!(c.orientation, -3_600_000);
}

#[test]
fn fire_straight_up() {
    let l = launcher();
    let p = l.fire();
    // Orientation zero: the forward direction is exactly (0, 1), so the
    // velocity is (0, 500) units per second and the muzzle sits 40 units
    // above the anchor at (0, -450).
    assert_eq!(p.vel_x, 0);
    assert_eq!(p.vel_y, 500_000);
    assert_eq!(p.x, 0);
    assert_eq!(p.y, -410_000_000);
    assert_eq!(p.distance, 0);
    assert_eq!(p.damage, 20);
}

#[test]
fn fire_tilted_moves_sideways() {
    let mut l = launcher();
    l.rotate(1, 500); // 1 rad to the left
    assert_eq!(l.orientation, 1_000_000);
    let p = l.fire();
    // Leftward tilt: negative x velocity, still rising.
    assert!(p.vel_x < 0);
    assert!(p.vel_y > 0);
}

#[test]
fn fire_at_full_tilt_exact_components() {
    let mut l = launcher();
    l.rotate(-1, 1_000_000);
    assert_eq!(l.orientation, -ORIENT_LIMIT);
    let p = l.fire();
    // At 1.2 rad the polynomial forward direction is (0.932, 0.366) in
    // milliunits, scaled by 500 units per second.
    assert_eq!(p.vel_x, 466_000);
    assert_eq!(p.vel_y, 183_000);
    // The muzzle offset is the same direction scaled by the 40-unit height.
    assert_eq!(p.x, 37_280_000);
    assert_eq!(p.y, -450_000_000 + 14_640_000);
}

#[test]
fn projectile_distance_accumulates() {
    let l = launcher();
    let mut p = l.fire();
    let y0 = p.y;
    p.advance(1000);
    // One second at 500 units per second.
    assert_eq!(p.y - y0, 500_000_000);
    assert_eq!(p.distance, 500_000_000);
    p.advance(500);
    assert_eq!(p.distance, 750_000_000);
    p.advance(0);
    assert_eq!(p.distance, 750_000_000);
}

#[test]
fn projectile_range_cutoff_is_strict() {
    let l = launcher();
    let mut p = l.fire();
    p.advance(2000); // exactly 1000 units of travel
    assert_eq!(p.distance, MAX_RANGE);
    assert!(!p.range_exceeded());
    p.advance(1);
    assert!(p.range_exceeded());
}

#[test]
fn cleanup_explodes_only_spent_projectiles() {
    let l = launcher();
    let mut spent = l.fire();
    spent.advance(2001);
    let fresh = l.fire();
    let ps = vec![spent, fresh];
    let mut explosions: Vec<ProjectileExplosionEvent> = Vec::new();
    let kept = cleanup_projectiles(&ps, &mut explosions);
    assert_eq!(kept.len(), 1);
    assert_eq!(kept[0], fresh);
    assert_eq!(explosions.len(), 1);
    assert_eq!(explosions[0], ProjectileExplosionEvent { x: spent.x, y: spent.y });
}

#[test]
fn default_uap_matches_factory() {
    let u = launchpad::uap::Uap::default();
    assert_eq!(u, uap(0));
    assert_eq!(u.speed, 200_000);
    assert_eq!(u.direction, 1);
    assert_eq!(u.margin, 50_000_000);
    assert_eq!(u.health, 100);
}

#[test]
fn take_damage_subtracts_exactly() {
    let mut u = uap(1);
    let mut destroys: Vec<DestroyUapEvent> = Vec::new();
    let mut scores: Vec<ScoreEvent> = Vec::new();
    u.take_damage(20, &mut destroys, &mut scores);
    assert_eq!(u.health, 80);
    assert!(destroys.is_empty());
    assert!(scores.is_empty());
}

#[test]
fn take_damage_emits_destroy_iff_dead() {
    let mut u = uap(9);
    u.x = 123;
    u.y = -456;
    u.health = 20;
    let mut destroys: Vec<DestroyUapEvent> = Vec::new();
    let mut scores: Vec<ScoreEvent> = Vec::new();
    u.take_damage(20, &mut destroys, &mut scores);
    assert_eq!(u.health, 0);
    assert_eq!(destroys, vec![DestroyUapEvent { entity: 9, x: 123, y: -456 }]);
    assert_eq!(scores, vec![ScoreEvent { score_to_add: DESTROY_POINTS }]);
}

#[test]
fn patrol_clamps_to_bound_and_flips() {
    // Opponent one unit short of the right bound, heading right at 200
    // units per second; after one second it clamps exactly to the bound
    // and the direction flips once.
    let mut u = uap(0);
    let half_width: i64 = 640_000_000;
    u.x = half_width - u.margin - 1_000_000;
    u.patrol(1000, half_width);
    assert_eq!(u.x, half_width - u.margin);
    assert_eq!(u.direction, -1);
}

#[test]
fn patrol_left_bound_flips_back() {
    let mut u = uap(0);
    let half_width: i64 = 640_000_000;
    u.x = -half_width + u.margin + 1_000_000;
    u.direction = -1;
    u.patrol(1000, half_width);
    assert_eq!(u.x, -half_width + u.margin);
    assert_eq!(u.direction, 1);
}

#[test]
fn patrol_inside_band_keeps_direction() {
    let mut u = uap(0);
    let half_width: i64 = 640_000_000;
    u.patrol(100, half_width);
    // 200 units per second for 100 ms: 20 units to the right.
    assert_eq!(u.x, 20_000_000);
    assert_eq!(u.direction, 1);
}

#[test]
fn animation_frame_wraps_within_count() {
    let mut a = UapAnimation::new();
    assert_eq!(a.get_atlas_index(), 0);
    for expected in [1usize, 2, 3, 0, 1] {
        a.update_timer(IDLE_INTERVAL_MS);
        assert!(a.changed());
        assert_eq!(a.get_atlas_index(), expected);
    }
}

#[test]
fn animation_partial_interval_no_advance() {
    let mut a = UapAnimation::new();
    a.update_timer(IDLE_INTERVAL_MS - 1);
    assert!(!a.changed());
    assert_eq!(a.get_atlas_index(), 0);
    a.update_timer(1);
    assert!(a.changed());
    assert_eq!(a.get_atlas_index(), 1);
}

#[test]
fn animation_transition_resets_frame_and_timer() {
    let mut a = UapAnimation::new();
    a.update_timer(IDLE_INTERVAL_MS);
    assert_eq!(a.get_atlas_index(), 1);
    a.update_state(UapAnimationState::Flying);
    assert_eq!(a.state, UapAnimationState::Flying);
    assert_eq!(a.get_atlas_index(), 0);
    assert_eq!(a.elapsed_ms, 0);
    // The flying interval now governs the timer.
    a.update_timer(FLYING_INTERVAL_MS - 1);
    assert!(!a.changed());
    a.update_timer(1);
    assert!(a.changed());
    assert_eq!(a.get_atlas_index(), 1);
}

#[test]
fn animation_same_state_keeps_timer() {
    let mut a = UapAnimation::new();
    a.update_timer(40);
    a.update_state(UapAnimationState::Idling);
    assert_eq!(a.elapsed_ms, 40);
}

#[test]
fn score_starts_at_zero_and_adds() {
    let mut s = score();
    assert_eq!(s.score, 0);
    s.update_score(7);
    s.update_score(0);
    s.update_score(35);
    assert_eq!(s.score, 42);
}

#[test]
fn score_saturates_at_top() {
    let mut s = Scoreboard { score: usize::MAX - 5 };
    s.update_score(3);
    assert_eq!(s.score, usize::MAX - 2);
    s.update_score(100);
    assert_eq!(s.score, usize::MAX);
    s.update_score(1);
    assert_eq!(s.score, usize::MAX);
}

#[test]
fn scoreboard_absorbs_event_queue() {
    let mut s = score();
    let events = vec![
        ScoreEvent { score_to_add: 100 },
        ScoreEvent { score_to_add: 100 },
        ScoreEvent { score_to_add: 50 },
    ];
    s.absorb(&events);
    assert_eq!(s.score, 250);
    s.absorb(&Vec::new());
    assert_eq!(s.score, 250);
}

#[test]
fn spawn_timer_fires_and_restarts() {
    let mut t = spawn_timer();
    assert!(!t.tick(1999));
    assert!(t.tick(1));
    assert_eq!(t.elapsed_ms, 0);
    // A long tick completes the interval once and keeps the leftover.
    assert!(t.tick(5000));
    assert_eq!(t.elapsed_ms, 1000);
    assert!(!t.tick(999));
    assert!(t.tick(1));
}
