//! Events raised by the simulation during a tick.
//!
//! Explosion and destroy events are handed to external effect collaborators
//! and are never kept across ticks; score events are consumed by the
//! scoreboard within the tick that produced them.

use vstd::prelude::*;

verus! {

/// A projectile detonated, by collision or by exceeding its range, at the
/// given position (subunits).
#[derive(Clone, Copy, Debug, PartialEq, Eq, Structural)]
pub struct ProjectileExplosionEvent {
    pub x: i64,
    pub y: i64,
}

/// An opponent's health reached zero. Carries the entity's label and its
/// last position (subunits); the consumer despawns the entity in the same
/// tick.
#[derive(Clone, Copy, Debug, PartialEq, Eq, Structural)]
pub struct DestroyUapEvent {
    pub entity: u64,
    pub x: i64,
    pub y: i64,
}

/// Points to add to the session score.
#[derive(Clone, Copy, Debug, PartialEq, Eq, Structural)]
pub struct ScoreEvent {
    pub score_to_add: usize,
}

} // verus!
