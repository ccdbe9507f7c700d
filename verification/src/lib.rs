//! Core of a small arcade simulation: a launcher fires projectiles at
//! patrolling opponents, collisions deal damage and raise events, a spawner
//! keeps the opponent population at a cap, and a scoreboard tallies points.
//!
//! All quantities are fixed-point integers (see [`fixed`]), so every per-tick
//! update is exact integer arithmetic. The host is expected to supply input
//! flags, the viewport half-width and the elapsed milliseconds each tick;
//! rendering, input devices and asset handling live outside this crate.

pub mod animation;
pub mod collision;
pub mod events;
pub mod fixed;
pub mod launcher;
pub mod projectile;
pub mod score;
pub mod spawner;
pub mod trig;
pub mod uap;
pub mod world;
