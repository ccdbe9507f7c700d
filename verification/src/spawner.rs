//! The time-gated opponent spawner's countdown.
//!
//! A repeating timer accumulates elapsed milliseconds; whenever a tick
//! completes the interval the timer reports a single completion and
//! restarts with the leftover time, however long the tick was. The spawn
//! decision itself — one new opponent, only below the population cap, a
//! skipped spawn discarded — is taken by the world's spawn step.

use vstd::prelude::*;

verus! {

/// Interval between spawn attempts, in milliseconds.
pub const SPAWN_INTERVAL_MS: u32 = 2_000;

/// The population cap: largest number of simultaneously live opponents.
pub const MAX_UAPS: usize = 10;

/// A repeating countdown.
#[derive(Clone, Copy, Debug, PartialEq, Eq, Structural)]
pub struct SpawnTimer {
    pub interval_ms: u32,
    pub elapsed_ms: u32,
}

impl SpawnTimer {
    /// Well-formedness: the interval is positive and the accumulated time
    /// has not yet reached it.
    pub open spec fn wf(self) -> bool {
        &&& 1 <= self.interval_ms
        &&& self.elapsed_ms < self.interval_ms
    }

    /// Whether a tick of `dt` milliseconds completes the interval.
    pub open spec fn fires(self, dt: u32) -> bool {
        self.elapsed_ms + dt >= self.interval_ms
    }

    /// The timer after a tick: restarted with the leftover time when it
    /// fires, otherwise simply accumulated.
    pub open spec fn ticked(self, dt: u32) -> SpawnTimer {
        if self.fires(dt) {
            SpawnTimer {
                elapsed_ms: ((self.elapsed_ms + dt) % (self.interval_ms as int)) as u32,
                ..self
            }
        } else {
            SpawnTimer { elapsed_ms: (self.elapsed_ms + dt) as u32, ..self }
        }
    }

    /// Advances the countdown by `dt` milliseconds and reports whether it
    /// completed (at most once per tick, however long the tick).
    pub fn tick(&mut self, dt: u32) -> (fired: bool)
        requires
            old(self).wf(),
        ensures
            fired == old(self).fires(dt),
            *final(self) == old(self).ticked(dt),
            final(self).wf(),
    {
        let total: u64 = (self.elapsed_ms as u64) + (dt as u64);
        if total >= self.interval_ms as u64 {
            self.elapsed_ms = (total % (self.interval_ms as u64)) as u32;
            true
        } else {
            self.elapsed_ms = total as u32;
            false
        }
    }
}

/// A fresh spawner countdown with the default interval.
pub fn spawn_timer() -> (t: SpawnTimer)
    ensures
        t == (SpawnTimer { interval_ms: SPAWN_INTERVAL_MS, elapsed_ms: 0 }),
        t.wf(),
{
    SpawnTimer { interval_ms: SPAWN_INTERVAL_MS, elapsed_ms: 0 }
}

} // verus!
