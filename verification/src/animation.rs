//! Per-entity animation state machine.
//!
//! An animated entity is either idling or flying; each state has its own
//! frame count and frame interval. The timer accumulates elapsed
//! milliseconds and, on completing an interval, advances the frame index
//! modulo the state's frame count and restarts. A state transition
//! reconstructs the whole record: frame index back to zero, timer cleared,
//! so no stale timer carries over. The `changed` flag tells an external
//! render collaborator whether to refresh its displayed frame this tick.

use vstd::prelude::*;

verus! {

/// Number of idle frames.
pub const IDLE_FRAMES: usize = 4;

/// Duration of each idle frame, in milliseconds.
pub const IDLE_INTERVAL_MS: u32 = 100;

/// Number of flying frames.
pub const FLYING_FRAMES: usize = 4;

/// Duration of each flying frame, in milliseconds.
pub const FLYING_INTERVAL_MS: u32 = 200;

/// The two animation states.
#[derive(Clone, Copy, Debug, PartialEq, Eq, Structural)]
pub enum UapAnimationState {
    Idling,
    Flying,
}

/// Frame count of a state.
pub open spec fn frames_of(state: UapAnimationState) -> int {
    match state {
        UapAnimationState::Idling => IDLE_FRAMES as int,
        UapAnimationState::Flying => FLYING_FRAMES as int,
    }
}

/// Frame interval of a state, in milliseconds.
pub open spec fn interval_of(state: UapAnimationState) -> int {
    match state {
        UapAnimationState::Idling => IDLE_INTERVAL_MS as int,
        UapAnimationState::Flying => FLYING_INTERVAL_MS as int,
    }
}

/// A freshly constructed animation record for a state.
pub open spec fn fresh(state: UapAnimationState) -> UapAnimation {
    UapAnimation { state, frame: 0, elapsed_ms: 0, just_finished: false }
}

/// Animation state of one entity.
#[derive(Clone, Copy, Debug, PartialEq, Eq, Structural)]
pub struct UapAnimation {
    pub state: UapAnimationState,
    pub frame: usize,
    pub elapsed_ms: u32,
    pub just_finished: bool,
}

impl UapAnimation {
    /// Well-formedness: the frame index is inside the state's frame count
    /// and the timer has not yet completed its interval.
    pub open spec fn wf(self) -> bool {
        &&& self.frame < frames_of(self.state)
        &&& self.elapsed_ms < interval_of(self.state)
    }

    /// The record after the timer accumulates `delta` milliseconds: on
    /// completing the interval the frame advances modulo the frame count
    /// and the timer restarts with the leftover time.
    pub open spec fn ticked(self, delta: u32) -> UapAnimation {
        let total = self.elapsed_ms + delta;
        if total >= interval_of(self.state) {
            UapAnimation {
                frame: ((self.frame + 1) % frames_of(self.state)) as usize,
                elapsed_ms: (total % interval_of(self.state)) as u32,
                just_finished: true,
                ..self
            }
        } else {
            UapAnimation { elapsed_ms: total as u32, just_finished: false, ..self }
        }
    }

    /// A fresh idling record.
    fn idling() -> (a: UapAnimation)
        ensures
            a == fresh(UapAnimationState::Idling),
    {
        UapAnimation { state: UapAnimationState::Idling, frame: 0, elapsed_ms: 0, just_finished: false }
    }

    /// A fresh flying record.
    fn flying() -> (a: UapAnimation)
        ensures
            a == fresh(UapAnimationState::Flying),
    {
        UapAnimation { state: UapAnimationState::Flying, frame: 0, elapsed_ms: 0, just_finished: false }
    }

    /// A new animation record: entities start out idling.
    pub fn new() -> (a: UapAnimation)
        ensures
            a == fresh(UapAnimationState::Idling),
            a.wf(),
    {
        UapAnimation::idling()
    }

    /// Accumulates `delta` milliseconds; the frame index always stays
    /// inside `[0, frame count)`.
    pub fn update_timer(&mut self, delta: u32)
        requires
            old(self).wf(),
        ensures
            *final(self) == old(self).ticked(delta),
            final(self).just_finished == (old(self).elapsed_ms + delta >= interval_of(old(self).state)),
            final(self).frame < frames_of(final(self).state),
            final(self).state == old(self).state,
            final(self).wf(),
    {
        let interval: u32 = match self.state {
            UapAnimationState::Idling => IDLE_INTERVAL_MS,
            UapAnimationState::Flying => FLYING_INTERVAL_MS,
        };
        let frames: usize = match self.state {
            UapAnimationState::Idling => IDLE_FRAMES,
            UapAnimationState::Flying => FLYING_FRAMES,
        };
        let total: u64 = (self.elapsed_ms as u64) + (delta as u64);
        if total >= interval as u64 {
            self.frame = (self.frame + 1) % frames;
            self.elapsed_ms = (total % (interval as u64)) as u32;
            self.just_finished = true;
        } else {
            self.elapsed_ms = total as u32;
            self.just_finished = false;
        }
    }

    /// Switches to `state` if it differs, reconstructing the record from
    /// scratch: frame index zero and a freshly started timer.
    pub fn update_state(&mut self, state: UapAnimationState)
        requires
            old(self).wf(),
        ensures
            old(self).state == state ==> *final(self) == *old(self),
            old(self).state != state ==> *final(self) == fresh(state),
            final(self).state == state,
            final(self).wf(),
    {
        if self.state != state {
            match state {
                UapAnimationState::Idling => {
                    *self = UapAnimation::idling();
                },
                UapAnimationState::Flying => {
                    *self = UapAnimation::flying();
                },
            }
        }
    }

    /// Whether the displayed frame advanced this tick.
    pub fn changed(&self) -> (r: bool)
        ensures
            r == self.just_finished,
    {
        self.just_finished
    }

    /// The sprite index in the texture atlas for the current frame.
    pub fn get_atlas_index(&self) -> (r: usize)
        ensures
            r == self.frame,
    {
        match self.state {
            UapAnimationState::Idling => self.frame,
            UapAnimationState::Flying => self.frame,
        }
    }
}

} // verus!
