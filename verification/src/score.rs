//! The session scoreboard.
//!
//! A single counter starts at zero and only ever grows: every score event
//! adds its points with saturating arithmetic, so the tally never
//! decreases and never overflows.

use vstd::prelude::*;

use crate::events::ScoreEvent;

verus! {

/// Saturating addition on the score range.
pub open spec fn sat_add(a: int, b: int) -> int {
    if a + b > usize::MAX {
        usize::MAX as int
    } else {
        a + b
    }
}

/// The score after absorbing a queue of score events in order.
pub open spec fn tallied(score: int, events: Seq<ScoreEvent>) -> int
    decreases events.len(),
{
    if events.len() == 0 {
        score
    } else {
        tallied(sat_add(score, events[0].score_to_add as int), events.drop_first())
    }
}

/// Sum of the points of a queue of score events.
pub open spec fn points_sum(events: Seq<ScoreEvent>) -> int
    decreases events.len(),
{
    if events.len() == 0 {
        0
    } else {
        events[0].score_to_add + points_sum(events.drop_first())
    }
}

/// The session score tally.
#[derive(Clone, Copy, Debug, PartialEq, Eq, Structural)]
pub struct Scoreboard {
    pub score: usize,
}

impl Scoreboard {
    /// Adds points to the score, saturating at the top of the range. The
    /// score never decreases.
    pub fn update_score(&mut self, points: usize)
        ensures
            final(self).score as int == sat_add(old(self).score as int, points as int),
            old(self).score <= final(self).score,
    {
        if points > usize::MAX - self.score {
            self.score = usize::MAX;
        } else {
            self.score = self.score + points;
        }
    }

    /// Absorbs a whole queue of score events in order.
    pub fn absorb(&mut self, events: &Vec<ScoreEvent>)
        ensures
            final(self).score as int == tallied(old(self).score as int, events@),
            old(self).score <= final(self).score,
    {
        let ghost all = events@;
        proof {
            assert(all.skip(0) =~= all);
        }
        let mut i: usize = 0;
        while i < events.len()
            invariant
                i <= events.len(),
                all == events@,
                tallied(old(self).score as int, all) == tallied(self.score as int, all.skip(i as int)),
                old(self).score <= self.score,
            decreases events.len() - i,
        {
            proof {
                assert(all.skip(i as int).drop_first() =~= all.skip(i + 1));
                assert(all.skip(i as int)[0] == all[i as int]);
            }
            self.update_score(events[i].score_to_add);
            i = i + 1;
        }
        proof {
            assert(all.skip(events@.len() as int) =~= Seq::<ScoreEvent>::empty());
        }
    }
}

/// A fresh scoreboard: sessions start at zero.
pub fn score() -> (s: Scoreboard)
    ensures
        s == (Scoreboard { score: 0 }),
{
    Scoreboard { score: 0 }
}

/// The points of a score queue are nonnegative.
pub proof fn lemma_points_sum_nonneg(events: Seq<ScoreEvent>)
    ensures
        0 <= points_sum(events),
    decreases events.len(),
{
    if events.len() > 0 {
        lemma_points_sum_nonneg(events.drop_first());
    }
}

/// Absorbing a queue of score events yields exactly the saturating sum:
/// the starting score plus every event's points, held to the top of the
/// score range, and never below the starting score.
pub proof fn lemma_tally_is_saturating_sum(score: int, events: Seq<ScoreEvent>)
    requires
        0 <= score <= usize::MAX,
    ensures
        tallied(score, events) == sat_add(score, points_sum(events)),
        score <= tallied(score, events),
    decreases events.len(),
{
    if events.len() > 0 {
        let next = sat_add(score, events[0].score_to_add as int);
        lemma_points_sum_nonneg(events.drop_first());
        lemma_tally_is_saturating_sum(next, events.drop_first());
    } else {
        lemma_points_sum_nonneg(events);
    }
}

} // verus!
