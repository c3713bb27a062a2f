//! Session settings and the difficulty staircase.
//!
//! Between sessions the host adjusts the back distance from the finished
//! session's summary F1 percent: a score of at least eighty percent raises the
//! back distance by one, a score of at most fifty percent holds it (clamped to
//! at least one), anything between leaves the settings alone. The round budget
//! follows the back distance as `20 + n*n`. The two thresholds and the budget
//! formula are tunable constants of the exercise design with no deeper
//! rationale.

use vstd::prelude::*;

verus! {

/// The F1 percent at or above which the staircase raises the back distance.
pub const RAISE_THRESHOLD_PERCENT: usize = 80;

/// The F1 percent at or below which the staircase holds the back distance,
/// clamping it to at least one.
pub const HOLD_THRESHOLD_PERCENT: usize = 50;

/// What the player chose for the next session: back distance, round budget
/// and the set of active modalities.
#[derive(Clone, Copy, PartialEq, Eq, Structural, Debug)]
pub struct GameSettings {
    pub n: usize,
    pub rounds: usize,
    pub position: bool,
    pub color: bool,
    pub sound: bool,
}

/// The round budget that fits a back distance: harder sessions get more
/// rounds.
pub open spec fn rounds_for(n: int) -> int {
    20 + n * n
}

impl Default for GameSettings {
    /// The settings a fresh install starts with.
    fn default() -> (r: GameSettings)
        ensures
            r == (GameSettings { n: 2, rounds: 24, position: true, color: true, sound: true }),
    {
        GameSettings { n: 2, rounds: 24, position: true, color: true, sound: true }
    }
}

impl GameSettings {
    /// Recompute the round budget from the back distance.
    pub fn set_rounds_from_n(&mut self)
        requires
            rounds_for(old(self).n as int) <= usize::MAX,
        ensures
            *final(self) == (GameSettings { rounds: rounds_for(old(self).n as int) as usize, ..*old(
                self,
            ) }),
    {
        self.rounds = 20 + self.n * self.n;
    }

    /// Apply the staircase to a finished session's summary F1 percent: raise
    /// the back distance at or above the raise threshold, hold it (clamped to
    /// at least one) at or below the hold threshold, and leave everything
    /// untouched in between. The round budget follows whenever the back
    /// distance is re-set.
    pub fn apply_f1_percent(&mut self, percent: usize)
        requires
            rounds_for(old(self).n as int + 1) <= usize::MAX,
        ensures
            percent >= RAISE_THRESHOLD_PERCENT ==> *final(self) == (GameSettings {
                n: (old(self).n + 1) as usize,
                rounds: rounds_for(old(self).n as int + 1) as usize,
                ..*old(self)
            }),
            (HOLD_THRESHOLD_PERCENT < percent < RAISE_THRESHOLD_PERCENT) ==> *final(self) == *old(
                self,
            ),
            percent <= HOLD_THRESHOLD_PERCENT ==> *final(self) == (GameSettings {
                n: (if old(self).n >= 1 {
                    old(self).n as int
                } else {
                    1
                }) as usize,
                rounds: rounds_for(
                    if old(self).n >= 1 {
                        old(self).n as int
                    } else {
                        1
                    },
                ) as usize,
                ..*old(self)
            }),
    {
        if percent >= RAISE_THRESHOLD_PERCENT {
            proof {
                let n = old(self).n as int;
                assert(n + 1 <= rounds_for(n + 1)) by (nonlinear_arith);
            }
            self.n = self.n + 1;
            self.set_rounds_from_n();
        } else if percent <= HOLD_THRESHOLD_PERCENT {
            if self.n < 1 {
                self.n = 1;
            }
            proof {
                lemma_rounds_for_monotone(self.n as int, old(self).n as int + 1);
            }
            self.set_rounds_from_n();
        }
    }
}

/// A longer back distance never shrinks the round budget.
proof fn lemma_rounds_for_monotone(a: int, b: int)
    requires
        0 <= a <= b,
    ensures
        rounds_for(a) <= rounds_for(b),
{
    assert(a * a <= b * b) by (nonlinear_arith)
        requires
            0 <= a <= b,
    ;
}

} // verus!
