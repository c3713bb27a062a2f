//! Confusion-matrix scoring for the answer classifier.
//!
//! Each resolved round compares the player's answer for a channel against the
//! channel's actual match state and records one of the four confusion-matrix
//! outcomes. The tracker derives the summary statistics on demand: the counts
//! of correct and wrong classifications and the F1 score, the single signal
//! the difficulty staircase reads. The F1 score is kept as an exact ratio of
//! integers, `2*tp / (2*tp + fp + fn)`, rather than a floating-point value.

use vstd::prelude::*;

verus! {

/// One cell of the two-by-two confusion matrix: how the player's answer for a
/// channel relates to the channel's actual match state in one round.
#[derive(Clone, Copy, PartialEq, Eq, Structural, Debug)]
pub enum Outcome {
    /// Answered "match" and the channel matched.
    TruePositive,
    /// Answered "match" but the channel did not match.
    FalsePositive,
    /// Stayed silent although the channel matched.
    FalseNegative,
    /// Stayed silent and the channel did not match.
    TrueNegative,
}

/// Mathematical content of a [`ScoreTracker`]: the four counters of the
/// confusion matrix.
pub struct Confusion {
    pub true_pos: nat,
    pub false_pos: nat,
    pub false_neg: nat,
    pub true_neg: nat,
}

/// The state of a tracker that has recorded nothing.
pub open spec fn zero_confusion() -> Confusion {
    Confusion { true_pos: 0, false_pos: 0, false_neg: 0, true_neg: 0 }
}

/// A count held to the machine word: counters saturate instead of wrapping.
pub open spec fn cap_count(v: int) -> int {
    if v <= usize::MAX as int {
        v
    } else {
        usize::MAX as int
    }
}

/// The matrix after one more outcome: the matching counter grows by one,
/// saturating at the machine limit.
pub open spec fn recorded(c: Confusion, outcome: Outcome) -> Confusion {
    match outcome {
        Outcome::TruePositive => Confusion { true_pos: cap_count((c.true_pos + 1) as int) as nat, ..c },
        Outcome::FalsePositive => Confusion { false_pos: cap_count((c.false_pos + 1) as int) as nat, ..c },
        Outcome::FalseNegative => Confusion { false_neg: cap_count((c.false_neg + 1) as int) as nat, ..c },
        Outcome::TrueNegative => Confusion { true_neg: cap_count((c.true_neg + 1) as int) as nat, ..c },
    }
}

/// How many rounds were classified correctly: true positives and negatives.
pub open spec fn correct_spec(c: Confusion) -> nat {
    c.true_pos + c.true_neg
}

/// How many rounds were classified wrongly: false positives and negatives.
pub open spec fn wrong_spec(c: Confusion) -> nat {
    c.false_pos + c.false_neg
}

/// Numerator of the F1 score as an exact ratio. With no positive ground truth
/// yet (no true positive and no false negative) the score is defined as one,
/// so numerator and denominator are both one.
pub open spec fn f1_numer(c: Confusion) -> nat {
    if c.true_pos + c.false_neg == 0 {
        1
    } else {
        2 * c.true_pos
    }
}

/// Denominator of the F1 score as an exact ratio; always at least one.
pub open spec fn f1_denom(c: Confusion) -> nat {
    if c.true_pos + c.false_neg == 0 {
        1
    } else {
        2 * c.true_pos + c.false_pos + c.false_neg
    }
}

/// The F1 score rounded down to whole percent.
pub open spec fn f1_percent_spec(c: Confusion) -> int {
    (100 * f1_numer(c)) as int / f1_denom(c) as int
}

/// Online accumulator for the two-by-two confusion matrix. Counters only grow
/// (saturating at the machine limit); derived values are computed on demand.
pub struct ScoreTracker {
    true_pos: usize,
    false_pos: usize,
    false_neg: usize,
    true_neg: usize,
}

impl View for ScoreTracker {
    type V = Confusion;

    closed spec fn view(&self) -> Confusion {
        Confusion {
            true_pos: self.true_pos as nat,
            false_pos: self.false_pos as nat,
            false_neg: self.false_neg as nat,
            true_neg: self.true_neg as nat,
        }
    }
}

/// One more tick on a saturating counter.
fn saturating_bump(counter: usize) -> (r: usize)
    ensures
        r as int == cap_count(counter + 1),
{
    if counter < usize::MAX {
        counter + 1
    } else {
        counter
    }
}

impl ScoreTracker {
    /// A tracker with nothing recorded.
    pub fn new() -> (r: ScoreTracker)
        ensures
            r@ == zero_confusion(),
    {
        ScoreTracker { true_pos: 0, false_pos: 0, false_neg: 0, true_neg: 0 }
    }

    /// Record one round's outcome for one channel.
    pub fn record(&mut self, outcome: Outcome)
        ensures
            final(self)@ == recorded(old(self)@, outcome),
    {
        match outcome {
            Outcome::TruePositive => {
                self.true_pos = saturating_bump(self.true_pos);
            }
            Outcome::FalsePositive => {
                self.false_pos = saturating_bump(self.false_pos);
            }
            Outcome::FalseNegative => {
                self.false_neg = saturating_bump(self.false_neg);
            }
            Outcome::TrueNegative => {
                self.true_neg = saturating_bump(self.true_neg);
            }
        }
    }

    /// The true-positive count.
    pub fn true_positives(&self) -> (r: usize)
        ensures
            r as nat == self@.true_pos,
    {
        self.true_pos
    }

    /// The false-positive count.
    pub fn false_positives(&self) -> (r: usize)
        ensures
            r as nat == self@.false_pos,
    {
        self.false_pos
    }

    /// The false-negative count.
    pub fn false_negatives(&self) -> (r: usize)
        ensures
            r as nat == self@.false_neg,
    {
        self.false_neg
    }

    /// The true-negative count.
    pub fn true_negatives(&self) -> (r: usize)
        ensures
            r as nat == self@.true_neg,
    {
        self.true_neg
    }

    /// Correctly classified rounds, saturating at the machine limit.
    pub fn correct(&self) -> (r: usize)
        ensures
            r as int == cap_count(correct_spec(self@) as int),
    {
        if self.true_pos <= usize::MAX - self.true_neg {
            self.true_pos + self.true_neg
        } else {
            usize::MAX
        }
    }

    /// Wrongly classified rounds, saturating at the machine limit.
    pub fn wrong(&self) -> (r: usize)
        ensures
            r as int == cap_count(wrong_spec(self@) as int),
    {
        if self.false_pos <= usize::MAX - self.false_neg {
            self.false_pos + self.false_neg
        } else {
            usize::MAX
        }
    }

    /// The F1 score as an exact ratio, numerator first. The ratio is
    /// `2*tp / (2*tp + fp + fn)`, and `1 / 1` while no positive ground truth
    /// (true positive or false negative) has been recorded.
    pub fn f1_ratio(&self) -> (r: (u128, u128))
        ensures
            r.0 as nat == f1_numer(self@),
            r.1 as nat == f1_denom(self@),
            r.1 >= 1,
    {
        if self.true_pos == 0 && self.false_neg == 0 {
            (1, 1)
        } else {
            let tp = self.true_pos as u128;
            let fp = self.false_pos as u128;
            let fneg = self.false_neg as u128;
            (2 * tp, 2 * tp + fp + fneg)
        }
    }

    /// The F1 score rounded down to whole percent; at most one hundred. This
    /// is the difficulty-adjustment signal the session driver reads.
    pub fn f1_percent(&self) -> (r: usize)
        ensures
            r as int == f1_percent_spec(self@),
            r <= 100,
    {
        let (numer, denom) = self.f1_ratio();
        let scaled = 100 * numer;
        let percent = scaled / denom;
        proof {
            lemma_percent_bounded(numer as int, denom as int);
        }
        percent as usize
    }
}

/// A ratio of at most one stays at most one hundred after scaling to percent.
proof fn lemma_percent_bounded(numer: int, denom: int)
    requires
        denom >= 1,
        numer <= denom,
    ensures
        100 * numer / denom <= 100,
{
    assert(100 * numer <= 100 * denom) by (nonlinear_arith)
        requires
            numer <= denom,
    ;
    assert(100 * numer / denom <= 100 * denom / denom) by (nonlinear_arith)
        requires
            denom >= 1,
            100 * numer <= 100 * denom,
    ;
    assert(100 * denom / denom == 100) by (nonlinear_arith)
        requires
            denom >= 1,
    ;
}

/// While no positive ground truth has been recorded there was no chance to
/// miss a match, and the F1 score is exactly one (one hundred percent),
/// whatever the other counters hold.
pub proof fn lemma_f1_perfect_without_positives(c: Confusion)
    requires
        c.true_pos + c.false_neg == 0,
    ensures
        f1_numer(c) == f1_denom(c),
        f1_percent_spec(c) == 100,
{
    assert(f1_numer(c) == 1);
    assert(f1_denom(c) == 1);
    assert(f1_percent_spec(c) == 100int / 1int);
}

/// With no true positive but at least one missed match, the F1 score is
/// exactly zero.
pub proof fn lemma_f1_zero_without_hits(c: Confusion)
    requires
        c.true_pos == 0,
        c.false_neg > 0,
    ensures
        f1_numer(c) == 0,
        f1_percent_spec(c) == 0,
{
}

} // verus!
