//! Lock-step round resolution over one cue channel per active modality.
//!
//! A [`RoundEngine`] owns the configured back distance, the round budget, the
//! current round index, one [`CueChannel`] per enabled modality, the player's
//! buffered [`Answer`] and the [`ScoreTracker`]. Once per elapsed round the
//! driving loop calls [`RoundEngine::resolve_round`]: the engine compares the
//! buffered answer against each enabled channel's match signal and records the
//! outcome, clears the answer, advances every enabled channel to produce the
//! next cue tuple, and increments the round index. Compare-then-advance is
//! mandatory: generating first would overwrite the very buffer the match
//! signal is read from.

use crate::cue::{all_sentinel, match_now, pushed_value, stepped, CueChannel, CueValue};
use crate::score::{recorded, zero_confusion, Confusion, Outcome, ScoreTracker};
use crate::tile::{TileColor, TilePosition, TileSound};
use vstd::prelude::*;

verus! {

/// One stimulus channel of the exercise.
#[derive(Clone, Copy, PartialEq, Eq, Structural, Debug)]
pub enum Modality {
    Position,
    Color,
    Sound,
}

/// The player's per-round answer: one bit per modality, first press wins, all
/// cleared when a round is resolved.
#[derive(Clone, Copy, PartialEq, Eq, Structural, Debug)]
pub struct Answer {
    pub position: bool,
    pub color: bool,
    pub sound: bool,
}

/// The answer with every bit clear, as at the start of a round.
pub open spec fn blank_answer() -> Answer {
    Answer { position: false, color: false, sound: false }
}

impl Answer {
    /// An answer with no modality pressed.
    pub fn new() -> (r: Answer)
        ensures
            r == blank_answer(),
    {
        Answer { position: false, color: false, sound: false }
    }

    /// Clear every bit, as at the start of a new round.
    pub fn reset(&mut self)
        ensures
            *final(self) == blank_answer(),
    {
        self.position = false;
        self.color = false;
        self.sound = false;
    }
}

/// Session configuration: back distance, round budget and the set of active
/// modalities.
#[derive(Clone, Copy, PartialEq, Eq, Structural, Debug)]
pub struct EngineConfig {
    pub back_distance: usize,
    pub total_rounds: usize,
    pub position: bool,
    pub color: bool,
    pub sound: bool,
}

impl EngineConfig {
    /// Configuration validation: a back distance of zero would compare a cue
    /// to itself, and an empty modality set leaves nothing to drive; both are
    /// programmer errors of the host, rejected up front.
    pub open spec fn valid(&self) -> bool {
        &&& 1 <= self.back_distance < usize::MAX
        &&& (self.position || self.color || self.sound)
    }

    /// Executable form of [`EngineConfig::valid`].
    pub fn is_valid(&self) -> (r: bool)
        ensures
            r == self.valid(),
    {
        1 <= self.back_distance && self.back_distance < usize::MAX && (self.position || self.color
            || self.sound)
    }
}

/// One pre-drawn random input for a single channel advance: whether the
/// forced-repeat branch is taken, and the value drawn from the modality's
/// value set.
#[derive(Clone, Copy, PartialEq, Eq, Debug)]
pub struct Draw<V> {
    pub lure: bool,
    pub value: V,
}

/// The outcome of comparing the player's answer bit against the channel's
/// actual match signal: the comparison table of the classifier.
pub open spec fn outcome_of(answered: bool, matched: bool) -> Outcome {
    if answered {
        if matched {
            Outcome::TruePositive
        } else {
            Outcome::FalsePositive
        }
    } else {
        if matched {
            Outcome::FalseNegative
        } else {
            Outcome::TrueNegative
        }
    }
}

/// Executable form of [`outcome_of`].
pub fn outcome_for(answered: bool, matched: bool) -> (r: Outcome)
    ensures
        r == outcome_of(answered, matched),
{
    if answered {
        if matched {
            Outcome::TruePositive
        } else {
            Outcome::FalsePositive
        }
    } else {
        if matched {
            Outcome::FalseNegative
        } else {
            Outcome::TrueNegative
        }
    }
}

/// The confusion matrix after scoring one channel: untouched when the
/// modality is disabled, else grown by the outcome of the comparison.
pub open spec fn scored_channel(c: Confusion, enabled: bool, answered: bool, matched: bool) -> Confusion {
    if enabled {
        recorded(c, outcome_of(answered, matched))
    } else {
        c
    }
}

/// A present channel is well formed and sized to the configured back
/// distance; an absent one stands for a disabled modality.
pub open spec fn channel_ok<V: CueValue>(ch: Option<CueChannel<V>>, back: nat) -> bool {
    match ch {
        Some(c) => c.wf() && c@.len() == back + 1,
        None => true,
    }
}

/// A channel as it leaves construction or restart: present exactly when the
/// modality is enabled, sized to the back distance, every slot the sentinel.
pub open spec fn fresh_channel<V: CueValue>(ch: Option<CueChannel<V>>, enabled: bool, back: nat) -> bool {
    match ch {
        Some(c) => enabled && c@.len() == back + 1 && all_sentinel(c@),
        None => !enabled,
    }
}

/// How one channel and its share of the cue tuple relate across an advance
/// driven by a pre-drawn input: an enabled channel steps by its draw and
/// reports the pushed value; a disabled one stays put and reports nothing.
pub open spec fn channel_stepped<V: CueValue>(
    pre: Option<CueChannel<V>>,
    post: Option<CueChannel<V>>,
    draw: Option<Draw<V>>,
    out: Option<V>,
) -> bool {
    match (pre, draw) {
        (Some(c), Some(d)) => {
            &&& post is Some
            &&& post->Some_0@ == stepped(c@, d.lure, d.value)
            &&& out == Some(pushed_value(c@, d.lure, d.value))
        },
        _ => post == pre && out is None,
    }
}

/// How one channel and its share of the cue tuple relate across an advance
/// whose randomness stayed internal: an enabled channel shifts left and gains
/// one real value at the back, the one reported in the tuple.
pub open spec fn channel_advanced<V: CueValue>(
    pre: Option<CueChannel<V>>,
    post: Option<CueChannel<V>>,
    out: Option<V>,
) -> bool {
    match pre {
        Some(c) => {
            &&& post is Some
            &&& out is Some
            &&& out->Some_0 != V::sentinel_spec()
            &&& post->Some_0@ == c@.subrange(1, c@.len() as int).push(out->Some_0)
        },
        None => post == pre && out is None,
    }
}

/// Coordinates one cue channel per active modality as a lock-step unit and
/// resolves rounds against the score tracker.
pub struct RoundEngine {
    /// The configured back distance, shared by every channel.
    pub back: usize,
    /// The round budget of the session.
    pub total_rounds: usize,
    /// How many rounds have been resolved.
    pub current_round: usize,
    /// The spatial channel, present when the modality is active.
    pub positions: Option<CueChannel<TilePosition>>,
    /// The color channel, present when the modality is active.
    pub colors: Option<CueChannel<TileColor>>,
    /// The sound channel, present when the modality is active.
    pub sounds: Option<CueChannel<TileSound>>,
    /// The player's buffered answer for the running round.
    pub answer: Answer,
    /// The confusion-matrix accumulator.
    pub score: ScoreTracker,
}

impl RoundEngine {
    /// Structural invariant: a legal back distance, every present channel
    /// sized to it, and at least one active modality.
    pub open spec fn wf(&self) -> bool {
        &&& 1 <= self.back < usize::MAX
        &&& channel_ok(self.positions, self.back as nat)
        &&& channel_ok(self.colors, self.back as nat)
        &&& channel_ok(self.sounds, self.back as nat)
        &&& (self.positions is Some || self.colors is Some || self.sounds is Some)
    }

    /// The match signal of the spatial channel; false while disabled.
    pub open spec fn position_match(&self) -> bool {
        match self.positions {
            Some(c) => match_now(c@),
            None => false,
        }
    }

    /// The match signal of the color channel; false while disabled.
    pub open spec fn color_match(&self) -> bool {
        match self.colors {
            Some(c) => match_now(c@),
            None => false,
        }
    }

    /// The match signal of the sound channel; false while disabled.
    pub open spec fn sound_match(&self) -> bool {
        match self.sounds {
            Some(c) => match_now(c@),
            None => false,
        }
    }

    /// The confusion matrix after the buffered answer is held against every
    /// enabled channel's match signal, in modality order.
    pub open spec fn round_scored(&self) -> Confusion {
        scored_channel(
            scored_channel(
                scored_channel(
                    self.score@,
                    self.positions is Some,
                    self.answer.position,
                    self.position_match(),
                ),
                self.colors is Some,
                self.answer.color,
                self.color_match(),
            ),
            self.sounds is Some,
            self.answer.sound,
            self.sound_match(),
        )
    }

    /// An engine for one session: one sentinel-seeded channel per enabled
    /// modality, round index zero, a blank answer and an empty score.
    pub fn new(config: EngineConfig) -> (r: RoundEngine)
        requires
            config.valid(),
        ensures
            r.wf(),
            r.back == config.back_distance,
            r.total_rounds == config.total_rounds,
            r.current_round == 0,
            r.answer == blank_answer(),
            r.score@ == zero_confusion(),
            fresh_channel(r.positions, config.position, config.back_distance as nat),
            fresh_channel(r.colors, config.color, config.back_distance as nat),
            fresh_channel(r.sounds, config.sound, config.back_distance as nat),
    {
        let positions: Option<CueChannel<TilePosition>> = if config.position {
            Some(CueChannel::with_back_distance(config.back_distance))
        } else {
            None
        };
        let colors: Option<CueChannel<TileColor>> = if config.color {
            Some(CueChannel::with_back_distance(config.back_distance))
        } else {
            None
        };
        let sounds: Option<CueChannel<TileSound>> = if config.sound {
            Some(CueChannel::with_back_distance(config.back_distance))
        } else {
            None
        };
        RoundEngine {
            back: config.back_distance,
            total_rounds: config.total_rounds,
            current_round: 0,
            positions,
            colors,
            sounds,
            answer: Answer::new(),
            score: ScoreTracker::new(),
        }
    }

    /// The configured back distance.
    pub fn back_distance(&self) -> (r: usize)
        ensures
            r == self.back,
    {
        self.back
    }

    /// Buffer the player's answer for one modality: first press wins, pressing
    /// an already-pressed modality changes nothing, everything else is
    /// untouched.
    pub fn record_answer(&mut self, modality: Modality)
        ensures
            final(self).answer == (match modality {
                Modality::Position => Answer { position: true, ..old(self).answer },
                Modality::Color => Answer { color: true, ..old(self).answer },
                Modality::Sound => Answer { sound: true, ..old(self).answer },
            }),
            final(self).back == old(self).back,
            final(self).total_rounds == old(self).total_rounds,
            final(self).current_round == old(self).current_round,
            final(self).positions == old(self).positions,
            final(self).colors == old(self).colors,
            final(self).sounds == old(self).sounds,
            final(self).score == old(self).score,
    {
        match modality {
            Modality::Position => {
                self.answer.position = true;
            }
            Modality::Color => {
                self.answer.color = true;
            }
            Modality::Sound => {
                self.answer.sound = true;
            }
        }
    }

    /// The match signal of one modality's channel; false for a disabled one.
    pub fn is_match(&self, modality: Modality) -> (r: bool)
        requires
            self.wf(),
        ensures
            r == (match modality {
                Modality::Position => self.position_match(),
                Modality::Color => self.color_match(),
                Modality::Sound => self.sound_match(),
            }),
    {
        match modality {
            Modality::Position => {
                match &self.positions {
                    Some(c) => c.is_match(),
                    None => false,
                }
            }
            Modality::Color => {
                match &self.colors {
                    Some(c) => c.is_match(),
                    None => false,
                }
            }
            Modality::Sound => {
                match &self.sounds {
                    Some(c) => c.is_match(),
                    None => false,
                }
            }
        }
    }

    /// Whether the session's round budget is used up.
    pub fn is_finished(&self) -> (r: bool)
        ensures
            r == (self.current_round >= self.total_rounds),
    {
        self.current_round >= self.total_rounds
    }

    /// Hold the buffered answer against every enabled channel's match signal
    /// and record the outcomes, in modality order. Touches nothing else.
    fn score_answers(&mut self)
        requires
            old(self).wf(),
        ensures
            final(self).score@ == old(self).round_scored(),
            final(self).back == old(self).back,
            final(self).total_rounds == old(self).total_rounds,
            final(self).current_round == old(self).current_round,
            final(self).positions == old(self).positions,
            final(self).colors == old(self).colors,
            final(self).sounds == old(self).sounds,
            final(self).answer == old(self).answer,
            final(self).wf(),
    {
        let position_matched = match &self.positions {
            Some(c) => c.is_match(),
            None => false,
        };
        if self.positions.is_some() {
            let outcome = outcome_for(self.answer.position, position_matched);
            self.score.record(outcome);
        }
        let color_matched = match &self.colors {
            Some(c) => c.is_match(),
            None => false,
        };
        if self.colors.is_some() {
            let outcome = outcome_for(self.answer.color, color_matched);
            self.score.record(outcome);
        }
        let sound_matched = match &self.sounds {
            Some(c) => c.is_match(),
            None => false,
        };
        if self.sounds.is_some() {
            let outcome = outcome_for(self.answer.sound, sound_matched);
            self.score.record(outcome);
        }
    }

    /// Advance every enabled channel by a pre-drawn input and report the new
    /// cue tuple. This is the deterministic core of a round advance; the
    /// score, the answer and the round index are untouched.
    pub fn new_cue_from(
        &mut self,
        position_draw: Option<Draw<TilePosition>>,
        color_draw: Option<Draw<TileColor>>,
        sound_draw: Option<Draw<TileSound>>,
    ) -> (r: (Option<TilePosition>, Option<TileColor>, Option<TileSound>))
        requires
            old(self).wf(),
            position_draw is Some <==> old(self).positions is Some,
            color_draw is Some <==> old(self).colors is Some,
            sound_draw is Some <==> old(self).sounds is Some,
            position_draw matches Some(d) ==> d.value != TilePosition::Sentinel,
            color_draw matches Some(d) ==> d.value != TileColor::Sentinel,
            sound_draw matches Some(d) ==> d.value != TileSound::Sentinel,
        ensures
            final(self).wf(),
            channel_stepped(old(self).positions, final(self).positions, position_draw, r.0),
            channel_stepped(old(self).colors, final(self).colors, color_draw, r.1),
            channel_stepped(old(self).sounds, final(self).sounds, sound_draw, r.2),
            final(self).back == old(self).back,
            final(self).total_rounds == old(self).total_rounds,
            final(self).current_round == old(self).current_round,
            final(self).answer == old(self).answer,
            final(self).score == old(self).score,
    {
        let mut new_position: Option<TilePosition> = None;
        if let Some(d) = position_draw {
            match &mut self.positions {
                Some(c) => {
                    new_position = Some(c.generate_from(d.lure, d.value));
                }
                None => {}
            }
        }
        let mut new_color: Option<TileColor> = None;
        if let Some(d) = color_draw {
            match &mut self.colors {
                Some(c) => {
                    new_color = Some(c.generate_from(d.lure, d.value));
                }
                None => {}
            }
        }
        let mut new_sound: Option<TileSound> = None;
        if let Some(d) = sound_draw {
            match &mut self.sounds {
                Some(c) => {
                    new_sound = Some(c.generate_from(d.lure, d.value));
                }
                None => {}
            }
        }
        (new_position, new_color, new_sound)
    }

    /// Advance every enabled channel with fresh internal randomness and
    /// report the new cue tuple; everything else is untouched.
    pub fn new_cue(&mut self) -> (r: (Option<TilePosition>, Option<TileColor>, Option<TileSound>))
        requires
            old(self).wf(),
        ensures
            final(self).wf(),
            channel_advanced(old(self).positions, final(self).positions, r.0),
            channel_advanced(old(self).colors, final(self).colors, r.1),
            channel_advanced(old(self).sounds, final(self).sounds, r.2),
            final(self).back == old(self).back,
            final(self).total_rounds == old(self).total_rounds,
            final(self).current_round == old(self).current_round,
            final(self).answer == old(self).answer,
            final(self).score == old(self).score,
    {
        let mut new_position: Option<TilePosition> = None;
        match &mut self.positions {
            Some(c) => {
                new_position = Some(c.generate());
            }
            None => {}
        }
        let mut new_color: Option<TileColor> = None;
        match &mut self.colors {
            Some(c) => {
                new_color = Some(c.generate());
            }
            None => {}
        }
        let mut new_sound: Option<TileSound> = None;
        match &mut self.sounds {
            Some(c) => {
                new_sound = Some(c.generate());
            }
            None => {}
        }
        (new_position, new_color, new_sound)
    }

    /// Resolve one round from pre-drawn randomness: score the buffered answer
    /// against every enabled channel's current match signal, clear the
    /// answer, advance every enabled channel by its draw, and count the
    /// round. Returns the new cue tuple. Comparison strictly precedes
    /// advancing.
    pub fn resolve_round_from(
        &mut self,
        position_draw: Option<Draw<TilePosition>>,
        color_draw: Option<Draw<TileColor>>,
        sound_draw: Option<Draw<TileSound>>,
    ) -> (r: (Option<TilePosition>, Option<TileColor>, Option<TileSound>))
        requires
            old(self).wf(),
            old(self).current_round < usize::MAX,
            position_draw is Some <==> old(self).positions is Some,
            color_draw is Some <==> old(self).colors is Some,
            sound_draw is Some <==> old(self).sounds is Some,
            position_draw matches Some(d) ==> d.value != TilePosition::Sentinel,
            color_draw matches Some(d) ==> d.value != TileColor::Sentinel,
            sound_draw matches Some(d) ==> d.value != TileSound::Sentinel,
        ensures
            final(self).wf(),
            final(self).score@ == old(self).round_scored(),
            final(self).answer == blank_answer(),
            final(self).current_round == old(self).current_round + 1,
            channel_stepped(old(self).positions, final(self).positions, position_draw, r.0),
            channel_stepped(old(self).colors, final(self).colors, color_draw, r.1),
            channel_stepped(old(self).sounds, final(self).sounds, sound_draw, r.2),
            final(self).back == old(self).back,
            final(self).total_rounds == old(self).total_rounds,
    {
        self.score_answers();
        self.answer.reset();
        let cues = self.new_cue_from(position_draw, color_draw, sound_draw);
        self.current_round = self.current_round + 1;
        cues
    }

    /// Resolve one round with fresh internal randomness: score the buffered
    /// answer against every enabled channel's current match signal, clear the
    /// answer, advance every enabled channel, and count the round. Returns
    /// the new cue tuple. The caller invokes this exactly once per elapsed
    /// round interval.
    pub fn resolve_round(&mut self) -> (r: (
        Option<TilePosition>,
        Option<TileColor>,
        Option<TileSound>,
    ))
        requires
            old(self).wf(),
            old(self).current_round < usize::MAX,
        ensures
            final(self).wf(),
            final(self).score@ == old(self).round_scored(),
            final(self).answer == blank_answer(),
            final(self).current_round == old(self).current_round + 1,
            channel_advanced(old(self).positions, final(self).positions, r.0),
            channel_advanced(old(self).colors, final(self).colors, r.1),
            channel_advanced(old(self).sounds, final(self).sounds, r.2),
            final(self).back == old(self).back,
            final(self).total_rounds == old(self).total_rounds,
    {
        self.score_answers();
        self.answer.reset();
        let cues = self.new_cue();
        self.current_round = self.current_round + 1;
        cues
    }

    /// Start the session over: round index and score return to zero and every
    /// enabled channel is rebuilt sentinel-filled, with a new back distance
    /// when one is supplied. The set of active modalities and the round
    /// budget stay; the buffered answer is left to the next resolution.
    pub fn restart(&mut self, new_back_distance: Option<usize>)
        requires
            old(self).wf(),
            new_back_distance matches Some(n) ==> 1 <= n < usize::MAX,
        ensures
            final(self).wf(),
            final(self).back == (match new_back_distance {
                Some(n) => n,
                None => old(self).back,
            }),
            final(self).current_round == 0,
            final(self).score@ == zero_confusion(),
            fresh_channel(
                final(self).positions,
                old(self).positions is Some,
                final(self).back as nat,
            ),
            fresh_channel(final(self).colors, old(self).colors is Some, final(self).back as nat),
            fresh_channel(final(self).sounds, old(self).sounds is Some, final(self).back as nat),
            final(self).total_rounds == old(self).total_rounds,
            final(self).answer == old(self).answer,
    {
        if let Some(n) = new_back_distance {
            self.back = n;
        }
        self.score = ScoreTracker::new();
        self.current_round = 0;
        if self.positions.is_some() {
            self.positions = Some(CueChannel::with_back_distance(self.back));
        }
        if self.colors.is_some() {
            self.colors = Some(CueChannel::with_back_distance(self.back));
        }
        if self.sounds.is_some() {
            self.sounds = Some(CueChannel::with_back_distance(self.back));
        }
    }
}

} // verus!
