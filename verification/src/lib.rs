//! Core engine of a dual-n-back memory exercise.
//!
//! On a fixed cadence the exercise shows a combination of cues (a spatial
//! position, a color, a sound) and the player states, per cue channel, whether
//! the current cue equals the cue shown a fixed number of steps earlier. This
//! crate holds the part with algorithmic content: bounded short-term-memory
//! cue generation with a deliberate self-repetition bias ([`cue`], [`tile`]),
//! lock-step round resolution ([`round`]), confusion-matrix scoring with a
//! summary F1 signal ([`score`]), and the difficulty staircase driven by that
//! signal ([`settings`]). Rendering, audio and input stay outside; they consume
//! the per-round cue tuple and feed back the player's answer.

pub mod cue;
pub mod round;
mod rng;
pub mod score;
pub mod settings;
pub mod tile;
