//! The three cue modalities of the exercise.
//!
//! Each modality is a closed enumeration of real cue values plus the sentinel
//! that seeds channel history before any real cue has been generated. How a
//! value is presented (screen coordinates, palette colors, sound files) is the
//! renderer's business and stays outside this crate.

use crate::cue::CueValue;
use vstd::prelude::*;

verus! {

/// Spatial cue: one of nine cells of a three-by-three grid.
#[derive(Clone, Copy, PartialEq, Eq, Structural, Debug)]
pub enum TilePosition {
    TopLeft,
    TopCenter,
    TopRight,
    CenterLeft,
    Center,
    CenterRight,
    BottomLeft,
    BottomCenter,
    BottomRight,
    /// No cue shown yet.
    Sentinel,
}

impl CueValue for TilePosition {
    open spec fn sentinel_spec() -> Self {
        TilePosition::Sentinel
    }

    open spec fn count_spec() -> nat {
        9
    }

    fn sentinel() -> (r: Self) {
        TilePosition::Sentinel
    }

    fn value_count() -> (r: usize) {
        9
    }

    fn from_index(i: usize) -> (r: Self) {
        match i {
            0 => TilePosition::TopLeft,
            1 => TilePosition::TopCenter,
            2 => TilePosition::TopRight,
            3 => TilePosition::CenterLeft,
            4 => TilePosition::Center,
            5 => TilePosition::CenterRight,
            6 => TilePosition::BottomLeft,
            7 => TilePosition::BottomCenter,
            _ => TilePosition::BottomRight,
        }
    }

    fn eq_value(&self, other: &Self) -> (r: bool) {
        *self == *other
    }
}

/// Color cue: one of five palette entries.
#[derive(Clone, Copy, PartialEq, Eq, Structural, Debug)]
pub enum TileColor {
    A,
    B,
    C,
    D,
    E,
    /// No cue shown yet.
    Sentinel,
}

impl CueValue for TileColor {
    open spec fn sentinel_spec() -> Self {
        TileColor::Sentinel
    }

    open spec fn count_spec() -> nat {
        5
    }

    fn sentinel() -> (r: Self) {
        TileColor::Sentinel
    }

    fn value_count() -> (r: usize) {
        5
    }

    fn from_index(i: usize) -> (r: Self) {
        match i {
            0 => TileColor::A,
            1 => TileColor::B,
            2 => TileColor::C,
            3 => TileColor::D,
            _ => TileColor::E,
        }
    }

    fn eq_value(&self, other: &Self) -> (r: bool) {
        *self == *other
    }
}

/// Sound cue: one of eight letter sounds.
#[derive(Clone, Copy, PartialEq, Eq, Structural, Debug)]
pub enum TileSound {
    C,
    H,
    K,
    L,
    Q,
    R,
    S,
    T,
    /// No cue played yet.
    Sentinel,
}

impl CueValue for TileSound {
    open spec fn sentinel_spec() -> Self {
        TileSound::Sentinel
    }

    open spec fn count_spec() -> nat {
        8
    }

    fn sentinel() -> (r: Self) {
        TileSound::Sentinel
    }

    fn value_count() -> (r: usize) {
        8
    }

    fn from_index(i: usize) -> (r: Self) {
        match i {
            0 => TileSound::C,
            1 => TileSound::H,
            2 => TileSound::K,
            3 => TileSound::L,
            4 => TileSound::Q,
            5 => TileSound::R,
            6 => TileSound::S,
            _ => TileSound::T,
        }
    }

    fn eq_value(&self, other: &Self) -> (r: bool) {
        *self == *other
    }
}

} // verus!
