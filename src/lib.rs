//! Turns a multi-track score into a paced stream of note actions on a
//! six-string instrument: transposition, merging of tracks by time,
//! string and fret assignment, and the decisions of the playback loop.
use vstd::prelude::*;

pub mod score;
pub mod midi;
pub mod transpose;
pub mod merge;
pub mod fretboard;
pub mod player;

verus! {

/// Lowest pitch the instrument can sound.
pub const MIN_NOTE: u8 = 40;

/// Highest pitch the instrument can sound.
pub const MAX_NOTE: u8 = 79;

} // verus!
