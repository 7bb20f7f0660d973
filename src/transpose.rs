//! Choice of one semitone shift that brings the most notes into the
//! instrument's range.
use vstd::prelude::*;
use crate::{MIN_NOTE, MAX_NOTE};

verus! {

/// Largest shift, up or down, that is considered.
pub const SHIFT_LIMIT: i16 = 127;

/// Whether a pitch moved by a shift lands inside the playable window.
pub open spec fn lands_in_window(note: u8, shift: int) -> bool {
    MIN_NOTE as int <= note as int + shift <= MAX_NOTE as int
}

/// How many of the notes a shift brings inside the playable window.
pub open spec fn playable_count(notes: Seq<u8>, shift: int) -> nat
    decreases notes.len(),
{
    if notes.len() == 0 {
        0
    } else {
        playable_count(notes.drop_last(), shift) + if lands_in_window(notes.last(), shift) {
            1nat
        } else {
            0nat
        }
    }
}

pub open spec fn abs(x: int) -> int {
    if x < 0 { -x } else { x }
}

pub open spec fn shift_in_range(s: int) -> bool {
    -(SHIFT_LIMIT as int) <= s <= SHIFT_LIMIT as int
}

/// `s` is the shift the optimizer must pick: no shift in range plays more
/// notes, none that plays as many is closer to zero, and of two shifts of the
/// same size that play as many the downward one wins.
pub open spec fn is_optimal_shift(notes: Seq<u8>, s: int) -> bool {
    &&& shift_in_range(s)
    &&& forall|t: int| shift_in_range(t) ==> playable_count(notes, t) <= playable_count(notes, s)
    &&& forall|t: int|
        shift_in_range(t) && playable_count(notes, t) == playable_count(notes, s) ==> abs(s) <= abs(
            t,
        )
    &&& s > 0 ==> playable_count(notes, -s) < playable_count(notes, s)
}

/// No shift makes more notes playable than there are.
pub proof fn lemma_playable_count_bounded(notes: Seq<u8>, shift: int)
    ensures
        playable_count(notes, shift) <= notes.len(),
    decreases notes.len(),
{
    if notes.len() > 0 {
        lemma_playable_count_bounded(notes.drop_last(), shift);
    }
}

/// Counts the notes that `shift` brings into the playable window.
pub fn count_playable(notes: &Vec<u8>, shift: i16) -> (r: usize)
    ensures
        r == playable_count(notes@, shift as int),
{
    let mut r: usize = 0;
    let mut i: usize = 0;
    while i < notes.len()
        invariant
            i <= notes@.len(),
            r <= i,
            r == playable_count(notes@.take(i as int), shift as int),
        decreases notes@.len() - i,
    {
        assert(notes@.take(i as int + 1).drop_last() =~= notes@.take(i as int));
        let moved: i32 = notes[i] as i32 + shift as i32;
        if MIN_NOTE as i32 <= moved && moved <= MAX_NOTE as i32 {
            r = r + 1;
        }
        i = i + 1;
    }
    assert(notes@.take(i as int) =~= notes@);
    r
}

/// Picks the shift, scanning from -127 up to 127, that brings the most notes
/// into range, the smallest in size among those.
pub fn calculate_optimal_shift(notes: &Vec<u8>) -> (r: i8)
    ensures
        is_optimal_shift(notes@, r as int),
{
    let mut best: i16 = 0;
    let mut best_count: usize = count_playable(notes, 0);
    let mut shift: i16 = -SHIFT_LIMIT;
    while shift <= SHIFT_LIMIT
        invariant
            -SHIFT_LIMIT <= shift <= SHIFT_LIMIT + 1,
            shift_in_range(best as int),
            best_count == playable_count(notes@, best as int),
            forall|t: int|
                -SHIFT_LIMIT <= t < shift ==> playable_count(notes@, t) <= best_count,
            forall|t: int|
                -SHIFT_LIMIT <= t < shift && playable_count(notes@, t) == best_count ==> abs(
                    best as int,
                ) <= abs(t),
            best > 0 ==> playable_count(notes@, -best) < best_count,
        decreases SHIFT_LIMIT + 1 - shift,
    {
        let c = count_playable(notes, shift);
        let shift_abs: i16 = if shift < 0 { -shift } else { shift };
        let best_abs: i16 = if best < 0 { -best } else { best };
        if c > best_count || (c == best_count && shift_abs < best_abs) {
            best = shift;
            best_count = c;
        }
        shift = shift + 1;
    }
    best as i8
}

/// Figures on how well a shift fits the notes, for reporting.
#[derive(Clone, Copy, Debug, PartialEq, Eq, Structural)]
pub struct ShiftReport {
    pub total: usize,
    pub playable: usize,
    /// Whole percent of the notes that are playable; 0 when there are none.
    pub percent: usize,
}

/// Summarises how many notes `shift` makes playable.
pub fn shift_report(notes: &Vec<u8>, shift: i16) -> (r: ShiftReport)
    ensures
        r.total == notes@.len(),
        r.playable == playable_count(notes@, shift as int),
        r.percent as int == if notes@.len() == 0 {
            0
        } else {
            (r.playable as int) * 100 / (r.total as int)
        },
{
    let total = notes.len();
    let playable = count_playable(notes, shift);
    proof {
        lemma_playable_count_bounded(notes@, shift as int);
    }
    let percent: usize = if total == 0 {
        0
    } else {
        let wide: u128 = (playable as u128) * 100 / (total as u128);
        assert(wide <= 100) by (nonlinear_arith)
            requires
                wide == (playable as int) * 100 / (total as int),
                playable <= total,
                total > 0,
        ;
        wide as usize
    };
    ShiftReport { total, playable, percent }
}

} // verus!
