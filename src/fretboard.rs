//! Choice of a string and fret for each note, and the memory of where each
//! string is held.
use vstd::prelude::*;

verus! {

/// Number of strings of the instrument.
pub const STRING_COUNT: usize = 6;

/// Number of consecutive pitches each string can sound, open string included.
pub const FRETS_PER_STRING: u8 = 16;

/// Position slot of the control that sets every string open at once.
pub const OPEN_ALL: usize = 6;

/// Open pitch of string `s`, 0 being the low E string.
pub open spec fn string_base(s: int) -> int {
    if s == 0 {
        40
    } else if s == 1 {
        45
    } else if s == 2 {
        50
    } else if s == 3 {
        55
    } else if s == 4 {
        59
    } else {
        64
    }
}

/// Open pitch of a string.
pub fn base_note(s: usize) -> (r: u8)
    requires
        s < STRING_COUNT,
    ensures
        r == string_base(s as int),
{
    if s == 0 {
        40
    } else if s == 1 {
        45
    } else if s == 2 {
        50
    } else if s == 3 {
        55
    } else if s == 4 {
        59
    } else {
        64
    }
}

/// Whether string `s` can sound `note`.
pub open spec fn covers(s: int, note: int) -> bool {
    string_base(s) <= note < string_base(s) + FRETS_PER_STRING
}

/// A string and a fret on it; fret 0 is the open string.
#[derive(Clone, Copy, Debug, PartialEq, Eq, Structural)]
pub struct GuitarPosition {
    pub string: usize,
    pub fret: u8,
}

/// Per-string state of the instrument.
#[derive(Debug)]
pub struct Fretboard {
    /// Strings already sounded in the current group of simultaneous notes.
    pub played: Vec<bool>,
    /// Clock value of each string's last use; 0 for never.
    pub last_used: Vec<u64>,
    /// Logical clock, advanced at each assignment.
    pub clock: u64,
    /// Fret each string is known to be held at, and the open-all control;
    /// `None` where unknown.
    pub positions: Vec<Option<u8>>,
}

/// The clock value after one more assignment; it stops at the top.
pub open spec fn next_clock(c: u64) -> u64 {
    if c < u64::MAX {
        (c + 1) as u64
    } else {
        c
    }
}

impl Fretboard {
    pub open spec fn wf(&self) -> bool {
        &&& self.played@.len() == STRING_COUNT
        &&& self.last_used@.len() == STRING_COUNT
        &&& self.positions@.len() == STRING_COUNT + 1
    }

    /// Whether string `s` may take `note` in the current group.
    pub open spec fn is_candidate(&self, note: int, s: int) -> bool {
        &&& 0 <= s < STRING_COUNT
        &&& !self.played@[s]
        &&& covers(s, note)
    }

    /// All strings open and unplayed, none used yet; the open-all control
    /// in an unknown state.
    pub fn new() -> (r: Fretboard)
        ensures
            r.wf(),
            forall|s: int| 0 <= s < STRING_COUNT ==> !r.played@[s] && r.last_used@[s] == 0,
            forall|s: int| 0 <= s < STRING_COUNT ==> r.positions@[s] == Some(0u8),
            r.positions@[OPEN_ALL as int] is None,
            r.clock == 0,
    {
        Fretboard {
            played: vec![false; STRING_COUNT],
            last_used: vec![0u64; STRING_COUNT],
            clock: 0,
            positions: vec![Some(0u8), Some(0u8), Some(0u8), Some(0u8), Some(0u8), Some(0u8), None],
        }
    }

    /// Starts a new group of simultaneous notes: every string is free again.
    pub fn reset_group(&mut self)
        requires
            old(self).wf(),
        ensures
            final(self).wf(),
            forall|s: int| 0 <= s < STRING_COUNT ==> !final(self).played@[s],
            final(self).last_used@ == old(self).last_used@,
            final(self).clock == old(self).clock,
            final(self).positions@ == old(self).positions@,
    {
        self.played = vec![false; STRING_COUNT];
    }

    /// Assigns `note` to the least recently used free string that covers it,
    /// preferring the higher string (the lower fret) between strings last used
    /// at the same time, and marks that string used for the group.
    pub fn find_best_string(&mut self, note: u8) -> (r: Option<GuitarPosition>)
        requires
            old(self).wf(),
        ensures
            final(self).wf(),
            assign_step(*old(self), note, r, *final(self)),
    {
        let mut best: usize = STRING_COUNT;
        let mut s: usize = 0;
        while s < STRING_COUNT
            invariant
                self.wf(),
                s <= STRING_COUNT,
                best == STRING_COUNT || (best < s && self.is_candidate(note as int, best as int)),
                forall|k: int|
                    0 <= k < s && self.is_candidate(note as int, k) ==> best < STRING_COUNT
                        && self.last_used@[best as int] <= self.last_used@[k],
                forall|k: int|
                    0 <= k < s && self.is_candidate(note as int, k) && self.last_used@[k]
                        == self.last_used@[best as int] ==> k <= best,
            decreases STRING_COUNT - s,
        {
            let base = base_note(s);
            if !self.played[s] && base <= note && note < base + FRETS_PER_STRING {
                if best == STRING_COUNT || self.last_used[s] <= self.last_used[best] {
                    best = s;
                }
            }
            s = s + 1;
        }
        if best == STRING_COUNT {
            return None;
        }
        if self.clock < u64::MAX {
            self.clock = self.clock + 1;
        }
        let fret = note - base_note(best);
        self.last_used.set(best, self.clock);
        self.played.set(best, true);
        Some(GuitarPosition { string: best, fret })
    }

    /// Records that `string` is held at `fret`; returns whether that takes a
    /// positioning action, which it does only when the fret changes.
    pub fn set_fret(&mut self, string: usize, fret: u8) -> (changed: bool)
        requires
            old(self).wf(),
            string <= OPEN_ALL,
        ensures
            final(self).wf(),
            set_step(*old(self), string, fret, changed, *final(self)),
    {
        if self.positions[string] == Some(fret) {
            assert(self.positions@.update(string as int, Some(fret)) =~= self.positions@);
            return false;
        }
        self.positions.set(string, Some(fret));
        true
    }
}

/// What one assignment of `note` does, from state `pre` to state `post`.
pub open spec fn assign_step(pre: Fretboard, note: u8, r: Option<GuitarPosition>, post: Fretboard) -> bool {
    &&& post.positions@ == pre.positions@
    &&& match r {
        None => {
            &&& forall|s: int| !pre.is_candidate(note as int, s)
            &&& post.played@ == pre.played@
            &&& post.last_used@ == pre.last_used@
            &&& post.clock == pre.clock
        },
        Some(p) => {
            &&& pre.is_candidate(note as int, p.string as int)
            &&& p.fret == note - string_base(p.string as int)
            &&& forall|s: int|
                pre.is_candidate(note as int, s) ==> pre.last_used@[p.string as int]
                    <= pre.last_used@[s]
            &&& forall|s: int|
                pre.is_candidate(note as int, s) && pre.last_used@[s]
                    == pre.last_used@[p.string as int] ==> s <= p.string
            &&& post.played@ == pre.played@.update(p.string as int, true)
            &&& post.clock == next_clock(pre.clock)
            &&& post.last_used@ == pre.last_used@.update(p.string as int, post.clock)
        },
    }
}

/// What one call of `set_fret` does, from state `pre` to state `post`.
pub open spec fn set_step(pre: Fretboard, string: usize, fret: u8, changed: bool, post: Fretboard) -> bool {
    &&& changed == (pre.positions@[string as int] != Some(fret))
    &&& post.positions@ == pre.positions@.update(string as int, Some(fret))
    &&& post.played@ == pre.played@
    &&& post.last_used@ == pre.last_used@
    &&& post.clock == pre.clock
}

/// Setting a string to the fret it was just set to takes no action and
/// changes nothing.
pub proof fn lemma_set_fret_idempotent(
    a: Fretboard,
    b: Fretboard,
    c: Fretboard,
    string: usize,
    fret: u8,
    first: bool,
    second: bool,
)
    requires
        a.wf(),
        string <= OPEN_ALL,
        set_step(a, string, fret, first, b),
        set_step(b, string, fret, second, c),
    ensures
        !second,
        c.positions@ == b.positions@,
{
    assert(c.positions@ =~= b.positions@);
}

proof fn lemma_played_stays(
    states: Seq<Fretboard>,
    notes: Seq<u8>,
    results: Seq<Option<GuitarPosition>>,
    i: int,
    k: int,
)
    requires
        states.len() == notes.len() + 1,
        results.len() == notes.len(),
        forall|m: int| 0 <= m < notes.len() ==> #[trigger] assign_step(states[m], notes[m], results[m], states[m + 1]),
        forall|m: int| 0 <= m < states.len() ==> #[trigger] states[m].wf(),
        0 <= i < k <= notes.len(),
        results[i] is Some,
    ensures
        states[k].played@[results[i]->Some_0.string as int],
    decreases k - i,
{
    assert(assign_step(states[i], notes[i], results[i], states[i + 1]));
    if k > i + 1 {
        lemma_played_stays(states, notes, results, i, k - 1);
        let m = k - 1;
        assert(assign_step(states[m], notes[m], results[m], states[m + 1]));
        assert(states[m].wf() && states[m + 1].wf());
    } else {
        assert(assign_step(states[i], notes[i], results[i], states[i + 1]));
        assert(states[i].wf() && states[i + 1].wf());
    }
}

/// Within one group of simultaneous notes (no reset between them), no two
/// notes are given the same string.
pub proof fn lemma_group_strings_distinct(
    states: Seq<Fretboard>,
    notes: Seq<u8>,
    results: Seq<Option<GuitarPosition>>,
)
    requires
        states.len() == notes.len() + 1,
        results.len() == notes.len(),
        forall|m: int| 0 <= m < notes.len() ==> #[trigger] assign_step(states[m], notes[m], results[m], states[m + 1]),
        forall|m: int| 0 <= m < states.len() ==> #[trigger] states[m].wf(),
    ensures
        forall|i: int, j: int|
            0 <= i < j < results.len() && results[i] is Some && results[j] is Some ==> results[i]->Some_0.string
                != results[j]->Some_0.string,
{
    assert forall|i: int, j: int|
        0 <= i < j < results.len() && results[i] is Some && results[j] is Some implies results[i]->Some_0.string
            != results[j]->Some_0.string by {
        lemma_played_stays(states, notes, results, i, j);
        assert(assign_step(states[j], notes[j], results[j], states[j + 1]));
    }
}

} // verus!
