//! The in-memory score: tracks of delta-timed events and the timing mode.
use vstd::prelude::*;

verus! {

/// What a track event does.
#[derive(Clone, Copy, Debug, PartialEq, Eq, Structural)]
pub enum EventKind {
    /// A tempo change, in microseconds per beat.
    Tempo(u32),
    /// A key pressed with the given velocity (0 acts as a release).
    NoteOn { key: u8, vel: u8 },
    /// A key released.
    NoteOff { key: u8 },
    /// Any other meta message.
    OtherMeta,
    /// Any other channel, system-exclusive or escape message.
    OtherMidi,
}

/// One event of a track, timed relative to the previous event of that track.
#[derive(Clone, Copy, Debug, PartialEq, Eq, Structural)]
pub struct TrackEvent {
    pub delta: u32,
    pub kind: EventKind,
}

/// How ticks relate to time.
#[derive(Clone, Copy, Debug, PartialEq, Eq, Structural)]
pub enum Timing {
    /// Ticks per beat; the tempo gives the length of a beat.
    Metrical(u16),
    /// Frames of absolute timecode, which playback does not support.
    Timecode,
}

/// A parsed score.
#[derive(Clone, Debug)]
pub struct Score {
    pub tracks: Vec<Vec<TrackEvent>>,
    pub timing: Timing,
}

/// Meta events are always scheduled, whatever the track selection.
pub open spec fn is_meta(k: EventKind) -> bool {
    k is Tempo || k is OtherMeta
}

impl Score {
    pub open spec fn tracks_view(&self) -> Seq<Seq<TrackEvent>> {
        Seq::new(self.tracks@.len(), |t: int| self.tracks@[t]@)
    }
}

/// The keys of the note-on events of one track, in order.
pub open spec fn track_notes(events: Seq<TrackEvent>) -> Seq<u8>
    decreases events.len(),
{
    if events.len() == 0 {
        Seq::empty()
    } else {
        let rest = track_notes(events.drop_last());
        match events.last().kind {
            EventKind::NoteOn { key, .. } => rest.push(key),
            _ => rest,
        }
    }
}

/// The keys of the note-on events of all tracks, track after track.
pub open spec fn score_notes(tracks: Seq<Seq<TrackEvent>>) -> Seq<u8>
    decreases tracks.len(),
{
    if tracks.len() == 0 {
        Seq::empty()
    } else {
        score_notes(tracks.drop_last()) + track_notes(tracks.last())
    }
}

/// Collects the key of every note-on event in the score.
pub fn get_notes(score: &Score) -> (r: Vec<u8>)
    ensures
        r@ == score_notes(score.tracks_view()),
{
    let mut r: Vec<u8> = Vec::new();
    let mut t: usize = 0;
    while t < score.tracks.len()
        invariant
            t <= score.tracks@.len(),
            r@ == score_notes(score.tracks_view().take(t as int)),
        decreases score.tracks@.len() - t,
    {
        let track = &score.tracks[t];
        let ghost before = r@;
        let mut j: usize = 0;
        while j < track.len()
            invariant
                j <= track@.len(),
                r@ == before + track_notes(track@.take(j as int)),
            decreases track@.len() - j,
        {
            assert(track@.take(j as int + 1).drop_last() =~= track@.take(j as int));
            match track[j].kind {
                EventKind::NoteOn { key, .. } => {
                    r.push(key);
                },
                _ => {},
            }
            assert(r@ =~= before + track_notes(track@.take(j as int + 1)));
            j = j + 1;
        }
        assert(track@.take(j as int) =~= track@);
        assert(score.tracks_view().take(t as int + 1).drop_last()
            =~= score.tracks_view().take(t as int));
        t = t + 1;
    }
    assert(score.tracks_view().take(t as int) =~= score.tracks_view());
    r
}

} // verus!
