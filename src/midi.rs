//! Reading a Standard MIDI File into the score model, through midly.
use vstd::prelude::*;
use crate::score::{Score, Timing, TrackEvent, EventKind};

verus! {

#[verifier::external_type_specification]
#[verifier::external_body]
pub struct ExMidiError(midly::Error);

#[verifier::external_type_specification]
#[verifier::external_body]
pub struct ExTrackEventKind<'a>(midly::TrackEventKind<'a>);

/// The tracks and timing that midly reads from the bytes of a MIDI file;
/// `None` where it rejects them.
pub uninterp spec fn midi_contents(data: Seq<u8>) -> Option<(Seq<Seq<TrackEvent>>, Timing)>;

/// Relies on midly's event kinds: a tempo change, a note-on, a note-off and
/// the other meta and channel messages, with their fields copied.
#[verifier::external_body]
fn event_kind_of(kind: &midly::TrackEventKind) -> EventKind {
    match kind {
        midly::TrackEventKind::Meta(midly::MetaMessage::Tempo(t)) => EventKind::Tempo(t.as_int()),
        midly::TrackEventKind::Meta(_) => EventKind::OtherMeta,
        midly::TrackEventKind::Midi { message: midly::MidiMessage::NoteOn { key, vel }, .. } => {
            EventKind::NoteOn { key: key.as_int(), vel: vel.as_int() }
        },
        midly::TrackEventKind::Midi { message: midly::MidiMessage::NoteOff { key, .. }, .. } => {
            EventKind::NoteOff { key: key.as_int() }
        },
        _ => EventKind::OtherMidi,
    }
}

/// Relies on midly::Smf::parse: it reads the whole file, or fails with its
/// error; the result depends on the bytes alone.
#[verifier::external_body]
fn parse_smf(data: &[u8]) -> (r: Result<Score, midly::Error>)
    ensures
        match r {
            Ok(s) => midi_contents(data@) == Some((s.tracks_view(), s.timing)),
            Err(_) => midi_contents(data@) is None,
        },
{
    let smf = midly::Smf::parse(data)?;
    let timing = match smf.header.timing {
        midly::Timing::Metrical(ppq) => Timing::Metrical(ppq.as_int()),
        midly::Timing::Timecode(..) => Timing::Timecode,
    };
    let to_event = |e: &midly::TrackEvent| TrackEvent { delta: e.delta.as_int(), kind: event_kind_of(&e.kind) };
    let tracks = smf.tracks.iter().map(|t| t.iter().map(to_event).collect()).collect();
    Ok(Score { tracks, timing })
}

/// Why the bytes of a MIDI file could not be read.
#[derive(Clone, Copy, Debug, PartialEq, Eq, Structural)]
pub enum MidiError {
    Malformed,
}

/// Reads the bytes of a MIDI file into a score.
pub fn load_score(data: &Vec<u8>) -> (r: Result<Score, MidiError>)
    ensures
        r is Ok <==> midi_contents(data@) is Some,
        r matches Ok(s) ==> midi_contents(data@) == Some((s.tracks_view(), s.timing)),
{
    match parse_smf(data.as_slice()) {
        Ok(s) => Ok(s),
        Err(_) => Err(MidiError::Malformed),
    }
}

} // verus!
