//! Merging of all tracks into one stream ordered by absolute tick.
use vstd::prelude::*;
use vstd::seq_lib::{to_multiset_build, to_multiset_insert};
use crate::score::{Score, TrackEvent, EventKind, is_meta};

verus! {

/// An event placed on the score's absolute time line.
#[derive(Clone, Copy, Debug, PartialEq, Eq, Structural)]
pub struct TimedEvent {
    pub absolute_time: u64,
    pub track: u32,
    pub event: TrackEvent,
}

/// Whether the notes of track `t` are played: all tracks are when none is selected.
pub open spec fn track_active(selection: Seq<usize>, t: int) -> bool {
    selection.len() == 0 || selection.contains(t as usize)
}

/// Absolute tick of the last event of `events`: the sum of their deltas.
pub open spec fn track_ticks(events: Seq<TrackEvent>) -> int
    decreases events.len(),
{
    if events.len() == 0 {
        0
    } else {
        track_ticks(events.drop_last()) + events.last().delta
    }
}

/// Whether an event of a track takes part in playback.
pub open spec fn is_scheduled(ev: TrackEvent, active: bool) -> bool {
    active || is_meta(ev.kind)
}

/// The scheduled events of track `t`, each with its absolute tick.
pub open spec fn track_schedule(events: Seq<TrackEvent>, t: int, active: bool) -> Seq<TimedEvent>
    decreases events.len(),
{
    if events.len() == 0 {
        Seq::empty()
    } else {
        let rest = track_schedule(events.drop_last(), t, active);
        if is_scheduled(events.last(), active) {
            rest.push(
                TimedEvent {
                    absolute_time: track_ticks(events) as u64,
                    track: t as u32,
                    event: events.last(),
                },
            )
        } else {
            rest
        }
    }
}

/// The scheduled events of all tracks, track after track.
pub open spec fn score_schedule(tracks: Seq<Seq<TrackEvent>>, selection: Seq<usize>) -> Seq<
    TimedEvent,
>
    decreases tracks.len(),
{
    if tracks.len() == 0 {
        Seq::empty()
    } else {
        let t = tracks.len() - 1;
        score_schedule(tracks.drop_last(), selection) + track_schedule(
            tracks.last(),
            t,
            track_active(selection, t),
        )
    }
}

/// Events come by ascending tick, and by ascending track on the same tick.
pub open spec fn time_ordered(s: Seq<TimedEvent>) -> bool {
    forall|i: int, j: int|
        0 <= i < j < s.len() ==> {
            ||| s[i].absolute_time < s[j].absolute_time
            ||| (s[i].absolute_time == s[j].absolute_time && s[i].track <= s[j].track)
        }
}

/// Track indices and per-track tick sums fit the stream's integer fields.
pub open spec fn score_fits(tracks: Seq<Seq<TrackEvent>>) -> bool {
    &&& tracks.len() <= u32::MAX
    &&& forall|t: int| 0 <= t < tracks.len() ==> tracks[t].len() <= u32::MAX
}

/// Number of meta events of a track.
pub open spec fn meta_count(events: Seq<TrackEvent>) -> nat
    decreases events.len(),
{
    if events.len() == 0 {
        0
    } else {
        meta_count(events.drop_last()) + if is_meta(events.last().kind) {
            1nat
        } else {
            0nat
        }
    }
}

/// Number of events of a track that are not meta events.
pub open spec fn musical_count(events: Seq<TrackEvent>) -> nat
    decreases events.len(),
{
    if events.len() == 0 {
        0
    } else {
        musical_count(events.drop_last()) + if is_meta(events.last().kind) {
            0nat
        } else {
            1nat
        }
    }
}

/// Meta events of every track plus the other events of the active tracks.
pub open spec fn expected_count(tracks: Seq<Seq<TrackEvent>>, selection: Seq<usize>) -> nat
    decreases tracks.len(),
{
    if tracks.len() == 0 {
        0
    } else {
        let t = tracks.len() - 1;
        expected_count(tracks.drop_last(), selection) + meta_count(tracks.last()) + if track_active(
            selection,
            t,
        ) {
            musical_count(tracks.last())
        } else {
            0nat
        }
    }
}

proof fn lemma_track_schedule_len(events: Seq<TrackEvent>, t: int, active: bool)
    ensures
        track_schedule(events, t, active).len() == meta_count(events) + if active {
            musical_count(events)
        } else {
            0nat
        },
    decreases events.len(),
{
    if events.len() > 0 {
        lemma_track_schedule_len(events.drop_last(), t, active);
    }
}

/// The merged stream holds every meta event of every track and the musical
/// events of the active tracks alone.
pub proof fn lemma_schedule_count(tracks: Seq<Seq<TrackEvent>>, selection: Seq<usize>)
    ensures
        score_schedule(tracks, selection).len() == expected_count(tracks, selection),
    decreases tracks.len(),
{
    if tracks.len() > 0 {
        lemma_schedule_count(tracks.drop_last(), selection);
        lemma_track_schedule_len(tracks.last(), tracks.len() - 1, track_active(selection, tracks.len() - 1));
    }
}

/// Whether track `t` is selected for playing its notes.
pub fn is_track_active(selection: &Vec<usize>, t: usize) -> (r: bool)
    ensures
        r == track_active(selection@, t as int),
{
    if selection.len() == 0 {
        return true;
    }
    let mut i: usize = 0;
    while i < selection.len()
        invariant
            i <= selection@.len(),
            forall|k: int| 0 <= k < i ==> selection@[k] != t,
        decreases selection@.len() - i,
    {
        if selection[i] == t {
            return true;
        }
        i = i + 1;
    }
    false
}

/// Builds the merged stream: every meta event, the musical events of the
/// active tracks, ordered by tick and then by track; events of one track on
/// one tick keep their order.
pub fn prepare_events(score: &Score, selection: &Vec<usize>) -> (r: Vec<TimedEvent>)
    requires
        score_fits(score.tracks_view()),
    ensures
        time_ordered(r@),
        r@.to_multiset() == score_schedule(score.tracks_view(), selection@).to_multiset(),
        r@.len() == expected_count(score.tracks_view(), selection@),
{
    let ghost tracks = score.tracks_view();
    let mut r: Vec<TimedEvent> = Vec::new();
    let mut t: usize = 0;
    while t < score.tracks.len()
        invariant
            t <= tracks.len(),
            tracks == score.tracks_view(),
            score_fits(tracks),
            time_ordered(r@),
            forall|k: int| 0 <= k < r@.len() ==> r@[k].track < t,
            r@.to_multiset() == score_schedule(tracks.take(t as int), selection@).to_multiset(),
        decreases tracks.len() - t,
    {
        let track = &score.tracks[t];
        let active = is_track_active(selection, t);
        let ghost before = score_schedule(tracks.take(t as int), selection@);
        let mut abs: u64 = 0;
        let mut j: usize = 0;
        assert(track@ == tracks[t as int]);
        while j < track.len()
            invariant
                t < tracks.len(),
                track@ == tracks[t as int],
                track@.len() <= u32::MAX,
                tracks.len() <= u32::MAX,
                j <= track@.len(),
                abs == track_ticks(track@.take(j as int)),
                abs <= j * (u32::MAX as int),
                time_ordered(r@),
                forall|k: int| 0 <= k < r@.len() ==> r@[k].track <= t,
                r@.to_multiset() == (before + track_schedule(
                    track@.take(j as int),
                    t as int,
                    active,
                )).to_multiset(),
            decreases track@.len() - j,
        {
            let ev = track[j];
            assert(track@.take(j as int + 1).drop_last() =~= track@.take(j as int));
            assert(abs + ev.delta <= (j + 1) * (u32::MAX as int) <= u64::MAX) by (nonlinear_arith)
                requires
                    abs <= j * (u32::MAX as int),
                    ev.delta <= u32::MAX,
                    j < u32::MAX,
            ;
            abs = abs + ev.delta as u64;
            let keep = active || match ev.kind {
                EventKind::Tempo(_) => true,
                EventKind::OtherMeta => true,
                _ => false,
            };
            if keep {
                let e = TimedEvent { absolute_time: abs, track: t as u32, event: ev };
                let mut pos: usize = r.len();
                while pos > 0 && r[pos - 1].absolute_time > abs
                    invariant
                        pos <= r@.len(),
                        forall|k: int| pos <= k < r@.len() ==> r@[k].absolute_time > abs,
                    decreases pos,
                {
                    pos = pos - 1;
                }
                let ghost old_r = r@;
                r.insert(pos, e);
                assert(r@ == old_r.insert(pos as int, e));
                assert forall|i: int, k: int| 0 <= i < k < r@.len() implies {
                    ||| r@[i].absolute_time < r@[k].absolute_time
                    ||| (r@[i].absolute_time == r@[k].absolute_time && r@[i].track <= r@[k].track)
                } by {
                    if k < pos {
                        assert(old_r[i] == r@[i] && old_r[k] == r@[k]);
                    } else if i < pos && k == pos {
                        assert(old_r[i].absolute_time <= abs);
                    } else if i < pos && k > pos {
                        assert(old_r[i] == r@[i] && old_r[k - 1] == r@[k]);
                    } else if i == pos {
                        assert(old_r[k - 1].absolute_time > abs);
                    } else {
                        assert(old_r[i - 1] == r@[i] && old_r[k - 1] == r@[k]);
                    }
                }
                let ghost prev = before + track_schedule(track@.take(j as int), t as int, active);
                assert((before + track_schedule(track@.take(j as int + 1), t as int, active))
                    =~= prev.push(e));
                proof {
                    to_multiset_insert(old_r, pos as int, e);
                    to_multiset_build(prev, e);
                }
            } else {
                assert((before + track_schedule(track@.take(j as int + 1), t as int, active))
                    =~= (before + track_schedule(track@.take(j as int), t as int, active)));
            }
            j = j + 1;
        }
        assert(track@.take(j as int) =~= track@);
        assert(tracks.take(t as int + 1).drop_last() =~= tracks.take(t as int));
        t = t + 1;
    }
    assert(tracks.take(t as int) =~= tracks);
    proof {
        lemma_schedule_count(tracks, selection@);
        r@.to_multiset_ensures();
        score_schedule(tracks, selection@).to_multiset_ensures();
    }
    r
}

} // verus!
