//! The playback loop's decisions: which event comes next, how long a tick
//! lasts, what a note turns into, pausing, cancelling and looping.
//! The caller sleeps, reads the keys and performs the actions.
use vstd::prelude::*;
use crate::{MIN_NOTE, MAX_NOTE};
use crate::score::{Score, Timing, EventKind, get_notes, score_notes};
use crate::midi::{MidiError, load_score, midi_contents};
use crate::transpose::{calculate_optimal_shift, is_optimal_shift};
use crate::merge::{
    TimedEvent, prepare_events, time_ordered, score_fits, score_schedule, expected_count,
};
use crate::fretboard::{Fretboard, GuitarPosition, assign_step, set_step, OPEN_ALL, STRING_COUNT};

verus! {

/// One thing for the actuator to do.
#[derive(Clone, Copy, Debug, PartialEq, Eq, Structural)]
pub enum Action {
    /// Hold `string` at `fret`; the open-all control when `string` is 6.
    SetPosition { string: usize, fret: u8 },
    /// Strike `string` once.
    Strum { string: usize },
    /// Trigger the accent.
    Sing,
}

/// Why a player could not be built.
#[derive(Clone, Copy, Debug, PartialEq, Eq, Structural)]
pub enum PlayerError {
    /// The score is timed by timecode, not by ticks per beat.
    UnsupportedTiming,
    /// Zero ticks per beat, or more tracks or events than ticks can count.
    MalformedScore,
}

/// What playback is configured with.
#[derive(Clone, Debug)]
pub struct PlayerSettings {
    pub score: Score,
    pub loop_midi: bool,
    pub should_sing: bool,
    pub sing_above: u8,
    /// Tracks whose notes are played; all of them when `None` or empty.
    pub tracks: Option<Vec<usize>>,
    /// Speed in thousandths of the written tempo: 1000 plays as written.
    pub playback_speed: u64,
    /// Wall-clock time, in milliseconds since the Unix epoch, to start at.
    pub start_time: Option<u64>,
}

impl PlayerSettings {
    /// Settings for the score read from the bytes of a MIDI file.
    pub fn new(
        midi_data: Vec<u8>,
        loop_midi: bool,
        should_sing: bool,
        sing_above: u8,
        playback_speed: u64,
        start_time: Option<u64>,
    ) -> (r: Result<PlayerSettings, MidiError>)
        ensures
            r is Ok <==> midi_contents(midi_data@) is Some,
            r matches Ok(s) ==> {
                &&& midi_contents(midi_data@) == Some((s.score.tracks_view(), s.score.timing))
                &&& s.loop_midi == loop_midi
                &&& s.should_sing == should_sing
                &&& s.sing_above == sing_above
                &&& s.tracks is None
                &&& s.playback_speed == playback_speed
                &&& s.start_time == start_time
            },
    {
        let score = load_score(&midi_data)?;
        Ok(PlayerSettings::from_score(score, loop_midi, should_sing, sing_above, playback_speed, start_time))
    }

    /// Settings for a score already in memory.
    pub fn from_score(
        score: Score,
        loop_midi: bool,
        should_sing: bool,
        sing_above: u8,
        playback_speed: u64,
        start_time: Option<u64>,
    ) -> (r: PlayerSettings)
        ensures
            r.score == score,
            r.loop_midi == loop_midi,
            r.should_sing == should_sing,
            r.sing_above == sing_above,
            r.tracks is None,
            r.playback_speed == playback_speed,
            r.start_time == start_time,
    {
        PlayerSettings {
            score,
            loop_midi,
            should_sing,
            sing_above,
            tracks: None,
            playback_speed,
            start_time,
        }
    }
}

/// `a + b`, held at the top of `u64`.
pub open spec fn sat_add(a: int, b: int) -> u64 {
    if a + b > u64::MAX {
        u64::MAX
    } else {
        (a + b) as u64
    }
}

/// The pitch played for `key`: moved by `shift`, then pulled to the nearest
/// end of the playable window.
pub open spec fn played_pitch(key: u8, shift: i8) -> u8 {
    let p = key as int + shift as int;
    if p < MIN_NOTE as int {
        MIN_NOTE
    } else if p > MAX_NOTE as int {
        MAX_NOTE
    } else {
        p as u8
    }
}

/// Moves `key` by `shift` and clamps it into the playable window.
pub fn transpose_note(key: u8, shift: i8) -> (r: u8)
    ensures
        r == played_pitch(key, shift),
{
    let p: i16 = key as i16 + shift as i16;
    if p < MIN_NOTE as i16 {
        MIN_NOTE
    } else if p > MAX_NOTE as i16 {
        MAX_NOTE
    } else {
        p as u8
    }
}

/// How long to wait, in milliseconds, before a start at `start_time` when the
/// clock reads `now`: nothing when there is no start time or it has passed.
pub fn start_delay_millis(start_time: Option<u64>, now: u64) -> (r: u64)
    ensures
        r == match start_time {
            Some(s) => if s > now {
                (s - now) as u64
            } else {
                0
            },
            None => 0,
        },
{
    match start_time {
        Some(s) => if s > now {
            s - now
        } else {
            0
        },
        None => 0,
    }
}

/// The actions for a note given its position, whether the fret changed, and
/// whether it is accented.
pub open spec fn note_actions(pos: Option<GuitarPosition>, changed: bool, sing: bool) -> Seq<
    Action,
> {
    let fret_part = match pos {
        Some(p) => if changed {
            seq![Action::SetPosition { string: p.string, fret: p.fret }, Action::Strum { string: p.string }]
        } else {
            seq![Action::Strum { string: p.string }]
        },
        None => Seq::empty(),
    };
    if sing {
        fret_part.push(Action::Sing)
    } else {
        fret_part
    }
}

/// A note-on that sounds: velocity 0 acts as a release and sounds nothing.
pub open spec fn is_sounding(k: EventKind) -> bool {
    k is NoteOn && k->NoteOn_vel > 0
}

/// The playback state.
#[derive(Debug)]
pub struct WebfishingPlayer {
    pub score: Score,
    /// Semitones added to every note, fixed for the session.
    pub shift: i8,
    pub ticks_per_beat: u64,
    pub micros_per_tick: u64,
    /// The merged stream of this pass, and the index of the next event.
    pub events: Vec<TimedEvent>,
    pub cursor: usize,
    pub fretboard: Fretboard,
    /// Milliseconds each key press is held.
    pub input_sleep_duration: u64,
    pub loop_midi: bool,
    pub wait_for_user: bool,
    pub should_sing: bool,
    pub sing_above: u8,
    pub tracks: Vec<usize>,
    pub playback_speed: u64,
    pub start_time: Option<u64>,
    pub paused: bool,
    pub song_elapsed_micros: u64,
    /// Tick reached by the wait so far, and the tick of the last event taken.
    pub current_tick: u64,
    pub target_tick: u64,
    /// Whether the pause key was down at the last poll.
    pub rshift_pressed: bool,
}

impl WebfishingPlayer {
    pub open spec fn wf(&self) -> bool {
        &&& self.fretboard.wf()
        &&& self.ticks_per_beat > 0
        &&& self.playback_speed > 0
        &&& self.micros_per_tick <= u32::MAX
        &&& score_fits(self.score.tracks_view())
        &&& time_ordered(self.events@)
        &&& self.cursor <= self.events@.len()
        &&& self.current_tick <= self.target_tick
        &&& self.cursor < self.events@.len() ==> self.target_tick
            <= self.events@[self.cursor as int].absolute_time
    }

    /// The stream a fresh pass plays, up to the order of events on one tick.
    pub open spec fn fresh_pass(&self) -> bool {
        &&& self.events@.to_multiset() == score_schedule(
            self.score.tracks_view(),
            self.tracks@,
        ).to_multiset()
        &&& self.events@.len() == expected_count(self.score.tracks_view(), self.tracks@)
        &&& self.cursor == 0
        &&& self.current_tick == 0
        &&& self.target_tick == 0
        &&& self.song_elapsed_micros == 0
    }

    /// Whether a sounding note event also triggers the accent.
    pub open spec fn accents(&self, ev: TimedEvent) -> bool {
        self.should_sing && played_pitch(ev.event.kind->NoteOn_key, self.shift) >= self.sing_above
    }

    /// Microseconds one tick lasts at the current tempo and speed.
    pub open spec fn tick_length(&self) -> int {
        self.micros_per_tick * 1000 / self.playback_speed as int
    }

    /// Builds a player: the shift is chosen over all the score's notes and
    /// the first pass is merged.
    pub fn new(settings: PlayerSettings, wait_for_user: bool, input_sleep_duration: u64) -> (r:
        Result<WebfishingPlayer, PlayerError>)
        requires
            settings.playback_speed > 0,
        ensures
            settings.score.timing is Timecode <==> r == Err::<WebfishingPlayer, PlayerError>(
                PlayerError::UnsupportedTiming,
            ),
            r == Err::<WebfishingPlayer, PlayerError>(PlayerError::MalformedScore) <==> (
            settings.score.timing is Metrical && (settings.score.timing->Metrical_0 == 0
                || !score_fits(settings.score.tracks_view()))),
            r matches Ok(p) ==> {
                &&& p.wf()
                &&& p.fresh_pass()
                &&& p.score == settings.score
                &&& is_optimal_shift(score_notes(settings.score.tracks_view()), p.shift as int)
                &&& p.ticks_per_beat == settings.score.timing->Metrical_0
                &&& p.micros_per_tick == 0
                &&& !p.paused
                &&& !p.rshift_pressed
                &&& forall|s: int|
                    0 <= s < STRING_COUNT ==> {
                        &&& !p.fretboard.played@[s]
                        &&& p.fretboard.last_used@[s] == 0
                        &&& p.fretboard.positions@[s] == Some(0u8)
                    }
                &&& p.fretboard.positions@[OPEN_ALL as int] is None
                &&& p.loop_midi == settings.loop_midi
                &&& p.should_sing == settings.should_sing
                &&& p.sing_above == settings.sing_above
                &&& p.playback_speed == settings.playback_speed
                &&& p.start_time == settings.start_time
                &&& p.wait_for_user == wait_for_user
                &&& p.input_sleep_duration == input_sleep_duration
                &&& p.tracks@ == match settings.tracks {
                    Some(t) => t@,
                    None => Seq::empty(),
                }
            },
    {
        let ticks_per_beat: u64 = match settings.score.timing {
            Timing::Metrical(t) => t as u64,
            Timing::Timecode => {
                return Err(PlayerError::UnsupportedTiming);
            },
        };
        if ticks_per_beat == 0 || !score_in_bounds(&settings.score) {
            return Err(PlayerError::MalformedScore);
        }
        let notes = get_notes(&settings.score);
        let shift = calculate_optimal_shift(&notes);
        let tracks = match settings.tracks {
            Some(t) => t,
            None => Vec::new(),
        };
        let mut player = WebfishingPlayer {
            score: settings.score,
            shift,
            ticks_per_beat,
            micros_per_tick: 0,
            events: Vec::new(),
            cursor: 0,
            fretboard: Fretboard::new(),
            input_sleep_duration,
            loop_midi: settings.loop_midi,
            wait_for_user,
            should_sing: settings.should_sing,
            sing_above: settings.sing_above,
            tracks,
            playback_speed: settings.playback_speed,
            start_time: settings.start_time,
            paused: false,
            song_elapsed_micros: 0,
            current_tick: 0,
            target_tick: 0,
            rshift_pressed: false,
        };
        player.begin_pass();
        Ok(player)
    }

    /// Rebuilds the merged stream and starts again at tick 0 with no time
    /// elapsed.
    pub fn begin_pass(&mut self)
        requires
            old(self).fretboard.wf(),
            old(self).ticks_per_beat > 0,
            old(self).playback_speed > 0,
            old(self).micros_per_tick <= u32::MAX,
            score_fits(old(self).score.tracks_view()),
        ensures
            final(self).wf(),
            final(self).fresh_pass(),
            *final(self) == (WebfishingPlayer {
                events: final(self).events,
                cursor: 0,
                current_tick: 0,
                target_tick: 0,
                song_elapsed_micros: 0,
                ..*old(self)
            }),
    {
        self.events = prepare_events(&self.score, &self.tracks);
        self.cursor = 0;
        self.current_tick = 0;
        self.target_tick = 0;
        self.song_elapsed_micros = 0;
    }

    /// Tick of the last event of the pass; 0 when there is none.
    pub fn final_tick(&self) -> (r: u64)
        requires
            self.wf(),
        ensures
            self.events@.len() == 0 ==> r == 0,
            self.events@.len() > 0 ==> r == self.events@.last().absolute_time,
            forall|k: int| 0 <= k < self.events@.len() ==> self.events@[k].absolute_time <= r,
    {
        if self.events.len() == 0 {
            0
        } else {
            self.events[self.events.len() - 1].absolute_time
        }
    }

    /// Takes the next event of the pass. An event later than the one taken
    /// before starts a new group of simultaneous notes.
    pub fn next_event(&mut self) -> (r: Option<TimedEvent>)
        requires
            old(self).wf(),
        ensures
            final(self).wf(),
            old(self).cursor == old(self).events@.len() ==> r is None && *final(self) == *old(self),
            old(self).cursor < old(self).events@.len() ==> {
                &&& r == Some(old(self).events@[old(self).cursor as int])
                &&& final(self).cursor == old(self).cursor + 1
                &&& final(self).target_tick == r->Some_0.absolute_time
                &&& old(self).target_tick <= r->Some_0.absolute_time
                &&& final(self).current_tick == old(self).current_tick
                &&& old(self).current_tick <= r->Some_0.absolute_time
                &&& final(self).song_elapsed_micros == old(self).song_elapsed_micros
                &&& final(self).events == old(self).events
                &&& final(self).fretboard.positions@ == old(self).fretboard.positions@
                &&& final(self).fretboard.last_used@ == old(self).fretboard.last_used@
                &&& old(self).target_tick < r->Some_0.absolute_time ==> forall|s: int|
                    0 <= s < STRING_COUNT ==> !final(self).fretboard.played@[s]
                &&& old(self).target_tick == r->Some_0.absolute_time ==> final(self).fretboard.played@
                    == old(self).fretboard.played@
            },
    {
        if self.cursor == self.events.len() {
            return None;
        }
        let ev = self.events[self.cursor];
        if ev.absolute_time > self.target_tick {
            self.fretboard.reset_group();
        }
        self.cursor = self.cursor + 1;
        self.target_tick = ev.absolute_time;
        assert(self.cursor < self.events@.len() ==> self.events@[self.cursor - 1].absolute_time
            <= self.events@[self.cursor as int].absolute_time);
        Some(ev)
    }

    /// Ticks still to wait before the last event taken is due.
    pub fn ticks_to_wait(&self) -> (r: u64)
        requires
            self.wf(),
        ensures
            r == self.target_tick - self.current_tick,
    {
        self.target_tick - self.current_tick
    }

    /// Microseconds one tick lasts at the current tempo and speed.
    pub fn tick_micros(&self) -> (r: u64)
        requires
            self.wf(),
        ensures
            r == self.tick_length(),
    {
        self.micros_per_tick * 1000 / self.playback_speed
    }

    /// One tick of waiting has passed: the tick moves on and its length is
    /// added to the elapsed time.
    pub fn advance_tick(&mut self)
        requires
            old(self).wf(),
            old(self).current_tick < old(self).target_tick,
        ensures
            final(self).wf(),
            final(self).current_tick == old(self).current_tick + 1,
            final(self).song_elapsed_micros == sat_add(
                old(self).song_elapsed_micros as int,
                old(self).tick_length(),
            ),
            final(self).target_tick == old(self).target_tick,
            final(self).cursor == old(self).cursor,
            final(self).events == old(self).events,
            final(self).paused == old(self).paused,
            final(self).micros_per_tick == old(self).micros_per_tick,
            final(self).playback_speed == old(self).playback_speed,
    {
        let step = self.tick_micros();
        self.song_elapsed_micros = self.song_elapsed_micros.saturating_add(step);
        self.current_tick = self.current_tick + 1;
    }

    pub fn is_paused(&self) -> (r: bool)
        ensures
            r == self.paused,
    {
        self.paused
    }

    /// Flips the pause; nothing else changes.
    pub fn toggle_pause(&mut self)
        ensures
            *final(self) == (WebfishingPlayer { paused: !old(self).paused, ..*old(self) }),
    {
        self.paused = !self.paused;
    }

    /// Reads one poll of the keys; returns whether to stop. The pause toggles
    /// only when its key goes down, not while it is held.
    pub fn check_inputs(&mut self, escape_down: bool, pause_down: bool) -> (stop: bool)
        requires
            old(self).wf(),
        ensures
            final(self).wf(),
            stop == escape_down,
            escape_down ==> *final(self) == *old(self),
            !escape_down ==> {
                &&& final(self).paused == (old(self).paused != (pause_down
                    && !old(self).rshift_pressed))
                &&& final(self).rshift_pressed == pause_down
            },
            final(self).song_elapsed_micros == old(self).song_elapsed_micros,
            final(self).current_tick == old(self).current_tick,
            final(self).target_tick == old(self).target_tick,
            final(self).cursor == old(self).cursor,
            final(self).events == old(self).events,
            final(self).micros_per_tick == old(self).micros_per_tick,
            final(self).playback_speed == old(self).playback_speed,
            final(self).fretboard == old(self).fretboard,
    {
        if escape_down {
            return true;
        }
        if pause_down {
            if !self.rshift_pressed {
                self.toggle_pause();
                self.rshift_pressed = true;
            }
        } else {
            self.rshift_pressed = false;
        }
        false
    }

    /// Sets every string open through the open-all control, unless it is
    /// known to be so already.
    pub fn open_all_strings(&mut self) -> (r: Vec<Action>)
        requires
            old(self).wf(),
        ensures
            final(self).wf(),
            exists|changed: bool|
                {
                    &&& set_step(old(self).fretboard, OPEN_ALL, 0, changed, final(self).fretboard)
                    &&& r@ == if changed {
                        seq![Action::SetPosition { string: OPEN_ALL, fret: 0 }]
                    } else {
                        Seq::empty()
                    }
                },
            final(self).song_elapsed_micros == old(self).song_elapsed_micros,
            final(self).cursor == old(self).cursor,
            final(self).events == old(self).events,
    {
        let mut r: Vec<Action> = Vec::new();
        let ghost pre = self.fretboard;
        let changed = self.fretboard.set_fret(OPEN_ALL, 0);
        assert(set_step(pre, OPEN_ALL, 0, changed, self.fretboard));
        if changed {
            r.push(Action::SetPosition { string: OPEN_ALL, fret: 0 });
        }
        assert(r@ =~= if changed {
            seq![Action::SetPosition { string: OPEN_ALL, fret: 0 }]
        } else {
            Seq::<Action>::empty()
        });
        r
    }

    /// Acts on an event that is due: a tempo change sets the tick length, a
    /// sounding note is placed on a string and turned into actions, anything
    /// else does nothing.
    pub fn dispatch(&mut self, ev: TimedEvent) -> (r: Vec<Action>)
        requires
            old(self).wf(),
        ensures
            final(self).wf(),
            final(self).cursor == old(self).cursor,
            final(self).events == old(self).events,
            final(self).current_tick == old(self).current_tick,
            final(self).target_tick == old(self).target_tick,
            final(self).paused == old(self).paused,
            final(self).shift == old(self).shift,
            ev.event.kind is Tempo ==> {
                &&& final(self).micros_per_tick == ev.event.kind->Tempo_0 as int / old(
                    self,
                ).ticks_per_beat as int
                &&& r@.len() == 0
                &&& final(self).fretboard == old(self).fretboard
                &&& final(self).song_elapsed_micros == old(self).song_elapsed_micros
            },
            is_sounding(ev.event.kind) ==> {
                &&& final(self).micros_per_tick == old(self).micros_per_tick
                &&& final(self).song_elapsed_micros == sat_add(
                    old(self).song_elapsed_micros as int,
                    old(self).input_sleep_duration * 1000,
                )
                &&& exists|pos: Option<GuitarPosition>, mid: Fretboard, changed: bool|
                    {
                        &&& assign_step(
                            old(self).fretboard,
                            played_pitch(ev.event.kind->NoteOn_key, old(self).shift),
                            pos,
                            mid,
                        )
                        &&& match pos {
                            Some(p) => set_step(mid, p.string, p.fret, changed, final(self).fretboard),
                            None => final(self).fretboard == mid,
                        }
                        &&& r@ == note_actions(pos, changed, old(self).accents(ev))
                    }
            },
            !(ev.event.kind is Tempo) && !is_sounding(ev.event.kind) ==> {
                &&& final(self).micros_per_tick == old(self).micros_per_tick
                &&& r@.len() == 0
                &&& final(self).fretboard == old(self).fretboard
                &&& final(self).song_elapsed_micros == old(self).song_elapsed_micros
            },
    {
        let mut r: Vec<Action> = Vec::new();
        match ev.event.kind {
            EventKind::Tempo(t) => {
                self.micros_per_tick = t as u64 / self.ticks_per_beat;
                assert(self.micros_per_tick <= t) by (nonlinear_arith)
                    requires
                        self.micros_per_tick == t as int / self.ticks_per_beat as int,
                        self.ticks_per_beat > 0,
                ;
            },
            EventKind::NoteOn { key, vel } => {
                if vel > 0 {
                    let note = transpose_note(key, self.shift);
                    let hold: u64 = if self.input_sleep_duration <= u64::MAX / 1000 {
                        self.input_sleep_duration * 1000
                    } else {
                        assert(self.input_sleep_duration * 1000 > u64::MAX) by (nonlinear_arith)
                            requires
                                self.input_sleep_duration > u64::MAX / 1000,
                        ;
                        u64::MAX
                    };
                    self.song_elapsed_micros = self.song_elapsed_micros.saturating_add(hold);
                    let ghost pre = self.fretboard;
                    let pos = self.fretboard.find_best_string(note);
                    let ghost mid = self.fretboard;
                    let mut changed = false;
                    match pos {
                        Some(p) => {
                            changed = self.fretboard.set_fret(p.string, p.fret);
                            if changed {
                                r.push(Action::SetPosition { string: p.string, fret: p.fret });
                            }
                            r.push(Action::Strum { string: p.string });
                        },
                        None => {},
                    }
                    let sing = self.should_sing && note >= self.sing_above;
                    if sing {
                        r.push(Action::Sing);
                    }
                    assert(r@ =~= note_actions(pos, changed, sing));
                    assert(assign_step(pre, note, pos, mid));
                    assert(match pos {
                        Some(p) => set_step(mid, p.string, p.fret, changed, self.fretboard),
                        None => self.fretboard == mid,
                    });
                    assert(assign_step(
                            old(self).fretboard,
                            played_pitch(ev.event.kind->NoteOn_key, old(self).shift),
                            pos,
                            mid,
                        ));
                    assert(r@ == note_actions(pos, changed, old(self).accents(ev)));

                }
            },
            _ => {},
        }
        r
    }

    /// The pass is over: with looping on, the stream is rebuilt and playback
    /// starts again at tick 0 with no time elapsed; returns whether it does.
    pub fn finish_pass(&mut self) -> (again: bool)
        requires
            old(self).wf(),
        ensures
            final(self).wf(),
            again == old(self).loop_midi,
            again ==> final(self).fresh_pass(),
            !again ==> *final(self) == *old(self),
            final(self).paused == old(self).paused,
    {
        if self.loop_midi {
            self.begin_pass();
            true
        } else {
            false
        }
    }
}

/// Whether the score's tracks and events can be counted by the stream's fields.
pub fn score_in_bounds(score: &Score) -> (r: bool)
    ensures
        r == score_fits(score.tracks_view()),
{
    if score.tracks.len() > u32::MAX as usize {
        return false;
    }
    let mut t: usize = 0;
    while t < score.tracks.len()
        invariant
            t <= score.tracks@.len(),
            forall|k: int| 0 <= k < t ==> score.tracks_view()[k].len() <= u32::MAX,
        decreases score.tracks@.len() - t,
    {
        if score.tracks[t].len() > u32::MAX as usize {
            assert(score.tracks_view()[t as int].len() > u32::MAX);
            return false;
        }
        t = t + 1;
    }
    true
}

} // verus!
