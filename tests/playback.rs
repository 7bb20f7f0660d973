use webfishing_player::fretboard::{Fretboard, GuitarPosition};
use webfishing_player::midi::{load_score, MidiError};
use webfishing_player::merge::{is_track_active, prepare_events};
use webfishing_player::player::{
    start_delay_millis, transpose_note, Action, PlayerError, PlayerSettings, WebfishingPlayer,
};
use webfishing_player::score::{get_notes, EventKind, Score, Timing, TrackEvent};
use webfishing_player::transpose::{calculate_optimal_shift, count_playable, shift_report};

fn ev(delta: u32, kind: EventKind) -> TrackEvent {
    TrackEvent { delta, kind }
}

fn note(delta: u32, key: u8) -> TrackEvent {
    ev(delta, EventKind::NoteOn { key, vel: 100 })
}

fn two_track_score() -> Score {
    Score {
        tracks: vec![
            vec![ev(0, EventKind::Tempo(480_000)), note(10, 60)],
            vec![note(5, 50), ev(10, EventKind::OtherMeta)],
        ],
        timing: Timing::Metrical(480),
    }
}

fn player_for(score: Score, loop_midi: bool, speed: u64) -> WebfishingPlayer {
    let settings = PlayerSettings::from_score(score, loop_midi, false, 0, speed, None);
    match WebfishingPlayer::new(settings, false, 0) {
        Ok(p) => p,
        Err(_) => panic!("score was rejected"),
    }
}

#[test]
fn optimal_shift_notes_already_in_range() {
    let notes = vec![40u8, 79];
    assert_eq!(calculate_optimal_shift(&notes), 0);
    assert_eq!(count_playable(&notes, 0), 2);
}

#[test]
fn optimal_shift_notes_all_below_range() {
    let notes = vec![20u8, 20, 20];
    assert_eq!(calculate_optimal_shift(&notes), 20);
    assert_eq!(count_playable(&notes, 20), 3);
}

#[test]
fn optimal_shift_of_no_notes_is_zero() {
    let notes: Vec<u8> = Vec::new();
    assert_eq!(calculate_optimal_shift(&notes), 0);
    let report = shift_report(&notes, 0);
    assert_eq!((report.total, report.playable, report.percent), (0, 0, 0));
}

#[test]
fn optimal_shift_prefers_downward_on_equal_size() {
    // -1 and +1 each bring one note into range, 0 brings none.
    let notes = vec![39u8, 80];
    assert_eq!(calculate_optimal_shift(&notes), -1);
}

#[test]
fn optimal_shift_is_best_over_every_shift() {
    let notes = vec![10u8, 30, 35, 90, 100, 120];
    let s = calculate_optimal_shift(&notes) as i16;
    let best = count_playable(&notes, s);
    for t in -127i16..=127 {
        let c = count_playable(&notes, t);
        assert!(c <= best);
        if c == best {
            assert!(s.abs() <= t.abs());
        }
    }
}

#[test]
fn shift_report_counts_and_percent() {
    let report = shift_report(&vec![40u8, 100, 50], 0);
    assert_eq!((report.total, report.playable, report.percent), (3, 2, 66));
}

#[test]
fn notes_are_collected_from_every_track() {
    let mut score = two_track_score();
    score.tracks[1].push(ev(1, EventKind::NoteOff { key: 50 }));
    score.tracks[1].push(ev(1, EventKind::NoteOn { key: 70, vel: 0 }));
    assert_eq!(get_notes(&score), vec![60u8, 50, 70]);
}

#[test]
fn group_of_three_takes_open_strings() {
    let mut fb = Fretboard::new();
    let a = fb.find_best_string(45);
    let d = fb.find_best_string(50);
    let g = fb.find_best_string(55);
    assert_eq!(a, Some(GuitarPosition { string: 1, fret: 0 }));
    assert_eq!(d, Some(GuitarPosition { string: 2, fret: 0 }));
    assert_eq!(g, Some(GuitarPosition { string: 3, fret: 0 }));
}

#[test]
fn group_never_reuses_a_string() {
    let mut fb = Fretboard::new();
    assert_eq!(fb.find_best_string(45), Some(GuitarPosition { string: 1, fret: 0 }));
    assert_eq!(fb.find_best_string(45), Some(GuitarPosition { string: 0, fret: 5 }));
    assert_eq!(fb.find_best_string(45), None);
}

#[test]
fn uncovered_pitch_has_no_string() {
    let mut fb = Fretboard::new();
    assert_eq!(fb.find_best_string(39), None);
    assert_eq!(fb.find_best_string(80), None);
    assert_eq!(fb.find_best_string(79), Some(GuitarPosition { string: 5, fret: 15 }));
}

#[test]
fn least_recently_used_string_wins_in_next_group() {
    let mut fb = Fretboard::new();
    assert_eq!(fb.find_best_string(45), Some(GuitarPosition { string: 1, fret: 0 }));
    fb.reset_group();
    assert_eq!(fb.find_best_string(45), Some(GuitarPosition { string: 0, fret: 5 }));
    fb.reset_group();
    assert_eq!(fb.find_best_string(45), Some(GuitarPosition { string: 1, fret: 0 }));
}

#[test]
fn setting_the_same_fret_twice_acts_once() {
    let mut fb = Fretboard::new();
    assert!(fb.set_fret(2, 3));
    assert!(!fb.set_fret(2, 3));
    assert!(!fb.set_fret(4, 0));
    assert!(fb.set_fret(2, 0));
}

#[test]
fn merged_stream_is_ordered_and_complete() {
    let score = two_track_score();
    let events = prepare_events(&score, &Vec::new());
    let times: Vec<(u64, u32)> = events.iter().map(|e| (e.absolute_time, e.track)).collect();
    assert_eq!(times, vec![(0, 0), (5, 1), (10, 0), (15, 1)]);
}

#[test]
fn merged_stream_keeps_meta_of_inactive_tracks() {
    let score = two_track_score();
    let events = prepare_events(&score, &vec![1]);
    let times: Vec<(u64, u32)> = events.iter().map(|e| (e.absolute_time, e.track)).collect();
    assert_eq!(times, vec![(0, 0), (5, 1), (15, 1)]);
    assert!(is_track_active(&vec![], 3));
    assert!(!is_track_active(&vec![1], 0));
}

#[test]
fn equal_ticks_are_ordered_by_track() {
    let score = Score {
        tracks: vec![vec![note(7, 60)], vec![note(3, 61), note(4, 62)], vec![note(7, 63)]],
        timing: Timing::Metrical(96),
    };
    let events = prepare_events(&score, &Vec::new());
    let times: Vec<(u64, u32)> = events.iter().map(|e| (e.absolute_time, e.track)).collect();
    assert_eq!(times, vec![(3, 1), (7, 0), (7, 1), (7, 2)]);
}

#[test]
fn timecode_scores_are_rejected() {
    let score = Score { tracks: vec![vec![note(0, 60)]], timing: Timing::Timecode };
    let settings = PlayerSettings::from_score(score, false, false, 0, 1000, None);
    assert_eq!(WebfishingPlayer::new(settings, false, 0).err(), Some(PlayerError::UnsupportedTiming));
}

#[test]
fn zero_ticks_per_beat_is_rejected() {
    let score = Score { tracks: vec![vec![note(0, 60)]], timing: Timing::Metrical(0) };
    let settings = PlayerSettings::from_score(score, false, false, 0, 1000, None);
    assert_eq!(WebfishingPlayer::new(settings, false, 0).err(), Some(PlayerError::MalformedScore));
}

#[test]
fn notes_are_moved_and_clamped() {
    assert_eq!(transpose_note(30, 0), 40);
    assert_eq!(transpose_note(100, 0), 79);
    assert_eq!(transpose_note(60, -5), 55);
    assert_eq!(transpose_note(127, 127), 79);
    assert_eq!(transpose_note(0, -127), 40);
}

#[test]
fn start_delay_counts_down_to_the_deadline() {
    assert_eq!(start_delay_millis(Some(1500), 1000), 500);
    assert_eq!(start_delay_millis(Some(500), 1000), 0);
    assert_eq!(start_delay_millis(None, 1000), 0);
}

#[test]
fn tempo_sets_tick_length_scaled_by_speed() {
    let mut p = player_for(two_track_score(), false, 2000);
    let first = p.next_event().unwrap();
    assert_eq!(first.event.kind, EventKind::Tempo(480_000));
    assert!(p.dispatch(first).is_empty());
    assert_eq!(p.micros_per_tick, 1000);
    assert_eq!(p.tick_micros(), 500);
}

#[test]
fn note_turns_into_fret_and_strum() {
    let mut p = player_for(two_track_score(), false, 1000);
    assert_eq!(p.open_all_strings(), vec![Action::SetPosition { string: 6, fret: 0 }]);
    assert!(p.open_all_strings().is_empty());
    let tempo = p.next_event().unwrap();
    p.dispatch(tempo);
    let n = p.next_event().unwrap();
    assert_eq!(p.ticks_to_wait(), 5);
    // 50 lies on the D string open and on the A string at fret 5.
    assert_eq!(p.dispatch(n), vec![Action::Strum { string: 2 }]);
    let n = p.next_event().unwrap();
    // 60 on the B string at fret 1: the D string was used at tick 5.
    assert_eq!(
        p.dispatch(n),
        vec![Action::SetPosition { string: 4, fret: 1 }, Action::Strum { string: 4 }]
    );
}

#[test]
fn accent_follows_high_notes() {
    let settings = PlayerSettings::from_score(two_track_score(), false, true, 55, 1000, None);
    let mut p = WebfishingPlayer::new(settings, false, 0).unwrap();
    let tempo = p.next_event().unwrap();
    p.dispatch(tempo);
    let low = p.next_event().unwrap();
    assert_eq!(p.dispatch(low), vec![Action::Strum { string: 2 }]);
    let high = p.next_event().unwrap();
    let actions = p.dispatch(high);
    assert_eq!(actions.last(), Some(&Action::Sing));
}

#[test]
fn pause_holds_elapsed_time() {
    let mut p = player_for(two_track_score(), false, 1000);
    let tempo = p.next_event().unwrap();
    p.dispatch(tempo);
    let _n = p.next_event().unwrap();
    p.advance_tick();
    p.advance_tick();
    assert_eq!(p.song_elapsed_micros, 2000);
    assert!(!p.check_inputs(false, true));
    assert!(p.is_paused());
    for _ in 0..5 {
        assert!(!p.check_inputs(false, true));
        assert!(p.is_paused());
        assert_eq!(p.song_elapsed_micros, 2000);
    }
    assert!(!p.check_inputs(false, false));
    assert!(p.is_paused());
    assert!(!p.check_inputs(false, true));
    assert!(!p.is_paused());
    p.advance_tick();
    assert_eq!(p.song_elapsed_micros, 3000);
    assert_eq!(p.current_tick, 3);
}

#[test]
fn escape_stops_playback() {
    let mut p = player_for(two_track_score(), false, 1000);
    assert!(p.check_inputs(true, true));
    assert!(!p.is_paused());
}

#[test]
fn looping_restarts_at_tick_zero() {
    let score = Score {
        tracks: vec![vec![ev(0, EventKind::Tempo(480_000)), note(4, 50), note(6, 52)]],
        timing: Timing::Metrical(480),
    };
    let mut p = player_for(score, true, 1000);
    assert_eq!(p.final_tick(), 10);
    while let Some(e) = p.next_event() {
        while p.ticks_to_wait() > 0 {
            p.advance_tick();
        }
        p.dispatch(e);
    }
    assert_eq!(p.current_tick, 10);
    assert!(p.song_elapsed_micros > 0);
    assert!(p.finish_pass());
    assert_eq!(p.current_tick, 0);
    assert_eq!(p.song_elapsed_micros, 0);
    assert_eq!(p.cursor, 0);
    assert_eq!(p.events.len(), 3);
}

#[test]
fn without_looping_playback_ends() {
    let mut p = player_for(two_track_score(), false, 1000);
    while p.next_event().is_some() {}
    assert!(!p.finish_pass());
    assert!(p.next_event().is_none());
}

#[test]
fn same_tick_notes_share_a_group() {
    let score = Score {
        tracks: vec![vec![note(0, 45), note(0, 45), note(0, 45), note(1, 45)]],
        timing: Timing::Metrical(480),
    };
    let mut p = player_for(score, false, 1000);
    let e = p.next_event().unwrap();
    assert_eq!(p.dispatch(e), vec![Action::Strum { string: 1 }]);
    let e = p.next_event().unwrap();
    assert_eq!(
        p.dispatch(e),
        vec![Action::SetPosition { string: 0, fret: 5 }, Action::Strum { string: 0 }]
    );
    let e = p.next_event().unwrap();
    assert!(p.dispatch(e).is_empty());
    let e = p.next_event().unwrap();
    assert_eq!(p.ticks_to_wait(), 1);
    assert_eq!(p.dispatch(e), vec![Action::Strum { string: 1 }]);
}

fn one_note_file() -> Vec<u8> {
    let mut data = b"MThd".to_vec();
    data.extend_from_slice(&[0, 0, 0, 6, 0, 0, 0, 1, 0x01, 0xE0]);
    data.extend_from_slice(b"MTrk");
    data.extend_from_slice(&[0, 0, 0, 20]);
    data.extend_from_slice(&[0x00, 0xFF, 0x51, 0x03, 0x07, 0xA1, 0x20]);
    data.extend_from_slice(&[0x00, 0x90, 0x3C, 0x64]);
    data.extend_from_slice(&[0x83, 0x60, 0x80, 0x3C, 0x40]);
    data.extend_from_slice(&[0x00, 0xFF, 0x2F, 0x00]);
    data
}

#[test]
fn midi_file_is_read_into_a_score() {
    let score = load_score(&one_note_file()).unwrap();
    assert_eq!(score.timing, Timing::Metrical(480));
    assert_eq!(
        score.tracks,
        vec![vec![
            ev(0, EventKind::Tempo(500_000)),
            ev(0, EventKind::NoteOn { key: 60, vel: 100 }),
            ev(480, EventKind::NoteOff { key: 60 }),
            ev(0, EventKind::OtherMeta),
        ]]
    );
}

#[test]
fn malformed_midi_is_rejected() {
    assert_eq!(load_score(&b"not a midi file".to_vec()).err(), Some(MidiError::Malformed));
    assert!(PlayerSettings::new(vec![1, 2, 3], false, false, 0, 1000, None).is_err());
}

#[test]
fn settings_from_midi_bytes_play() {
    let settings = PlayerSettings::new(one_note_file(), true, false, 0, 1000, Some(5)).unwrap();
    assert!(settings.loop_midi);
    assert_eq!(settings.start_time, Some(5));
    let mut p = WebfishingPlayer::new(settings, false, 0).unwrap();
    assert_eq!(p.final_tick(), 480);
    let tempo = p.next_event().unwrap();
    p.dispatch(tempo);
    assert_eq!(p.micros_per_tick, 1041);
    let n = p.next_event().unwrap();
    // 60 on the B string at fret 1: four strings cover it, none used yet.
    assert_eq!(
        p.dispatch(n),
        vec![Action::SetPosition { string: 4, fret: 1 }, Action::Strum { string: 4 }]
    );
}
