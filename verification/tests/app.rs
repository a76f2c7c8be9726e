use groove_tui::app::{App, AppTab};
use groove_tui::audio::AudioCommand;
use groove_tui::backing::{BackingTrack, PlaybackAction};
use groove_tui::tuner::{CaptureAction, TuningMode};

fn track(title: &str, url: &str, query: Option<&str>) -> BackingTrack {
    BackingTrack::new(title.to_string(), None, None, url.to_string(), query.map(|q| q.to_string()))
}

#[test]
fn new_app() {
    let app = App::new(vec!["Mic".to_string()], Vec::new());
    assert_eq!(app.bpm(), 120);
    assert!(!app.is_playing());
    assert_eq!(app.current_tab(), AppTab::Groove);
    assert_eq!(app.current_tab_index(), 0);
    assert_eq!(app.genre(), "Blues");
    assert_eq!(app.root_pitch_label(), "E");
    assert_eq!(app.chord_quality_label(), "Major");
    assert_eq!(app.chord_notes_label(), "E G# B");
    assert_eq!(app.root_pitch_class(), 4);
    assert_eq!(app.first_suggested_scale_label(), "Blues");
    assert_eq!(app.suggested_scales().len(), 3);
    assert_eq!(app.first_suggested_scale_pitch_classes().len(), 7);
    assert_eq!(app.tuner().selected_device(), Some("Mic"));
    assert_eq!(app.backing_tracks().favorites_len(), 0);
    assert_eq!(app.music().genre(), "Blues");
}

#[test]
fn tabs_cycle_in_three_steps() {
    let mut app = App::new(Vec::new(), Vec::new());
    app.next_tab();
    assert_eq!(app.current_tab(), AppTab::Tuner);
    assert_eq!(app.current_tab_index(), 1);
    app.next_tab();
    assert_eq!(app.current_tab(), AppTab::Backing);
    app.next_tab();
    assert_eq!(app.current_tab(), AppTab::Groove);
}

#[test]
fn metronome_controls() {
    let mut app = App::new(Vec::new(), Vec::new());
    let u = app.toggle_play();
    assert_eq!(u.command, AudioCommand::Toggle);
    assert!(u.restart_clock);
    assert!(app.is_playing());
    let u = app.increase_bpm();
    assert_eq!(u.command, AudioCommand::SetBpm(121));
    assert!(u.restart_clock);
    let u = app.decrease_bpm().unwrap();
    assert_eq!(u.command, AudioCommand::SetBpm(120));
    let u = app.toggle_play();
    assert!(!u.restart_clock);
    assert_eq!(app.quit_audio(), AudioCommand::Quit);
}

#[test]
fn tempo_never_drops_below_one() {
    let mut app = App::new(Vec::new(), Vec::new());
    for _ in 0..119 {
        assert!(app.decrease_bpm().is_some());
    }
    assert_eq!(app.bpm(), 1);
    assert!(app.decrease_bpm().is_none());
    assert_eq!(app.bpm(), 1);
}

#[test]
fn harmony_controls() {
    let mut app = App::new(Vec::new(), Vec::new());
    app.next_root_pitch();
    assert_eq!(app.root_pitch_label(), "F");
    app.prev_root_pitch();
    assert_eq!(app.root_pitch_label(), "E");
    app.select_chord_quality(true);
    assert_eq!(app.chord_quality_label(), "Minor");
    app.select_chord_quality(true);
    assert_eq!(app.chord_quality_label(), "Minor");
    app.select_chord_quality(false);
    assert_eq!(app.chord_quality_label(), "Major");
    app.next_chord_quality();
    assert_eq!(app.chord_quality_label(), "Minor");
    app.prev_chord_quality();
    assert_eq!(app.chord_quality_label(), "Major");
    app.next_genre();
    assert_eq!(app.genre(), "Rock");
    app.prev_genre();
    assert_eq!(app.genre(), "Blues");
}

#[test]
fn tuner_controls() {
    let mut app = App::new(vec!["Mic".to_string(), "Line".to_string()], Vec::new());
    app.next_tuner_device();
    assert_eq!(app.tuner().selected_device(), Some("Line"));
    app.prev_tuner_device();
    assert_eq!(app.tuner().selected_device(), Some("Mic"));
    match app.toggle_tuner_capture() {
        CaptureAction::Start(d) => assert_eq!(d, Some("Mic".to_string())),
        _ => panic!("expected a start"),
    }
    app.tuner_capture_started(48000);
    assert!(app.tuner().is_capturing());
    assert!(matches!(app.increase_tuner_gain(), CaptureAction::Restart(_)));
    app.tuner_capture_failed("gone");
    assert_eq!(app.tuner().error_message(), Some("Failed to start: gone"));
    assert!(matches!(app.decrease_tuner_gain(), CaptureAction::Nothing));
    app.toggle_tuner_mode();
    assert_eq!(app.tuner_mode(), TuningMode::Manual);
    app.next_tuner_string();
    assert_eq!(app.tuner().selected_string_label(), "A2");
    app.prev_tuner_string();
    assert_eq!(app.tuner().selected_string_label(), "E2");
}

#[test]
fn starting_a_track_sets_the_harmony() {
    let mut app = App::new(Vec::new(), Vec::new());
    app.backing_playback_started(track("Smooth Jazz Backing Track in D minor", "u", None));
    assert_eq!(app.root_pitch_label(), "D");
    assert_eq!(app.chord_quality_label(), "Minor");
    assert_eq!(app.genre(), "Jazz");
    assert_eq!(app.chord_notes_label(), "D F A");
}

#[test]
fn starting_a_sharp_key_track_selects_the_sharp_root() {
    let mut app = App::new(Vec::new(), Vec::new());
    app.backing_playback_started(track("Groove", "u", Some("funk jam in Ab major")));
    assert_eq!(app.root_pitch_label(), "G♯");
    assert_eq!(app.chord_quality_label(), "Major");
    assert_eq!(app.genre(), "Funk");
}

#[test]
fn a_track_without_hints_keeps_the_harmony() {
    let mut app = App::new(Vec::new(), Vec::new());
    app.next_genre();
    app.backing_playback_started(track("Untitled", "u", None));
    assert_eq!(app.root_pitch_label(), "E");
    assert_eq!(app.chord_quality_label(), "Major");
    assert_eq!(app.genre(), "Rock");
}

#[test]
fn backing_flow_through_the_app() {
    let mut app = App::new(Vec::new(), Vec::new());
    app.backing_begin_search_edit();
    for c in "metal".chars() {
        app.backing_push_query_char(c);
    }
    app.backing_backspace_query();
    app.backing_push_query_char('l');
    assert_eq!(app.backing_submit_search(), Some("metal".to_string()));
    app.backing_search_finished(Ok(vec![
        track("Metal in B minor", "m1", Some("metal")),
        track("Other", "m2", Some("metal")),
    ]));
    app.backing_next_result();
    app.backing_prev_result();
    let first = match app.backing_toggle_selected() {
        PlaybackAction::Start(t) => t,
        _ => panic!("expected a start"),
    };
    assert_eq!(app.genre(), "Blues");
    app.backing_playback_started(first);
    assert_eq!(app.genre(), "Metal");
    assert_eq!(app.root_pitch_label(), "B");
    assert!(matches!(app.backing_toggle_selected(), PlaybackAction::SetPause(true)));
    app.backing_pause_finished(true, Ok(()));
    app.backing_pause_observed(false);
    assert!(app.backing_toggle_favorite());
    app.backing_favorites_save_failed("read-only");
    assert_eq!(app.backing_tracks().message(), Some("Could not save favorites: read-only"));
    app.backing_toggle_library_view();
    app.backing_toggle_library_view();
    app.backing_playback_failed("x");
    app.backing_player_exited(true, "ok");
    app.backing_player_lost("gone");
    app.backing_stop();
    assert!(app.backing_tracks().now_playing().is_none());
    app.backing_search_lost();
    app.backing_begin_search_edit();
    app.backing_cancel_query_edit();
    assert!(!app.backing_tracks().editing_query());
}
