use groove_tui::tuner::{
    fill_window, keep_latest, take_every_nth, tuner_string_label, CaptureAction, TunerState,
    TuningMode, DEFAULT_SAMPLE_RATE, INPUT_GAIN_DEFAULT_STEPS, INPUT_GAIN_MAX_STEPS,
};

fn devices(names: &[&str]) -> Vec<String> {
    names.iter().map(|s| s.to_string()).collect()
}

#[test]
fn fresh_tuner() {
    let t = TunerState::new(devices(&["Mic", "Line"]));
    assert_eq!(t.available_devices().len(), 2);
    assert_eq!(t.selected_device(), Some("Mic"));
    assert_eq!(t.selected_device_index(), 0);
    assert!(!t.is_capturing());
    assert!(t.error_message().is_none());
    assert_eq!(t.tuning_mode(), TuningMode::Auto);
    assert_eq!(t.sample_rate(), DEFAULT_SAMPLE_RATE);
    assert_eq!(t.input_gain_steps(), INPUT_GAIN_DEFAULT_STEPS);
    assert_eq!(t.selected_string_index(), 0);
    assert_eq!(t.selected_string_label(), "E2");
}

#[test]
fn string_labels() {
    let labels: Vec<&str> = (0..6).map(tuner_string_label).collect();
    assert_eq!(labels, vec!["E2", "A2", "D3", "G3", "B3", "E4"]);
}

#[test]
fn capture_toggles() {
    let mut t = TunerState::new(devices(&["Mic", "Line"]));
    match t.toggle_capture() {
        CaptureAction::Start(d) => assert_eq!(d, Some("Mic".to_string())),
        _ => panic!("expected a start"),
    }
    t.capture_started(48000);
    assert!(t.is_capturing());
    assert_eq!(t.sample_rate(), 48000);
    assert!(matches!(t.toggle_capture(), CaptureAction::Stop));
    assert!(!t.is_capturing());
}

#[test]
fn capture_without_devices_uses_the_default() {
    let mut t = TunerState::new(Vec::new());
    assert_eq!(t.selected_device(), None);
    match t.toggle_capture() {
        CaptureAction::Start(d) => assert_eq!(d, None),
        _ => panic!("expected a start"),
    }
}

#[test]
fn capture_failure_is_reported_and_cleared() {
    let mut t = TunerState::new(devices(&["Mic"]));
    t.capture_failed("device busy");
    assert_eq!(t.error_message(), Some("Failed to start: device busy"));
    assert!(!t.is_capturing());
    assert_eq!(t.start_capture(), Some("Mic".to_string()));
    assert!(t.error_message().is_none());
    t.capture_started(44100);
    t.stop_capture();
    assert!(!t.is_capturing());
}

#[test]
fn gain_moves_within_bounds() {
    let mut t = TunerState::new(Vec::new());
    for _ in 0..10 {
        assert!(matches!(t.increase_input_gain(), CaptureAction::Nothing));
    }
    assert_eq!(t.input_gain_steps(), INPUT_GAIN_MAX_STEPS);
    for _ in 0..30 {
        t.decrease_input_gain();
    }
    assert_eq!(t.input_gain_steps(), 0);
    assert!(matches!(t.decrease_input_gain(), CaptureAction::Nothing));
    assert_eq!(t.input_gain_steps(), 0);
}

#[test]
fn gain_change_restarts_a_running_capture() {
    let mut t = TunerState::new(devices(&["Mic", "Line"]));
    t.next_device();
    t.toggle_capture();
    t.capture_started(44100);
    match t.increase_input_gain() {
        CaptureAction::Restart(d) => assert_eq!(d, Some("Line".to_string())),
        _ => panic!("expected a restart"),
    }
    assert_eq!(t.input_gain_steps(), INPUT_GAIN_DEFAULT_STEPS + 1);
    assert!(!t.is_capturing());
}

#[test]
fn devices_wrap_and_refresh() {
    let mut t = TunerState::new(devices(&["A", "B", "C"]));
    t.prev_device();
    assert_eq!(t.selected_device(), Some("C"));
    t.next_device();
    assert_eq!(t.selected_device(), Some("A"));
    t.prev_device();
    t.refresh_devices(devices(&["X", "Y"]));
    assert_eq!(t.selected_device_index(), 0);
    assert_eq!(t.selected_device(), Some("X"));
    t.next_device();
    t.refresh_devices(devices(&["P", "Q", "R"]));
    assert_eq!(t.selected_device(), Some("Q"));
}

#[test]
fn strings_wrap_and_mode_toggles() {
    let mut t = TunerState::new(Vec::new());
    t.prev_string();
    assert_eq!(t.selected_string_label(), "E4");
    t.next_string();
    assert_eq!(t.selected_string_label(), "E2");
    t.next_string();
    assert_eq!(t.selected_string_label(), "A2");
    t.toggle_tuning_mode();
    assert_eq!(t.tuning_mode(), TuningMode::Manual);
    t.toggle_tuning_mode();
    assert_eq!(t.tuning_mode(), TuningMode::Auto);
}

#[test]
fn latest_samples_are_kept() {
    let mut buffer = vec![1, 2, 3];
    keep_latest(&mut buffer, &[4, 5], 4);
    assert_eq!(buffer, vec![2, 3, 4, 5]);
    keep_latest(&mut buffer, &[], 2);
    assert_eq!(buffer, vec![2, 3, 4, 5]);
    keep_latest(&mut buffer, &[6], 10);
    assert_eq!(buffer, vec![2, 3, 4, 5, 6]);
}

#[test]
fn kept_buffer_stays_bounded_and_ends_with_the_newest() {
    let mut buffer: Vec<i32> = Vec::new();
    for k in 0..50 {
        keep_latest(&mut buffer, &[k, k + 100], 8);
        assert!(buffer.len() <= 8);
        assert_eq!(*buffer.last().unwrap(), k + 100);
    }
}

#[test]
fn every_nth_sample() {
    assert_eq!(take_every_nth(&[0, 1, 2, 3, 4, 5, 6], 3), vec![0, 3, 6]);
    assert_eq!(take_every_nth(&[0, 1, 2, 3, 4, 5], 3), vec![0, 3]);
    assert_eq!(take_every_nth::<i32>(&[], 2), Vec::<i32>::new());
    assert_eq!(take_every_nth(&[7, 8], 1), vec![7, 8]);
}

#[test]
fn analysis_window() {
    assert_eq!(fill_window(&[1, 2, 3, 4, 5], 3, 0), vec![3, 4, 5]);
    assert_eq!(fill_window(&[1, 2], 4, 0), vec![0, 0, 1, 2]);
    assert_eq!(fill_window(&[1, 2], 0, 0), Vec::<i32>::new());
}
