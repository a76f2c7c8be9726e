use groove_tui::music::{
    find_chord_quality_index, find_genre_index, find_root_pitch_index, normalize_music_token,
    note_pitch_classes, scale_line_text, scale_suggestions_for_genre, MusicState, ScaleMode,
    TriadQuality,
};

#[test]
fn new_state_is_e_major_blues() {
    let m = MusicState::new();
    assert_eq!(m.genre(), "Blues");
    assert_eq!(m.root_pitch_label(), "E");
    assert_eq!(m.chord_quality_label(), "Major");
    assert_eq!(m.chord_quality(), TriadQuality::Major);
    assert_eq!(m.root_pitch_class(), 4);
}

#[test]
fn e_major_triad_is_spelled_with_a_sharp_third() {
    let m = MusicState::new();
    assert_eq!(m.chord_notes_label(), "E G# B");
}

#[test]
fn e_minor_triad_has_a_natural_third() {
    let mut m = MusicState::new();
    m.next_chord_quality();
    assert_eq!(m.chord_quality_label(), "Minor");
    assert_eq!(m.chord_notes_label(), "E G B");
}

#[test]
fn suggested_scales_for_e_major_blues() {
    let m = MusicState::new();
    assert_eq!(
        m.suggested_scales(),
        vec![
            "Blues: E G A A# B D E".to_string(),
            "Major Pentatonic: E F# G# B C# E".to_string(),
            "Mixolydian: E F# G# A B C# D E".to_string(),
        ]
    );
}

#[test]
fn first_suggested_scale_is_the_blues_scale() {
    let m = MusicState::new();
    assert_eq!(m.first_suggested_scale_label(), "Blues");
    assert_eq!(m.first_suggested_scale_pitch_classes(), vec![4, 7, 9, 10, 11, 2, 4]);
}

#[test]
fn minor_blues_suggestions_start_with_blues() {
    let mut m = MusicState::new();
    m.next_chord_quality();
    let lines = m.suggested_scales();
    assert_eq!(lines.len(), 3);
    assert!(lines[1].starts_with("Minor Pentatonic: "));
    assert!(lines[2].starts_with("Dorian: "));
}

#[test]
fn suggestions_for_minor_jazz() {
    let s = scale_suggestions_for_genre(2, true);
    let labels: Vec<&str> = s.iter().map(|x| x.label).collect();
    assert_eq!(labels, vec!["Dorian", "Melodic Minor", "Harmonic Minor"]);
    assert_eq!(s[1].mode, ScaleMode::MelodicMinor);
}

#[test]
fn suggestions_for_major_funk() {
    let s = scale_suggestions_for_genre(4, false);
    let labels: Vec<&str> = s.iter().map(|x| x.label).collect();
    assert_eq!(labels, vec!["Mixolydian", "Major Pentatonic", "Ionian"]);
}

#[test]
fn root_pitch_steps_wrap_around() {
    let mut m = MusicState::new();
    for _ in 0..4 {
        m.prev_root_pitch();
    }
    assert_eq!(m.root_pitch_label(), "C");
    m.prev_root_pitch();
    assert_eq!(m.root_pitch_label(), "B");
    m.next_root_pitch();
    m.next_root_pitch();
    assert_eq!(m.root_pitch_label(), "C♯");
    assert_eq!(m.root_pitch_class(), 1);
}

#[test]
fn twelve_root_steps_return_to_the_start() {
    let mut m = MusicState::new();
    for _ in 0..12 {
        m.next_root_pitch();
    }
    assert_eq!(m.root_pitch_label(), "E");
}

#[test]
fn root_step_forward_then_back_returns() {
    let mut m = MusicState::new();
    m.next_root_pitch();
    assert_eq!(m.root_pitch_label(), "F");
    m.prev_root_pitch();
    assert_eq!(m.root_pitch_label(), "E");
}

#[test]
fn genres_cycle_both_ways() {
    let mut m = MusicState::new();
    m.next_genre();
    assert_eq!(m.genre(), "Rock");
    m.prev_genre();
    m.prev_genre();
    assert_eq!(m.genre(), "Funk");
    m.next_genre();
    assert_eq!(m.genre(), "Blues");
}

#[test]
fn quality_cycles_both_ways() {
    let mut m = MusicState::new();
    m.prev_chord_quality();
    assert_eq!(m.chord_quality_label(), "Minor");
    m.next_chord_quality();
    assert_eq!(m.chord_quality_label(), "Major");
}

#[test]
fn set_context_selects_named_values() {
    let mut m = MusicState::new();
    m.set_context(Some("Cs"), Some("Minor"), Some("Jazz"));
    assert_eq!(m.root_pitch_label(), "C♯");
    assert_eq!(m.chord_quality_label(), "Minor");
    assert_eq!(m.genre(), "Jazz");
}

#[test]
fn set_context_ignores_unknown_and_missing_labels() {
    let mut m = MusicState::new();
    m.set_context(Some("zz"), None, Some("Polka"));
    assert_eq!(m.root_pitch_label(), "E");
    assert_eq!(m.chord_quality_label(), "Major");
    assert_eq!(m.genre(), "Blues");
}

#[test]
fn displayed_root_is_read_back() {
    let mut m = MusicState::new();
    m.next_root_pitch();
    m.next_root_pitch();
    let shown = m.root_pitch_label();
    assert_eq!(shown, "F♯");
    m.set_context(Some(shown.as_str()), None, None);
    assert_eq!(m.root_pitch_label(), "F♯");
}

#[test]
fn root_labels_are_found_in_any_spelling() {
    assert_eq!(find_root_pitch_index("C#"), Some(1));
    assert_eq!(find_root_pitch_index("c♯"), Some(1));
    assert_eq!(find_root_pitch_index("  gs "), Some(8));
    assert_eq!(find_root_pitch_index("B"), Some(11));
    assert_eq!(find_root_pitch_index("H"), None);
    assert_eq!(find_root_pitch_index("Db"), None);
}

#[test]
fn quality_and_genre_labels_are_found() {
    assert_eq!(find_chord_quality_index(" MINOR "), Some(1));
    assert_eq!(find_chord_quality_index("major"), Some(0));
    assert_eq!(find_chord_quality_index("dim"), None);
    assert_eq!(find_genre_index("metal"), Some(3));
    assert_eq!(find_genre_index(" Funk"), Some(4));
    assert_eq!(find_genre_index("Pop"), None);
}

#[test]
fn music_tokens_are_normalised() {
    assert_eq!(normalize_music_token(" C♯ "), "cs");
    assert_eq!(normalize_music_token("G#"), "gs");
    assert_eq!(normalize_music_token("Bb"), "bb");
}

#[test]
fn scale_lines_from_given_notes() {
    let notes = vec![("A".to_string(), 9u8), ("C".to_string(), 0u8), ("D".to_string(), 2u8)];
    assert_eq!(scale_line_text("Minor Pentatonic", &notes), "Minor Pentatonic: A C D");
    assert_eq!(scale_line_text("Empty", &Vec::new()), "Empty: ");
    assert_eq!(note_pitch_classes(&notes), vec![9, 0, 2]);
}

#[test]
fn applying_a_context_twice_is_applying_it_once() {
    let mut once = MusicState::new();
    once.set_context(Some("As"), Some("minor"), Some("nope"));
    let mut twice = MusicState::new();
    twice.set_context(Some("As"), Some("minor"), Some("nope"));
    twice.set_context(Some("As"), Some("minor"), Some("nope"));
    assert_eq!(once.root_pitch_label(), "A♯");
    assert_eq!(twice.root_pitch_label(), once.root_pitch_label());
    assert_eq!(twice.chord_quality_label(), once.chord_quality_label());
    assert_eq!(twice.genre(), once.genre());
}
