use groove_tui::app::AppTab;
use groove_tui::backing::{BackingSearchState, BackingTrack, BackingTracksState};
use groove_tui::display::{
    centered_cell, empty_results_text, fretboard_marks, help_text, is_marker_fret,
    player_status_line, search_status_line, tab_name, FretMark, FRET_COUNT, STRING_COUNT,
};

fn track(title: &str, url: &str) -> BackingTrack {
    BackingTrack::new(title.to_string(), None, None, url.to_string(), None)
}

#[test]
fn cells_are_centred() {
    assert_eq!(centered_cell("ab", 6), "  ab  ");
    assert_eq!(centered_cell("abc", 6), " abc  ");
    assert_eq!(centered_cell("abcdef", 3), "abc");
    assert_eq!(centered_cell("x", 0), "");
    assert_eq!(centered_cell("C♯", 4), " C♯ ");
}

#[test]
fn fretboard_for_e_blues() {
    let rows = fretboard_marks(4, &[4, 7, 9, 10, 11, 2, 4]);
    assert_eq!(rows.len(), STRING_COUNT);
    for row in &rows {
        assert_eq!(row.len(), FRET_COUNT + 1);
    }
    assert_eq!(rows[0][0], FretMark::Root);
    assert_eq!(rows[0][1], FretMark::Empty);
    assert_eq!(rows[0][3], FretMark::Scale);
    assert_eq!(rows[0][12], FretMark::Root);
    assert_eq!(rows[1][0], FretMark::Scale);
    assert_eq!(rows[5][0], FretMark::Root);
    assert_eq!(rows[4][2], FretMark::Scale);
    assert_eq!(rows[4][7], FretMark::Root);
}

#[test]
fn empty_scale_marks_nothing() {
    let rows = fretboard_marks(0, &[]);
    assert!(rows.iter().all(|r| r.iter().all(|m| *m == FretMark::Empty)));
}

#[test]
fn marker_frets() {
    let marked: Vec<usize> = (0..=12).filter(|f| is_marker_fret(*f)).collect();
    assert_eq!(marked, vec![3, 5, 7, 9, 12]);
}

#[test]
fn player_lines() {
    let mut s = BackingTracksState::new(Vec::new());
    assert_eq!(player_status_line(&s), "▶ Nothing playing");
    s.playback_started(track("Song", "u"));
    assert_eq!(player_status_line(&s), "▶ Song");
    s.pause_observed(true);
    assert_eq!(player_status_line(&s), "⏸ Song");
    s.player_lost("eof");
    assert_eq!(player_status_line(&s), "Player error: eof");
    s.pause_observed(false);
    assert_eq!(player_status_line(&s), "▶ Playing");
}

#[test]
fn search_lines() {
    let mut s = BackingTracksState::new(Vec::new());
    assert_eq!(
        search_status_line(&s),
        "Type a search, press Enter, pick a track, then press Space."
    );
    s.begin_search_edit();
    s.push_query_char('a');
    s.submit_search();
    assert_eq!(search_status_line(&s), "Searching with yt-dlp");
    s.search_finished(Ok(vec![track("A", "a"), track("B", "b")]));
    assert_eq!(search_status_line(&s), "2 result(s)");
    s.search_finished(Err("no network".to_string()));
    assert_eq!(search_status_line(&s), "no network");
}

#[test]
fn empty_result_hints() {
    assert_eq!(
        empty_results_text(&BackingSearchState::Idle),
        "Search for things like: funk backing track E minor 90 bpm"
    );
    assert_eq!(empty_results_text(&BackingSearchState::Searching), "Searching YouTube...");
    assert_eq!(
        empty_results_text(&BackingSearchState::Ready),
        "No results found. Try a more specific query."
    );
    assert_eq!(
        empty_results_text(&BackingSearchState::Failed("x".to_string())),
        "Search failed. Check the status message above."
    );
}

#[test]
fn tab_names_and_help() {
    assert_eq!(tab_name(AppTab::Groove), "Groove");
    assert_eq!(tab_name(AppTab::Tuner), "Tuner");
    assert_eq!(tab_name(AppTab::Backing), "Backing");
    assert!(help_text(AppTab::Groove).contains("[Space] Play/Pause"));
    assert!(help_text(AppTab::Tuner).contains("[M] Mode"));
    assert!(help_text(AppTab::Backing).contains("[F] Favorite"));
}
