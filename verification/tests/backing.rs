use groove_tui::backing::{
    format_whole_seconds, infer_track_context, pause_reply_result, search_failure_message,
    track_from_entry,
    tracks_from_entries, youtube_watch_url, BackingLibraryView, BackingPlayerState,
    BackingSearchState, BackingTrack, BackingTracksState, PlaybackAction, SearchEntry,
};

fn track(title: &str, url: &str) -> BackingTrack {
    BackingTrack::new(title.to_string(), None, Some(125), url.to_string(), None)
}

fn entry(id: Option<&str>, title: Option<&str>, webpage_url: Option<&str>) -> SearchEntry {
    SearchEntry {
        id: id.map(|s| s.to_string()),
        title: title.map(|s| s.to_string()),
        channel: None,
        uploader: Some("Uploader".to_string()),
        duration_seconds: Some(61),
        webpage_url: webpage_url.map(|s| s.to_string()),
        url: None,
    }
}

fn with_results(tracks: Vec<BackingTrack>) -> BackingTracksState {
    let mut s = BackingTracksState::new(Vec::new());
    s.search_finished(Ok(tracks));
    s
}

#[test]
fn clock_labels() {
    assert_eq!(format_whole_seconds(0), "0:00");
    assert_eq!(format_whole_seconds(59), "0:59");
    assert_eq!(format_whole_seconds(125), "2:05");
    assert_eq!(format_whole_seconds(3725), "1:02:05");
    assert_eq!(format_whole_seconds(36000), "10:00:00");
}

#[test]
fn duration_labels() {
    assert_eq!(track("a", "u").duration_label(), Some("2:05".to_string()));
    let long = BackingTrack::new("b".to_string(), None, Some(3725), "u".to_string(), None);
    assert_eq!(long.duration_label(), Some("62:05".to_string()));
    let unknown = BackingTrack::new("c".to_string(), None, None, "u".to_string(), None);
    assert_eq!(unknown.duration_label(), None);
}

#[test]
fn short_lengths_read_the_same_in_list_and_clock() {
    for seconds in [0u64, 7, 61, 599, 3599] {
        let t = BackingTrack::new("t".to_string(), None, Some(seconds), "u".to_string(), None);
        assert_eq!(t.duration_label().unwrap(), format_whole_seconds(seconds));
    }
}

#[test]
fn watch_urls() {
    assert_eq!(youtube_watch_url("abc123"), "https://www.youtube.com/watch?v=abc123");
    assert_eq!(youtube_watch_url("https://example.com/v"), "https://example.com/v");
    assert_eq!(youtube_watch_url("http://example.com/v"), "http://example.com/v");
}

#[test]
fn watch_url_is_made_once() {
    let once = youtube_watch_url("xyz");
    assert_eq!(youtube_watch_url(&once), once);
}

#[test]
fn entry_with_id_only() {
    let t = track_from_entry(entry(Some("vid1"), Some("Groove"), None), "funk in E").unwrap();
    assert_eq!(t.title(), "Groove");
    assert_eq!(t.url(), "https://www.youtube.com/watch?v=vid1");
    assert_eq!(t.channel(), Some("Uploader"));
    assert_eq!(t.duration_seconds(), Some(61));
    assert_eq!(t.source_query(), Some("funk in E"));
}

#[test]
fn entry_page_address_wins_over_id() {
    let t = track_from_entry(entry(Some("vid1"), Some("Groove"), Some("https://yt/p")), "q").unwrap();
    assert_eq!(t.url(), "https://yt/p");
}

#[test]
fn incomplete_entries_are_skipped() {
    assert!(track_from_entry(entry(Some("vid1"), None, None), "q").is_none());
    assert!(track_from_entry(entry(None, Some("Groove"), None), "q").is_none());
    let tracks = tracks_from_entries(
        vec![
            entry(Some("a"), Some("First"), None),
            entry(Some("b"), None, None),
            entry(None, Some("Third"), Some("https://yt/3")),
        ],
        "q",
    );
    assert_eq!(tracks.len(), 2);
    assert_eq!(tracks[0].title(), "First");
    assert_eq!(tracks[1].title(), "Third");
}

#[test]
fn search_text_adds_a_non_blank_query() {
    let t = BackingTrack::new("Jam".to_string(), None, None, "u".to_string(), Some("blues in A".to_string()));
    assert_eq!(t.search_text(), "Jam blues in A");
    let blank = BackingTrack::new("Jam".to_string(), None, None, "u".to_string(), Some("  ".to_string()));
    assert_eq!(blank.search_text(), "Jam");
}

#[test]
fn track_context_from_title_and_query() {
    let t = BackingTrack::new(
        "Slow Jam".to_string(),
        None,
        None,
        "u".to_string(),
        Some("blues backing track in C# minor".to_string()),
    );
    let c = infer_track_context(&t);
    assert_eq!(c.root, Some("Cs".to_string()));
    assert_eq!(c.quality, Some("Minor".to_string()));
    assert_eq!(c.genre, Some("Blues".to_string()));
}

#[test]
fn duplicate_keeps_fields() {
    let t = BackingTrack::new("T".to_string(), Some("C".to_string()), Some(3), "u".to_string(), Some("q".to_string()));
    let d = t.duplicate();
    assert_eq!(d.title(), "T");
    assert_eq!(d.channel(), Some("C"));
    assert_eq!(d.duration_seconds(), Some(3));
    assert_eq!(d.url(), "u");
    assert_eq!(d.source_query(), Some("q"));
}

#[test]
fn fresh_state_is_idle() {
    let s = BackingTracksState::new(vec![track("Fav", "f")]);
    assert_eq!(s.query(), "");
    assert!(!s.editing_query());
    assert_eq!(s.selected_index(), 0);
    assert!(s.results().is_empty());
    assert_eq!(s.favorites_len(), 1);
    assert_eq!(s.library_view(), BackingLibraryView::SearchResults);
    assert!(matches!(s.search_state(), BackingSearchState::Idle));
    assert!(matches!(s.player_state(), BackingPlayerState::Stopped));
    assert!(s.now_playing().is_none());
    assert!(s.message().is_none());
}

#[test]
fn typing_a_query() {
    let mut s = BackingTracksState::new(Vec::new());
    s.push_query_char('x');
    assert_eq!(s.query(), "");
    s.begin_search_edit();
    for c in " funk ".chars() {
        s.push_query_char(c);
    }
    s.push_query_char('\u{7}');
    assert_eq!(s.query(), " funk ");
    s.backspace_query();
    s.backspace_query();
    assert_eq!(s.query(), " fun");
    let q = s.submit_search();
    assert_eq!(q, Some("fun".to_string()));
    assert!(!s.editing_query());
    assert!(matches!(s.search_state(), BackingSearchState::Searching));
}

#[test]
fn cancel_keeps_the_query() {
    let mut s = BackingTracksState::new(Vec::new());
    s.begin_search_edit();
    s.push_query_char('a');
    s.cancel_query_edit();
    assert!(!s.editing_query());
    assert_eq!(s.query(), "a");
    s.backspace_query();
    assert_eq!(s.query(), "a");
}

#[test]
fn blank_search_fails_at_once() {
    let mut s = BackingTracksState::new(Vec::new());
    s.begin_search_edit();
    s.push_query_char(' ');
    assert_eq!(s.submit_search(), None);
    match s.search_state() {
        BackingSearchState::Failed(m) => assert_eq!(m, "Type something to search first."),
        _ => panic!("expected a failed search"),
    }
}

#[test]
fn search_answers() {
    let mut s = with_results(vec![track("A", "a"), track("B", "b")]);
    assert!(matches!(s.search_state(), BackingSearchState::Ready));
    assert_eq!(s.results().len(), 2);
    s.search_finished(Err("yt-dlp missing".to_string()));
    assert!(s.results().is_empty());
    match s.search_state() {
        BackingSearchState::Failed(m) => assert_eq!(m, "yt-dlp missing"),
        _ => panic!("expected a failed search"),
    }
    s.search_worker_lost();
    match s.search_state() {
        BackingSearchState::Failed(m) => assert_eq!(m, "Search worker stopped unexpectedly."),
        _ => panic!("expected a failed search"),
    }
}

#[test]
fn selection_wraps_both_ways() {
    let mut s = with_results(vec![track("A", "a"), track("B", "b"), track("C", "c")]);
    s.prev_result();
    assert_eq!(s.selected_index(), 2);
    s.next_result();
    assert_eq!(s.selected_index(), 0);
    s.next_result();
    assert_eq!(s.selected_track().unwrap().title(), "B");
    let mut empty = BackingTracksState::new(Vec::new());
    empty.next_result();
    empty.prev_result();
    assert_eq!(empty.selected_index(), 0);
}

#[test]
fn toggling_without_a_selection_fails() {
    let mut s = BackingTracksState::new(Vec::new());
    assert!(matches!(s.toggle_selected(), PlaybackAction::Nothing));
    match s.player_state() {
        BackingPlayerState::Failed(m) => assert_eq!(m, "Search and select a track first."),
        _ => panic!("expected a failed player"),
    }
}

#[test]
fn play_pause_resume() {
    let mut s = with_results(vec![track("A", "a"), track("B", "b")]);
    let first = match s.toggle_selected() {
        PlaybackAction::Start(t) => t,
        _ => panic!("expected a start"),
    };
    assert_eq!(first.url(), "a");
    s.playback_started(first);
    assert!(matches!(s.player_state(), BackingPlayerState::Playing));
    assert_eq!(s.now_playing().unwrap().title(), "A");
    assert!(matches!(s.toggle_selected(), PlaybackAction::SetPause(true)));
    s.pause_finished(true, Ok(()));
    assert!(matches!(s.player_state(), BackingPlayerState::Paused));
    assert!(matches!(s.toggle_selected(), PlaybackAction::SetPause(false)));
    s.pause_finished(false, Err("Could not update mpv playback state.".to_string()));
    match s.player_state() {
        BackingPlayerState::Failed(m) => assert_eq!(m, "Could not update mpv playback state."),
        _ => panic!("expected a failed player"),
    }
}

#[test]
fn another_track_stops_the_first() {
    let mut s = with_results(vec![track("A", "a"), track("B", "b")]);
    if let PlaybackAction::Start(t) = s.toggle_selected() {
        s.playback_started(t);
    }
    s.next_result();
    match s.toggle_selected() {
        PlaybackAction::Start(t) => assert_eq!(t.title(), "B"),
        _ => panic!("expected a start"),
    }
    assert!(s.now_playing().is_none());
    assert!(matches!(s.player_state(), BackingPlayerState::Stopped));
}

#[test]
fn player_failures_are_reported() {
    let mut s = with_results(vec![track("A", "a")]);
    s.playback_failed("No such file");
    match s.player_state() {
        BackingPlayerState::Failed(m) => {
            assert_eq!(m, "Could not start mpv: No such file. Install mpv to play audio.")
        }
        _ => panic!("expected a failed player"),
    }
    s.playback_started(track("A", "a"));
    s.player_exited(false, "exit status: 1");
    assert!(s.now_playing().is_none());
    match s.player_state() {
        BackingPlayerState::Failed(m) => assert_eq!(m, "Player exited with exit status: 1."),
        _ => panic!("expected a failed player"),
    }
    s.playback_started(track("A", "a"));
    s.player_exited(true, "exit status: 0");
    assert!(matches!(s.player_state(), BackingPlayerState::Stopped));
    s.playback_started(track("A", "a"));
    s.player_lost("broken pipe");
    match s.player_state() {
        BackingPlayerState::Failed(m) => assert_eq!(m, "Player error: broken pipe"),
        _ => panic!("expected a failed player"),
    }
}

#[test]
fn pause_is_observed() {
    let mut s = with_results(vec![track("A", "a")]);
    s.pause_observed(true);
    assert!(matches!(s.player_state(), BackingPlayerState::Paused));
    s.pause_observed(false);
    assert!(matches!(s.player_state(), BackingPlayerState::Playing));
    s.stop();
    assert!(matches!(s.player_state(), BackingPlayerState::Stopped));
}

#[test]
fn pause_replies() {
    assert_eq!(pause_reply_result(None), Ok(()));
    assert_eq!(pause_reply_result(Some("success")), Ok(()));
    assert_eq!(
        pause_reply_result(Some("property unavailable")),
        Err("Could not update mpv playback state.".to_string())
    );
}

#[test]
fn favoriting_twice_restores_the_favorites() {
    let mut s = with_results(vec![track("A", "a"), track("B", "b")]);
    assert!(!s.selected_is_favorite());
    assert!(s.toggle_favorite());
    assert_eq!(s.message(), Some("Favorited: A"));
    assert_eq!(s.favorites_len(), 1);
    assert!(s.selected_is_favorite());
    assert!(s.toggle_favorite());
    assert_eq!(s.message(), Some("Removed favorite: A"));
    assert_eq!(s.favorites_len(), 0);
    assert!(!s.selected_is_favorite());
}

#[test]
fn favoriting_without_a_selection() {
    let mut s = BackingTracksState::new(Vec::new());
    assert!(!s.toggle_favorite());
    assert_eq!(s.message(), Some("Select a track before favoriting."));
}

#[test]
fn removing_the_last_favorite_moves_the_selection_up() {
    let mut s = BackingTracksState::new(vec![track("A", "a"), track("B", "b")]);
    s.search_finished(Ok(vec![track("X", "x"), track("Y", "y")]));
    s.toggle_library_view();
    assert_eq!(s.library_view(), BackingLibraryView::Favorites);
    assert_eq!(s.results().len(), 2);
    s.next_result();
    assert_eq!(s.selected_index(), 1);
    assert_eq!(s.selected_track().unwrap().title(), "B");
    assert!(s.toggle_favorite());
    assert_eq!(s.message(), Some("Removed favorite: B"));
    assert_eq!(s.favorites_len(), 1);
    assert_eq!(s.selected_index(), 0);
    assert_eq!(s.favorites()[0].title(), "A");
}

#[test]
fn switching_lists_twice_returns_to_the_top() {
    let mut s = with_results(vec![track("A", "a"), track("B", "b")]);
    s.next_result();
    s.favorites_save_failed("disk full");
    assert_eq!(s.message(), Some("Could not save favorites: disk full"));
    s.toggle_library_view();
    assert_eq!(s.library_view(), BackingLibraryView::Favorites);
    assert!(s.message().is_none());
    s.toggle_library_view();
    assert_eq!(s.library_view(), BackingLibraryView::SearchResults);
    assert_eq!(s.selected_index(), 0);
    assert_eq!(s.results().len(), 2);
}

#[test]
fn is_favorite_goes_by_address() {
    let s = BackingTracksState::new(vec![track("Fav", "same")]);
    assert!(s.is_favorite(&track("Other title", "same")));
    assert!(!s.is_favorite(&track("Fav", "different")));
}

#[test]
fn now_playing_context() {
    let mut s = BackingTracksState::new(Vec::new());
    assert!(s.now_playing_context().is_none());
    s.playback_started(track("Metal riff in Gb", "m"));
    let c = s.now_playing_context().unwrap();
    assert_eq!(c.root, Some("Fs".to_string()));
    assert_eq!(c.quality, None);
    assert_eq!(c.genre, Some("Metal".to_string()));
}

#[test]
fn selection_down_then_up_returns() {
    let mut s = with_results(vec![track("A", "a"), track("B", "b"), track("C", "c")]);
    s.next_result();
    assert_eq!(s.selected_index(), 1);
    s.next_result();
    s.prev_result();
    assert_eq!(s.selected_index(), 1);
    s.prev_result();
    s.next_result();
    assert_eq!(s.selected_index(), 1);
}

#[test]
fn favourites_selection_wraps_by_the_favourites() {
    let mut s = BackingTracksState::new(vec![track("A", "a"), track("B", "b")]);
    s.search_finished(Ok(vec![
        track("1", "1"),
        track("2", "2"),
        track("3", "3"),
        track("4", "4"),
        track("5", "5"),
    ]));
    s.toggle_library_view();
    s.next_result();
    assert_eq!(s.selected_index(), 1);
    s.next_result();
    assert_eq!(s.selected_index(), 0);
    s.prev_result();
    assert_eq!(s.selected_index(), 1);
    assert_eq!(s.selected_track().unwrap().title(), "B");
}

#[test]
fn empty_favourites_keep_the_selection() {
    let mut s = with_results(vec![track("A", "a"), track("B", "b")]);
    s.toggle_library_view();
    s.next_result();
    s.prev_result();
    assert_eq!(s.selected_index(), 0);
    assert!(s.selected_track().is_none());
}

#[test]
fn search_failure_messages() {
    assert_eq!(search_failure_message("  ERROR: no network\n", "exit status: 1"), "ERROR: no network");
    assert_eq!(search_failure_message(" \n", "exit status: 2"), "yt-dlp exited with exit status: 2.");
    assert_eq!(search_failure_message("", "signal: 9"), "yt-dlp exited with signal: 9.");
}
