//! The whole application state: the metronome tempo, the selected tab, the
//! harmony, the tuner controls and the backing tracks. Each control returns
//! what the caller has to run (a command for the click thread, a capture or a
//! player request); starting a backing track sets the harmony to what the
//! track's text suggests.
use vstd::prelude::*;

use crate::audio::AudioCommand;
use crate::backing::{
    char_erased, char_typed, editing_begun, editing_cancelled, exited, favorite_requested, lost,
    moved_next, moved_prev, outcome_view, pause_answered, pause_seen, save_failed,
    search_answered, search_lost, search_submitted, search_text_of, start_failed, stopped,
    toggled, unit_outcome_view, view_toggled, BackingModel, BackingTrack, BackingTracksState,
    PlaybackAction, TrackView,
};
use crate::text::trim_ws;
use crate::inference::{inferred_genre, inferred_quality, inferred_root, root_name};
use crate::music::{
    cycle_next, cycle_prev, genre_after, genre_label, pitch_class_of, quality_after, root_after,
    MusicState, RootPitch, ScaleMode, TriadQuality, GENRE_COUNT,
};
use crate::tuner::{CaptureAction, TunerModel, TunerState, TuningMode};

verus! {

/// The application's tabs, in the order that `Tab` cycles through them.
#[derive(Clone, Copy, Debug, PartialEq, Eq, Structural)]
pub enum AppTab {
    Groove,
    Tuner,
    Backing,
}

/// A command for the click thread, and whether the beat clock restarts now.
pub struct MetronomeUpdate {
    pub command: AudioCommand,
    pub restart_clock: bool,
}

/// The tab after `tab`.
pub open spec fn tab_after(tab: AppTab) -> AppTab {
    match tab {
        AppTab::Groove => AppTab::Tuner,
        AppTab::Tuner => AppTab::Backing,
        AppTab::Backing => AppTab::Groove,
    }
}

/// The position of a tab in the tab bar.
pub open spec fn tab_position(tab: AppTab) -> nat {
    match tab {
        AppTab::Groove => 0,
        AppTab::Tuner => 1,
        AppTab::Backing => 2,
    }
}

/// The harmony positions (genre, root, quality) after the context of a track is applied.
pub open spec fn harmony_after_track(music: MusicState, t: TrackView) -> (int, int, int) {
    let text = search_text_of(t);
    let root = match inferred_root(text) {
        Some(p) => Some(root_name(p)),
        None => None,
    };
    (
        genre_after(inferred_genre(text), music.genre_pos()),
        root_after(root, music.root_pos()),
        quality_after(inferred_quality(text), music.quality_pos()),
    )
}

pub open spec fn harmony(music: MusicState) -> (int, int, int) {
    (music.genre_pos(), music.root_pos(), music.quality_pos())
}

pub struct App {
    bpm: u64,
    is_playing: bool,
    music: MusicState,
    current_tab: AppTab,
    tuner: TunerState,
    backing_tracks: BackingTracksState,
}

impl App {
    pub closed spec fn bpm_value(&self) -> u64 {
        self.bpm
    }

    pub closed spec fn playing(&self) -> bool {
        self.is_playing
    }

    pub closed spec fn tab(&self) -> AppTab {
        self.current_tab
    }

    pub closed spec fn music_state(&self) -> MusicState {
        self.music
    }

    pub closed spec fn tuner_model(&self) -> TunerModel {
        self.tuner@
    }

    pub closed spec fn backing_model(&self) -> BackingModel {
        self.backing_tracks@
    }

    /// The parts hold their own invariants and the tempo is at least one beat per minute.
    pub closed spec fn wf(&self) -> bool {
        &&& self.music.wf()
        &&& self.tuner.wf()
        &&& self.backing_tracks.wf()
        &&& self.bpm >= 1
    }

    /// Everything but the harmony is as in `other`.
    pub open spec fn same_but_harmony(&self, other: &App) -> bool {
        &&& self.bpm_value() == other.bpm_value()
        &&& self.playing() == other.playing()
        &&& self.tab() == other.tab()
        &&& self.tuner_model() == other.tuner_model()
        &&& self.backing_model() == other.backing_model()
    }

    /// Everything but the backing tracks is as in `other`.
    pub open spec fn same_but_backing(&self, other: &App) -> bool {
        &&& self.bpm_value() == other.bpm_value()
        &&& self.playing() == other.playing()
        &&& self.tab() == other.tab()
        &&& self.tuner_model() == other.tuner_model()
        &&& harmony(self.music_state()) == harmony(other.music_state())
    }

    /// Everything but the tuner is as in `other`.
    pub open spec fn same_but_tuner(&self, other: &App) -> bool {
        &&& self.bpm_value() == other.bpm_value()
        &&& self.playing() == other.playing()
        &&& self.tab() == other.tab()
        &&& self.backing_model() == other.backing_model()
        &&& harmony(self.music_state()) == harmony(other.music_state())
    }

    /// 120 beats per minute, silent, on the Groove tab, with the default harmony.
    pub fn new(input_devices: Vec<String>, favorites: Vec<BackingTrack>) -> (app: Self)
        ensures
            app.wf(),
            app.bpm_value() == 120,
            !app.playing(),
            app.tab() == AppTab::Groove,
            genre_label(app.music_state().genre_pos()) == "Blues"@,
            app.music_state().root() == RootPitch::E,
            app.music_state().quality() == TriadQuality::Major,
            app.tuner_model() == crate::tuner::fresh_tuner(crate::text::string_views(input_devices@)),
            app.backing_model() == crate::backing::fresh_backing(crate::backing::track_views(favorites@)),
    {
        App {
            bpm: 120,
            is_playing: false,
            music: MusicState::new(),
            current_tab: AppTab::Groove,
            tuner: TunerState::new(input_devices),
            backing_tracks: BackingTracksState::new(favorites),
        }
    }

    pub fn bpm(&self) -> (b: u64)
        ensures
            b == self.bpm_value(),
    {
        self.bpm
    }

    pub fn is_playing(&self) -> (b: bool)
        ensures
            b == self.playing(),
    {
        self.is_playing
    }

    pub fn music(&self) -> (m: &MusicState)
        ensures
            *m == self.music_state(),
    {
        &self.music
    }

    pub fn tuner(&self) -> (t: &TunerState)
        ensures
            t@ == self.tuner_model(),
    {
        &self.tuner
    }

    pub fn backing_tracks(&self) -> (b: &BackingTracksState)
        ensures
            b@ == self.backing_model(),
    {
        &self.backing_tracks
    }

    pub fn genre(&self) -> (g: &'static str)
        requires
            self.wf(),
        ensures
            g@ == genre_label(self.music_state().genre_pos()),
    {
        self.music.genre()
    }

    pub fn root_pitch_label(&self) -> (s: String)
        requires
            self.wf(),
        ensures
            s@ == crate::music::pitch_symbol_chars(self.music_state().root()),
    {
        self.music.root_pitch_label()
    }

    pub fn chord_quality_label(&self) -> (s: &'static str)
        requires
            self.wf(),
        ensures
            s@ == crate::music::quality_label(self.music_state().quality()),
    {
        self.music.chord_quality_label()
    }

    pub fn chord_notes_label(&self) -> (s: String)
        requires
            self.wf(),
        ensures
            s@ == crate::text::join(
                crate::music::triad_spelling(
                    self.music_state().root_pos() as u8,
                    self.music_state().quality(),
                ),
                " "@,
            ),
    {
        self.music.chord_notes_label()
    }

    pub fn suggested_scales(&self) -> (lines: Vec<String>)
        requires
            self.wf(),
        ensures
            crate::text::string_views(lines@) == self.music_state().suggestions().filter_map(
                |s: (Seq<char>, ScaleMode)|
                    crate::music::scale_line(s, self.music_state().root_pos() as u8),
            ),
    {
        self.music.suggested_scales()
    }

    pub fn root_pitch_class(&self) -> (c: u8)
        requires
            self.wf(),
        ensures
            c == pitch_class_of(self.music_state().root()),
    {
        self.music.root_pitch_class()
    }

    pub fn first_suggested_scale_label(&self) -> (s: String)
        requires
            self.wf(),
        ensures
            s@ == self.music_state().suggestions()[0].0,
    {
        self.music.first_suggested_scale_label()
    }

    pub fn first_suggested_scale_pitch_classes(&self) -> (v: Vec<u8>)
        requires
            self.wf(),
        ensures
            v@ == match crate::music::scale_spelling(
                self.music_state().suggestions()[0].1,
                self.music_state().root_pos() as u8,
                crate::music::SCALE_OCTAVE,
            ) {
                Some(notes) => notes.map_values(|n: (Seq<char>, u8)| n.1),
                None => Seq::empty(),
            },
    {
        self.music.first_suggested_scale_pitch_classes()
    }

    pub fn current_tab(&self) -> (t: AppTab)
        ensures
            t == self.tab(),
    {
        self.current_tab
    }

    pub fn current_tab_index(&self) -> (i: usize)
        ensures
            i == tab_position(self.tab()),
    {
        match self.current_tab {
            AppTab::Groove => 0,
            AppTab::Tuner => 1,
            AppTab::Backing => 2,
        }
    }

    pub fn next_tab(&mut self)
        requires
            old(self).wf(),
        ensures
            final(self).wf(),
            final(self).tab() == tab_after(old(self).tab()),
            final(self).bpm_value() == old(self).bpm_value(),
            final(self).playing() == old(self).playing(),
            final(self).tuner_model() == old(self).tuner_model(),
            final(self).backing_model() == old(self).backing_model(),
            harmony(final(self).music_state()) == harmony(old(self).music_state()),
    {
        self.current_tab = match self.current_tab {
            AppTab::Groove => AppTab::Tuner,
            AppTab::Tuner => AppTab::Backing,
            AppTab::Backing => AppTab::Groove,
        };
    }

    /// Starts or stops the metronome; the beat clock restarts when it starts.
    pub fn toggle_play(&mut self) -> (update: MetronomeUpdate)
        requires
            old(self).wf(),
        ensures
            final(self).wf(),
            final(self).playing() == !old(self).playing(),
            update.command == AudioCommand::Toggle,
            update.restart_clock == final(self).playing(),
            final(self).bpm_value() == old(self).bpm_value(),
            final(self).tab() == old(self).tab(),
            final(self).tuner_model() == old(self).tuner_model(),
            final(self).backing_model() == old(self).backing_model(),
            harmony(final(self).music_state()) == harmony(old(self).music_state()),
    {
        self.is_playing = !self.is_playing;
        MetronomeUpdate { command: AudioCommand::Toggle, restart_clock: self.is_playing }
    }

    /// One beat per minute faster; the beat clock restarts when playing.
    pub fn increase_bpm(&mut self) -> (update: MetronomeUpdate)
        requires
            old(self).wf(),
            old(self).bpm_value() < u64::MAX,
        ensures
            final(self).wf(),
            final(self).bpm_value() == old(self).bpm_value() + 1,
            update.command == AudioCommand::SetBpm(final(self).bpm_value()),
            update.restart_clock == old(self).playing(),
            final(self).playing() == old(self).playing(),
            final(self).tab() == old(self).tab(),
            final(self).tuner_model() == old(self).tuner_model(),
            final(self).backing_model() == old(self).backing_model(),
            harmony(final(self).music_state()) == harmony(old(self).music_state()),
    {
        self.bpm = self.bpm + 1;
        MetronomeUpdate { command: AudioCommand::SetBpm(self.bpm), restart_clock: self.is_playing }
    }

    /// One beat per minute slower, never below one; nothing happens at one.
    pub fn decrease_bpm(&mut self) -> (update: Option<MetronomeUpdate>)
        requires
            old(self).wf(),
        ensures
            final(self).wf(),
            old(self).bpm_value() > 1 ==> final(self).bpm_value() == old(self).bpm_value() - 1,
            old(self).bpm_value() <= 1 ==> final(self).bpm_value() == old(self).bpm_value(),
            update is Some == (old(self).bpm_value() > 1),
            update matches Some(u) ==> u.command == AudioCommand::SetBpm(final(self).bpm_value())
                && u.restart_clock == old(self).playing(),
            final(self).playing() == old(self).playing(),
            final(self).tab() == old(self).tab(),
            final(self).tuner_model() == old(self).tuner_model(),
            final(self).backing_model() == old(self).backing_model(),
            harmony(final(self).music_state()) == harmony(old(self).music_state()),
    {
        if self.bpm > 1 {
            self.bpm = self.bpm - 1;
            Some(MetronomeUpdate { command: AudioCommand::SetBpm(self.bpm), restart_clock: self.is_playing })
        } else {
            None
        }
    }

    /// The command that ends the click thread.
    pub fn quit_audio(&self) -> (c: AudioCommand)
        ensures
            c == AudioCommand::Quit,
    {
        AudioCommand::Quit
    }

    pub fn next_root_pitch(&mut self)
        requires
            old(self).wf(),
        ensures
            final(self).wf(),
            final(self).same_but_harmony(old(self)),
            final(self).music_state().root_pos() == cycle_next(old(self).music_state().root_pos(), 12),
            final(self).music_state().genre_pos() == old(self).music_state().genre_pos(),
            final(self).music_state().quality_pos() == old(self).music_state().quality_pos(),
    {
        self.music.next_root_pitch();
    }

    pub fn prev_root_pitch(&mut self)
        requires
            old(self).wf(),
        ensures
            final(self).wf(),
            final(self).same_but_harmony(old(self)),
            final(self).music_state().root_pos() == cycle_prev(old(self).music_state().root_pos(), 12),
            final(self).music_state().genre_pos() == old(self).music_state().genre_pos(),
            final(self).music_state().quality_pos() == old(self).music_state().quality_pos(),
    {
        self.music.prev_root_pitch();
    }

    pub fn next_chord_quality(&mut self)
        requires
            old(self).wf(),
        ensures
            final(self).wf(),
            final(self).same_but_harmony(old(self)),
            final(self).music_state().quality_pos() == cycle_next(old(self).music_state().quality_pos(), 2),
            final(self).music_state().genre_pos() == old(self).music_state().genre_pos(),
            final(self).music_state().root_pos() == old(self).music_state().root_pos(),
    {
        self.music.next_chord_quality();
    }

    pub fn prev_chord_quality(&mut self)
        requires
            old(self).wf(),
        ensures
            final(self).wf(),
            final(self).same_but_harmony(old(self)),
            final(self).music_state().quality_pos() == cycle_prev(old(self).music_state().quality_pos(), 2),
            final(self).music_state().genre_pos() == old(self).music_state().genre_pos(),
            final(self).music_state().root_pos() == old(self).music_state().root_pos(),
    {
        self.music.prev_chord_quality();
    }

    /// Selects the minor (`true`) or the major chord quality.
    pub fn select_chord_quality(&mut self, minor: bool)
        requires
            old(self).wf(),
        ensures
            final(self).wf(),
            final(self).same_but_harmony(old(self)),
            final(self).music_state().quality() == if minor {
                TriadQuality::Minor
            } else {
                TriadQuality::Major
            },
            final(self).music_state().genre_pos() == old(self).music_state().genre_pos(),
            final(self).music_state().root_pos() == old(self).music_state().root_pos(),
    {
        let is_minor = match self.music.chord_quality() {
            TriadQuality::Minor => true,
            TriadQuality::Major => false,
        };
        if is_minor != minor {
            self.music.next_chord_quality();
        }
    }

    pub fn next_genre(&mut self)
        requires
            old(self).wf(),
        ensures
            final(self).wf(),
            final(self).same_but_harmony(old(self)),
            final(self).music_state().genre_pos() == cycle_next(old(self).music_state().genre_pos(), GENRE_COUNT as int),
            final(self).music_state().root_pos() == old(self).music_state().root_pos(),
            final(self).music_state().quality_pos() == old(self).music_state().quality_pos(),
    {
        self.music.next_genre();
    }

    pub fn prev_genre(&mut self)
        requires
            old(self).wf(),
        ensures
            final(self).wf(),
            final(self).same_but_harmony(old(self)),
            final(self).music_state().genre_pos() == cycle_prev(old(self).music_state().genre_pos(), GENRE_COUNT as int),
            final(self).music_state().root_pos() == old(self).music_state().root_pos(),
            final(self).music_state().quality_pos() == old(self).music_state().quality_pos(),
    {
        self.music.prev_genre();
    }

    pub fn tuner_mode(&self) -> (m: TuningMode)
        ensures
            m == self.tuner_model().mode,
    {
        self.tuner.tuning_mode()
    }

    pub fn toggle_tuner_capture(&mut self) -> (action: CaptureAction)
        requires
            old(self).wf(),
        ensures
            final(self).wf(),
            final(self).same_but_tuner(old(self)),
            old(self).tuner_model().capturing ==> final(self).tuner_model()
                == crate::tuner::capture_closed(old(self).tuner_model()) && action is Stop,
            !old(self).tuner_model().capturing ==> final(self).tuner_model()
                == crate::tuner::capture_opening(old(self).tuner_model()),
            !old(self).tuner_model().capturing ==> (action matches CaptureAction::Start(d)
                && crate::tuner::opt_names_agree(d, crate::tuner::chosen_device(old(self).tuner_model()))),
    {
        self.tuner.toggle_capture()
    }

    /// The capture is running at the given sample rate.
    pub fn tuner_capture_started(&mut self, sample_rate: u32)
        requires
            old(self).wf(),
        ensures
            final(self).wf(),
            final(self).same_but_tuner(old(self)),
            final(self).tuner_model() == (TunerModel {
                capturing: true,
                sample_rate,
                ..old(self).tuner_model()
            }),
    {
        self.tuner.capture_started(sample_rate);
    }

    /// The capture could not be opened; `reason` says why.
    pub fn tuner_capture_failed(&mut self, reason: &str)
        requires
            old(self).wf(),
        ensures
            final(self).wf(),
            final(self).same_but_tuner(old(self)),
            final(self).tuner_model() == (TunerModel {
                capturing: false,
                error: Some("Failed to start: "@ + reason@),
                ..old(self).tuner_model()
            }),
    {
        self.tuner.capture_failed(reason);
    }

    pub fn next_tuner_device(&mut self)
        requires
            old(self).wf(),
        ensures
            final(self).wf(),
            final(self).same_but_tuner(old(self)),
            final(self).tuner_model() == (TunerModel {
                device_index: if old(self).tuner_model().devices.len() > 0 {
                    ((old(self).tuner_model().device_index + 1) % old(self).tuner_model().devices.len()) as nat
                } else {
                    old(self).tuner_model().device_index
                },
                ..old(self).tuner_model()
            }),
    {
        self.tuner.next_device();
    }

    pub fn prev_tuner_device(&mut self)
        requires
            old(self).wf(),
        ensures
            final(self).wf(),
            final(self).same_but_tuner(old(self)),
            final(self).tuner_model() == (TunerModel {
                device_index: if old(self).tuner_model().devices.len() == 0 {
                    old(self).tuner_model().device_index
                } else if old(self).tuner_model().device_index == 0 {
                    (old(self).tuner_model().devices.len() - 1) as nat
                } else {
                    (old(self).tuner_model().device_index - 1) as nat
                },
                ..old(self).tuner_model()
            }),
    {
        self.tuner.prev_device();
    }

    pub fn increase_tuner_gain(&mut self) -> (action: CaptureAction)
        requires
            old(self).wf(),
        ensures
            final(self).wf(),
            final(self).same_but_tuner(old(self)),
            crate::tuner::gain_adjusted(old(self).tuner_model(), final(self).tuner_model(), action, true),
    {
        self.tuner.increase_input_gain()
    }

    pub fn decrease_tuner_gain(&mut self) -> (action: CaptureAction)
        requires
            old(self).wf(),
        ensures
            final(self).wf(),
            final(self).same_but_tuner(old(self)),
            crate::tuner::gain_adjusted(old(self).tuner_model(), final(self).tuner_model(), action, false),
    {
        self.tuner.decrease_input_gain()
    }

    pub fn toggle_tuner_mode(&mut self)
        requires
            old(self).wf(),
        ensures
            final(self).wf(),
            final(self).same_but_tuner(old(self)),
            final(self).tuner_model() == (TunerModel {
                mode: if old(self).tuner_model().mode == TuningMode::Auto {
                    TuningMode::Manual
                } else {
                    TuningMode::Auto
                },
                ..old(self).tuner_model()
            }),
    {
        self.tuner.toggle_tuning_mode();
    }

    pub fn next_tuner_string(&mut self)
        requires
            old(self).wf(),
        ensures
            final(self).wf(),
            final(self).same_but_tuner(old(self)),
            final(self).tuner_model() == (TunerModel {
                string_index: cycle_next(old(self).tuner_model().string_index as int, 6) as nat,
                ..old(self).tuner_model()
            }),
    {
        self.tuner.next_string();
    }

    pub fn prev_tuner_string(&mut self)
        requires
            old(self).wf(),
        ensures
            final(self).wf(),
            final(self).same_but_tuner(old(self)),
            final(self).tuner_model() == (TunerModel {
                string_index: cycle_prev(old(self).tuner_model().string_index as int, 6) as nat,
                ..old(self).tuner_model()
            }),
    {
        self.tuner.prev_string();
    }

    /// Starts typing a backing-track query.
    pub fn backing_begin_search_edit(&mut self)
        requires
            old(self).wf(),
        ensures
            final(self).wf(),
            final(self).same_but_backing(old(self)),
            final(self).backing_model() == editing_begun(old(self).backing_model()),
    {
        self.backing_tracks.begin_search_edit();
    }

    /// Types a character into the backing-track query.
    pub fn backing_push_query_char(&mut self, c: char)
        requires
            old(self).wf(),
        ensures
            final(self).wf(),
            final(self).same_but_backing(old(self)),
            final(self).backing_model() == char_typed(old(self).backing_model(), c),
    {
        self.backing_tracks.push_query_char(c);
    }

    /// Erases the last character of the backing-track query.
    pub fn backing_backspace_query(&mut self)
        requires
            old(self).wf(),
        ensures
            final(self).wf(),
            final(self).same_but_backing(old(self)),
            final(self).backing_model() == char_erased(old(self).backing_model()),
    {
        self.backing_tracks.backspace_query();
    }

    /// Stops typing the backing-track query.
    pub fn backing_cancel_query_edit(&mut self)
        requires
            old(self).wf(),
        ensures
            final(self).wf(),
            final(self).same_but_backing(old(self)),
            final(self).backing_model() == editing_cancelled(old(self).backing_model()),
    {
        self.backing_tracks.cancel_query_edit();
    }

    /// Takes in what a backing-track search produced.
    pub fn backing_search_finished(&mut self, outcome: Result<Vec<BackingTrack>, String>)
        requires
            old(self).wf(),
        ensures
            final(self).wf(),
            final(self).same_but_backing(old(self)),
            final(self).backing_model() == search_answered(old(self).backing_model(), outcome_view(outcome)),
    {
        self.backing_tracks.search_finished(outcome);
    }

    /// The backing-track search stopped without an answer.
    pub fn backing_search_lost(&mut self)
        requires
            old(self).wf(),
        ensures
            final(self).wf(),
            final(self).same_but_backing(old(self)),
            final(self).backing_model() == search_lost(old(self).backing_model()),
    {
        self.backing_tracks.search_worker_lost();
    }

    /// Selects the next track of the list on show.
    pub fn backing_next_result(&mut self)
        requires
            old(self).wf(),
        ensures
            final(self).wf(),
            final(self).same_but_backing(old(self)),
            final(self).backing_model() == moved_next(old(self).backing_model()),
    {
        self.backing_tracks.next_result();
    }

    /// Selects the previous track of the list on show.
    pub fn backing_prev_result(&mut self)
        requires
            old(self).wf(),
        ensures
            final(self).wf(),
            final(self).same_but_backing(old(self)),
            final(self).backing_model() == moved_prev(old(self).backing_model()),
    {
        self.backing_tracks.prev_result();
    }

    /// Stops the backing track.
    pub fn backing_stop(&mut self)
        requires
            old(self).wf(),
        ensures
            final(self).wf(),
            final(self).same_but_backing(old(self)),
            final(self).backing_model() == stopped(old(self).backing_model()),
    {
        self.backing_tracks.stop();
    }

    /// The player answered a pause or resume request.
    pub fn backing_pause_finished(&mut self, paused: bool, outcome: Result<(), String>)
        requires
            old(self).wf(),
        ensures
            final(self).wf(),
            final(self).same_but_backing(old(self)),
            final(self).backing_model() == pause_answered(old(self).backing_model(), paused, unit_outcome_view(outcome)),
    {
        self.backing_tracks.pause_finished(paused, outcome);
    }

    /// The player could not be started.
    pub fn backing_playback_failed(&mut self, reason: &str)
        requires
            old(self).wf(),
        ensures
            final(self).wf(),
            final(self).same_but_backing(old(self)),
            final(self).backing_model() == start_failed(old(self).backing_model(), reason@),
    {
        self.backing_tracks.playback_failed(reason);
    }

    /// The player ended by itself.
    pub fn backing_player_exited(&mut self, success: bool, status: &str)
        requires
            old(self).wf(),
        ensures
            final(self).wf(),
            final(self).same_but_backing(old(self)),
            final(self).backing_model() == exited(old(self).backing_model(), success, status@),
    {
        self.backing_tracks.player_exited(success, status);
    }

    /// The player could not be watched any more.
    pub fn backing_player_lost(&mut self, error: &str)
        requires
            old(self).wf(),
        ensures
            final(self).wf(),
            final(self).same_but_backing(old(self)),
            final(self).backing_model() == lost(old(self).backing_model(), error@),
    {
        self.backing_tracks.player_lost(error);
    }

    /// The player reported whether it is paused.
    pub fn backing_pause_observed(&mut self, paused: bool)
        requires
            old(self).wf(),
        ensures
            final(self).wf(),
            final(self).same_but_backing(old(self)),
            final(self).backing_model() == pause_seen(old(self).backing_model(), paused),
    {
        self.backing_tracks.pause_observed(paused);
    }

    /// Saving the favourites failed.
    pub fn backing_favorites_save_failed(&mut self, error: &str)
        requires
            old(self).wf(),
        ensures
            final(self).wf(),
            final(self).same_but_backing(old(self)),
            final(self).backing_model() == save_failed(old(self).backing_model(), error@),
    {
        self.backing_tracks.favorites_save_failed(error);
    }

    /// Switches between the search results and the favourites.
    pub fn backing_toggle_library_view(&mut self)
        requires
            old(self).wf(),
        ensures
            final(self).wf(),
            final(self).same_but_backing(old(self)),
            final(self).backing_model() == view_toggled(old(self).backing_model()),
    {
        self.backing_tracks.toggle_library_view();
    }

    /// Asks for a search of the backing-track query; returns the text to search for.
    pub fn backing_submit_search(&mut self) -> (search: Option<String>)
        requires
            old(self).wf(),
        ensures
            final(self).wf(),
            final(self).same_but_backing(old(self)),
            final(self).backing_model() == search_submitted(old(self).backing_model()),
            search is Some == (trim_ws(old(self).backing_model().query).len() > 0),
            search matches Some(q) ==> q@ == trim_ws(old(self).backing_model().query),
    {
        self.backing_tracks.submit_search()
    }

    /// Adds the selected track to the favourites or removes it; returns whether
    /// the favourites are to be saved.
    pub fn backing_toggle_favorite(&mut self) -> (changed: bool)
        requires
            old(self).wf(),
        ensures
            final(self).wf(),
            final(self).same_but_backing(old(self)),
            final(self).backing_model() == favorite_requested(old(self).backing_model()),
            changed == crate::backing::selected(old(self).backing_model()) is Some,
    {
        self.backing_tracks.toggle_favorite()
    }

    /// Toggles the selected backing track. Unless a new track is to be started,
    /// the harmony follows what the playing track's text suggests, if one plays.
    pub fn backing_toggle_selected(&mut self) -> (action: PlaybackAction)
        requires
            old(self).wf(),
        ensures
            final(self).wf(),
            final(self).backing_model() == toggled(old(self).backing_model()).0,
            match action {
                PlaybackAction::Nothing => toggled(old(self).backing_model()).1 is None
                    && toggled(old(self).backing_model()).2 is None,
                PlaybackAction::SetPause(p) => toggled(old(self).backing_model()).2 == Some(p),
                PlaybackAction::Start(t) => toggled(old(self).backing_model()).1 == Some(t@),
            },
            final(self).bpm_value() == old(self).bpm_value(),
            final(self).playing() == old(self).playing(),
            final(self).tab() == old(self).tab(),
            final(self).tuner_model() == old(self).tuner_model(),
            harmony(final(self).music_state()) == match final(self).backing_model().now_playing {
                Some(t) => harmony_after_track(old(self).music_state(), t),
                None => harmony(old(self).music_state()),
            },
    {
        let action = self.backing_tracks.toggle_selected();
        self.apply_now_playing_context();
        action
    }

    /// A backing track started playing; the harmony follows what its text suggests.
    pub fn backing_playback_started(&mut self, track: BackingTrack)
        requires
            old(self).wf(),
        ensures
            final(self).wf(),
            final(self).backing_model() == (BackingModel {
                now_playing: Some(track@),
                player: crate::backing::PlayerStatus::Playing,
                ..old(self).backing_model()
            }),
            final(self).bpm_value() == old(self).bpm_value(),
            final(self).playing() == old(self).playing(),
            final(self).tab() == old(self).tab(),
            final(self).tuner_model() == old(self).tuner_model(),
            harmony(final(self).music_state()) == harmony_after_track(
                old(self).music_state(),
                track@,
            ),
            inferred_root(search_text_of(track@)) matches Some(p) ==> final(self).music_state().root() == p,
            inferred_quality(search_text_of(track@)) == Some("Minor"@) ==> final(self).music_state().quality() == TriadQuality::Minor,
            inferred_quality(search_text_of(track@)) == Some("Major"@) ==> final(self).music_state().quality() == TriadQuality::Major,
            inferred_genre(search_text_of(track@)) matches Some(g) ==> genre_label(
                final(self).music_state().genre_pos(),
            ) == g,
    {
        self.backing_tracks.playback_started(track);
        self.apply_now_playing_context();
        proof {
            let text = search_text_of(track@);
            if let Some(p) = inferred_root(text) {
                crate::laws::law_inferred_root_is_recognized(p);
            }
            crate::laws::law_inferred_quality_is_recognized();
            lemma_inferred_genre_names(text);
            if let Some(g) = inferred_genre(text) {
                let i = choose|i: int| 0 <= i < 5 && genre_label(i) == g;
                crate::laws::law_inferred_genre_is_recognized(i);
            }
        }
    }

    fn apply_now_playing_context(&mut self)
        requires
            old(self).wf(),
        ensures
            final(self).wf(),
            final(self).backing_model() == old(self).backing_model(),
            final(self).bpm_value() == old(self).bpm_value(),
            final(self).playing() == old(self).playing(),
            final(self).tab() == old(self).tab(),
            final(self).tuner_model() == old(self).tuner_model(),
            harmony(final(self).music_state()) == match old(self).backing_model().now_playing {
                Some(t) => harmony_after_track(old(self).music_state(), t),
                None => harmony(old(self).music_state()),
            },
    {
        if let Some(context) = self.backing_tracks.now_playing_context() {
            let root = match &context.root {
                Some(r) => Some(r.as_str()),
                None => None,
            };
            let quality = match &context.quality {
                Some(q) => Some(q.as_str()),
                None => None,
            };
            let genre = match &context.genre {
                Some(g) => Some(g.as_str()),
                None => None,
            };
            self.music.set_context(root, quality, genre);
        }
    }
}

/// Each genre name the inference can report is the name of a genre.
proof fn lemma_inferred_genre_names(text: Seq<char>)
    ensures
        inferred_genre(text) matches Some(g) ==> exists|i: int|
            0 <= i < 5 && genre_label(i) == g,
{
    if let Some(g) = inferred_genre(text) {
        assert(genre_label(0) == "Blues"@);
        assert(genre_label(1) == "Rock"@);
        assert(genre_label(2) == "Jazz"@);
        assert(genre_label(3) == "Metal"@);
        assert(genre_label(4) == "Funk"@);
    }
}

} // verus!
