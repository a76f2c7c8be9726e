//! Backing tracks: the tracks that a search finds, the favourites, the query
//! being typed, and the decisions of the player. Running the search tool and
//! the player, and the files, are left to the caller: the state here says what
//! to do and is told what happened.
use vstd::prelude::*;

use crate::inference::{infer_genre, infer_quality, infer_root};
use crate::text::{
    decimal, decimal2, is_control_char, owned, pop_char, push_char, push_decimal, push_decimal2,
    starts_with_str, trim_whitespace, trim_ws, chars_of, string_from_chars,
};

verus! {

/// A track as plain values.
pub struct TrackView {
    pub title: Seq<char>,
    pub channel: Option<Seq<char>>,
    pub duration_seconds: Option<u64>,
    pub url: Seq<char>,
    pub source_query: Option<Seq<char>>,
}

pub open spec fn opt_view(o: Option<String>) -> Option<Seq<char>> {
    match o {
        Some(s) => Some(s@),
        None => None,
    }
}

/// A track found by a search or kept as a favourite.
pub struct BackingTrack {
    title: String,
    channel: Option<String>,
    duration_seconds: Option<u64>,
    url: String,
    source_query: Option<String>,
}

impl View for BackingTrack {
    type V = TrackView;

    closed spec fn view(&self) -> TrackView {
        TrackView {
            title: self.title@,
            channel: opt_view(self.channel),
            duration_seconds: self.duration_seconds,
            url: self.url@,
            source_query: opt_view(self.source_query),
        }
    }
}

fn copy_opt_string(o: &Option<String>) -> (r: Option<String>)
    ensures
        opt_view(r) == opt_view(*o),
{
    match o {
        Some(s) => Some(s.clone()),
        None => None,
    }
}

/// `m:ss`: whole minutes, then the seconds padded to two digits.
pub open spec fn minutes_label(seconds: nat) -> Seq<char> {
    decimal(seconds / 60) + ":"@ + decimal2(seconds % 60)
}

/// `h:mm:ss` when there is at least an hour, `m:ss` otherwise.
pub open spec fn clock_label(seconds: nat) -> Seq<char> {
    let hours = seconds / 3600;
    let minutes = (seconds % 3600) / 60;
    if hours > 0 {
        decimal(hours) + ":"@ + decimal2(minutes) + ":"@ + decimal2(seconds % 60)
    } else {
        decimal(minutes) + ":"@ + decimal2(seconds % 60)
    }
}

/// The text that the key, quality and genre of a track are inferred from: the
/// title, followed by a space and the search that found it when that search is
/// not blank.
pub open spec fn search_text_of(t: TrackView) -> Seq<char> {
    match t.source_query {
        Some(q) if trim_ws(q).len() > 0 => t.title + " "@ + q,
        _ => t.title,
    }
}

impl BackingTrack {
    pub fn new(
        title: String,
        channel: Option<String>,
        duration_seconds: Option<u64>,
        url: String,
        source_query: Option<String>,
    ) -> (t: Self)
        ensures
            t@.title == title@,
            t@.channel == opt_view(channel),
            t@.duration_seconds == duration_seconds,
            t@.url == url@,
            t@.source_query == opt_view(source_query),
    {
        BackingTrack { title, channel, duration_seconds, url, source_query }
    }

    /// A copy with the same fields.
    pub fn duplicate(&self) -> (t: Self)
        ensures
            t@ == self@,
    {
        BackingTrack {
            title: self.title.clone(),
            channel: copy_opt_string(&self.channel),
            duration_seconds: self.duration_seconds,
            url: self.url.clone(),
            source_query: copy_opt_string(&self.source_query),
        }
    }

    pub fn title(&self) -> (s: &str)
        ensures
            s@ == self@.title,
    {
        self.title.as_str()
    }

    pub fn channel(&self) -> (s: Option<&str>)
        ensures
            s is Some == self@.channel is Some,
            s matches Some(c) ==> c@ == self@.channel->0,
    {
        match &self.channel {
            Some(c) => Some(c.as_str()),
            None => None,
        }
    }

    pub fn duration_seconds(&self) -> (d: Option<u64>)
        ensures
            d == self@.duration_seconds,
    {
        self.duration_seconds
    }

    pub fn url(&self) -> (s: &str)
        ensures
            s@ == self@.url,
    {
        self.url.as_str()
    }

    pub fn source_query(&self) -> (s: Option<&str>)
        ensures
            s is Some == self@.source_query is Some,
            s matches Some(q) ==> q@ == self@.source_query->0,
    {
        match &self.source_query {
            Some(q) => Some(q.as_str()),
            None => None,
        }
    }

    /// The length as `m:ss`, when it is known.
    pub fn duration_label(&self) -> (s: Option<String>)
        ensures
            s is Some == self@.duration_seconds is Some,
            s matches Some(l) ==> l@ == minutes_label(self@.duration_seconds->0 as nat),
    {
        match self.duration_seconds {
            Some(seconds) => {
                let mut label = String::new();
                push_decimal(&mut label, seconds / 60);
                label.append(":");
                push_decimal2(&mut label, seconds % 60);
                Some(label)
            },
            None => None,
        }
    }

    /// The text that the track's key, quality and genre are inferred from.
    pub fn search_text(&self) -> (s: String)
        ensures
            s@ == search_text_of(self@),
    {
        match &self.source_query {
            Some(query) => {
                let trimmed = trim_whitespace(&chars_of(query.as_str()));
                if trimmed.len() > 0 {
                    let mut s = self.title.clone();
                    s.append(" ");
                    s.append(query.as_str());
                    s
                } else {
                    self.title.clone()
                }
            },
            None => self.title.clone(),
        }
    }
}

/// Renders a whole number of seconds as `h:mm:ss`, or `m:ss` under an hour.
pub fn format_whole_seconds(seconds: u64) -> (s: String)
    ensures
        s@ == clock_label(seconds as nat),
{
    let hours = seconds / 3600;
    let minutes = (seconds % 3600) / 60;
    let mut s = String::new();
    if hours > 0 {
        push_decimal(&mut s, hours);
        s.append(":");
        push_decimal2(&mut s, minutes);
    } else {
        push_decimal(&mut s, minutes);
    }
    s.append(":");
    push_decimal2(&mut s, seconds % 60);
    s
}

/// A link to the track: kept as it is when it is already an `http://` or
/// `https://` address, else read as a YouTube video id.
pub open spec fn watch_url(value: Seq<char>) -> Seq<char> {
    if "http://"@.is_prefix_of(value) || "https://"@.is_prefix_of(value) {
        value
    } else {
        "https://www.youtube.com/watch?v="@ + value
    }
}

pub fn youtube_watch_url(value: &str) -> (s: String)
    ensures
        s@ == watch_url(value@),
{
    let v = chars_of(value);
    if starts_with_str(&v, "http://") || starts_with_str(&v, "https://") {
        owned(value)
    } else {
        let mut s = owned("https://www.youtube.com/watch?v=");
        s.append(value);
        s
    }
}

// ---------------------------------------------------------------------------
// Search results
// ---------------------------------------------------------------------------

/// One entry of the search tool's listing, as the fields it may carry; the
/// length is already rounded to whole seconds.
pub struct SearchEntry {
    pub id: Option<String>,
    pub title: Option<String>,
    pub channel: Option<String>,
    pub uploader: Option<String>,
    pub duration_seconds: Option<u64>,
    pub webpage_url: Option<String>,
    pub url: Option<String>,
}

pub open spec fn first_some(a: Option<String>, b: Option<String>) -> Option<Seq<char>> {
    match a {
        Some(s) => Some(s@),
        None => opt_view(b),
    }
}

/// The track an entry describes: it needs a title and an address (the page
/// address, else the address, else the id); the channel falls back to the uploader.
pub open spec fn entry_track(e: SearchEntry, query: Seq<char>) -> Option<TrackView> {
    match (e.title, first_some(e.webpage_url, e.url)) {
        (None, _) => None,
        (Some(title), Some(address)) => Some(
            TrackView {
                title: title@,
                channel: first_some(e.channel, e.uploader),
                duration_seconds: e.duration_seconds,
                url: watch_url(address),
                source_query: Some(query),
            },
        ),
        (Some(title), None) => match e.id {
            Some(id) => Some(
                TrackView {
                    title: title@,
                    channel: first_some(e.channel, e.uploader),
                    duration_seconds: e.duration_seconds,
                    url: watch_url(id@),
                    source_query: Some(query),
                },
            ),
            None => None,
        },
    }
}

fn or_string(a: Option<String>, b: Option<String>) -> (r: Option<String>)
    ensures
        opt_view(r) == first_some(a, b),
{
    match a {
        Some(s) => Some(s),
        None => b,
    }
}

/// The track an entry describes, if it has what a track needs.
pub fn track_from_entry(entry: SearchEntry, query: &str) -> (t: Option<BackingTrack>)
    ensures
        t is Some == entry_track(entry, query@) is Some,
        t matches Some(t) ==> t@ == entry_track(entry, query@)->0,
{
    let ghost e = entry;
    let SearchEntry { id, title, channel, uploader, duration_seconds, webpage_url, url } = entry;
    let title = match title {
        Some(t) => t,
        None => return None,
    };
    let address = match or_string(webpage_url, url) {
        Some(a) => a,
        None => match id {
            Some(i) => i,
            None => return None,
        },
    };
    Some(
        BackingTrack {
            title,
            channel: or_string(channel, uploader),
            duration_seconds,
            url: youtube_watch_url(address.as_str()),
            source_query: Some(owned(query)),
        },
    )
}

/// What a failed search says: the search tool's error output without its
/// surrounding whitespace, or, when that is blank, its exit status.
pub open spec fn search_failure(stderr: Seq<char>, status: Seq<char>) -> Seq<char> {
    if trim_ws(stderr).len() > 0 {
        trim_ws(stderr)
    } else {
        "yt-dlp exited with "@ + status + "."@
    }
}

/// The message of a search that the search tool ended with a failure status.
pub fn search_failure_message(stderr: &str, status: &str) -> (s: String)
    ensures
        s@ == search_failure(stderr@, status@),
{
    let trimmed = trim_whitespace(&chars_of(stderr));
    if trimmed.len() > 0 {
        string_from_chars(&trimmed)
    } else {
        let mut s = owned("yt-dlp exited with ");
        s.append(status);
        s.append(".");
        s
    }
}

pub open spec fn track_views(v: Seq<BackingTrack>) -> Seq<TrackView> {
    v.map_values(|t: BackingTrack| t@)
}

/// The tracks of a search listing, in order, skipping the entries that lack a
/// title or an address.
pub fn tracks_from_entries(entries: Vec<SearchEntry>, query: &str) -> (tracks: Vec<BackingTrack>)
    ensures
        track_views(tracks@) == entries@.filter_map(|e: SearchEntry| entry_track(e, query@)),
{
    let ghost all = entries@;
    let ghost f = |e: SearchEntry| entry_track(e, query@);
    let mut tracks: Vec<BackingTrack> = Vec::new();
    for entry in it: entries.into_iter()
        invariant
            it.seq() == all,
            f == (|e: SearchEntry| entry_track(e, query@)),
            track_views(tracks@) == all.take(it.index() as int).filter_map(f),
    {
        let ghost done = it.index() as int;
        proof {
            assert(all.take(done + 1).drop_last() =~= all.take(done));
        }
        match track_from_entry(entry, query) {
            Some(t) => {
                let ghost before = tracks@;
                tracks.push(t);
                assert(track_views(tracks@) =~= track_views(before) + seq![t@]);
            },
            None => {},
        }
    }
    assert(all.take(all.len() as int) =~= all);
    tracks
}

// ---------------------------------------------------------------------------
// Inferred context
// ---------------------------------------------------------------------------

/// What a track's text suggests: a root name, a chord quality and a genre.
pub struct BackingTrackContext {
    pub root: Option<String>,
    pub quality: Option<String>,
    pub genre: Option<String>,
}

/// The context inferred from a track.
pub fn infer_track_context(track: &BackingTrack) -> (c: BackingTrackContext)
    ensures
        c.root is Some == crate::inference::inferred_root(search_text_of(track@)) is Some,
        c.root matches Some(r) ==> r@ == crate::inference::root_name(
            crate::inference::inferred_root(search_text_of(track@))->0,
        ),
        opt_view(c.quality) == crate::inference::inferred_quality(search_text_of(track@)),
        opt_view(c.genre) == crate::inference::inferred_genre(search_text_of(track@)),
{
    let text = track.search_text();
    BackingTrackContext {
        root: infer_root(text.as_str()),
        quality: infer_quality(text.as_str()),
        genre: infer_genre(text.as_str()),
    }
}

// ---------------------------------------------------------------------------
// The backing-track state
// ---------------------------------------------------------------------------

/// Where the last search stands.
pub enum BackingSearchState {
    Idle,
    Searching,
    Ready,
    Failed(String),
}

/// Where the player stands.
pub enum BackingPlayerState {
    Stopped,
    Playing,
    Paused,
    Failed(String),
}

/// Which list is shown: the search results or the favourites.
#[derive(Clone, Copy, Debug, PartialEq, Eq, Structural)]
pub enum BackingLibraryView {
    SearchResults,
    Favorites,
}

pub enum SearchStatus {
    Idle,
    Searching,
    Ready,
    Failed(Seq<char>),
}

pub enum PlayerStatus {
    Stopped,
    Playing,
    Paused,
    Failed(Seq<char>),
}

impl View for BackingSearchState {
    type V = SearchStatus;

    open spec fn view(&self) -> SearchStatus {
        match self {
            BackingSearchState::Idle => SearchStatus::Idle,
            BackingSearchState::Searching => SearchStatus::Searching,
            BackingSearchState::Ready => SearchStatus::Ready,
            BackingSearchState::Failed(m) => SearchStatus::Failed(m@),
        }
    }
}

impl View for BackingPlayerState {
    type V = PlayerStatus;

    open spec fn view(&self) -> PlayerStatus {
        match self {
            BackingPlayerState::Stopped => PlayerStatus::Stopped,
            BackingPlayerState::Playing => PlayerStatus::Playing,
            BackingPlayerState::Paused => PlayerStatus::Paused,
            BackingPlayerState::Failed(m) => PlayerStatus::Failed(m@),
        }
    }
}

/// What the player should do after the selected track was toggled.
pub enum PlaybackAction {
    /// Nothing to run.
    Nothing,
    /// Pause (`true`) or resume (`false`) the running player.
    SetPause(bool),
    /// Stop whatever plays and start this track.
    Start(BackingTrack),
}

/// The backing-track state as plain values.
pub struct BackingModel {
    pub query: Seq<char>,
    pub editing_query: bool,
    pub selected_index: nat,
    pub results: Seq<TrackView>,
    pub favorites: Seq<TrackView>,
    pub search: SearchStatus,
    pub player: PlayerStatus,
    pub now_playing: Option<TrackView>,
    pub library_view: BackingLibraryView,
    pub message: Option<Seq<char>>,
}

/// The list on show.
pub open spec fn shown(m: BackingModel) -> Seq<TrackView> {
    if m.library_view == BackingLibraryView::SearchResults {
        m.results
    } else {
        m.favorites
    }
}

/// The selected track of the list on show, if the selection points at one.
pub open spec fn selected(m: BackingModel) -> Option<TrackView> {
    if m.selected_index < shown(m).len() {
        Some(shown(m)[m.selected_index as int])
    } else {
        None
    }
}

/// A track with this address is among the favourites.
pub open spec fn has_url(favorites: Seq<TrackView>, url: Seq<char>) -> bool {
    exists|i: int| 0 <= i < favorites.len() && (#[trigger] favorites[i]).url == url
}

/// The first favourite, from position `i` on, with this address.
pub open spec fn url_position_from(favorites: Seq<TrackView>, url: Seq<char>, i: int) -> Option<int>
    decreases favorites.len() - i,
{
    if i < 0 || i >= favorites.len() {
        None
    } else if favorites[i].url == url {
        Some(i)
    } else {
        url_position_from(favorites, url, i + 1)
    }
}

pub proof fn lemma_url_position(favorites: Seq<TrackView>, url: Seq<char>, i: int)
    ensures
        url_position_from(favorites, url, i) matches Some(k) ==> 0 <= k < favorites.len()
            && favorites[k].url == url && (i >= 0 ==> i <= k),
        url_position_from(favorites, url, i) is None ==> forall|k: int|
            0 <= i <= k < favorites.len() ==> (#[trigger] favorites[k]).url != url,
    decreases favorites.len() - i,
{
    if 0 <= i < favorites.len() {
        lemma_url_position(favorites, url, i + 1);
    }
}

/// The state right after `stop`: nothing playing.
pub open spec fn stopped(m: BackingModel) -> BackingModel {
    BackingModel { now_playing: None, player: PlayerStatus::Stopped, ..m }
}

/// The state and the request for the player after the selection was toggled.
pub open spec fn toggled(m: BackingModel) -> (BackingModel, Option<TrackView>, Option<bool>) {
    match selected(m) {
        None => (
            BackingModel { player: PlayerStatus::Failed("Search and select a track first."@), ..m },
            None,
            None,
        ),
        Some(t) => match m.now_playing {
            Some(p) if p.url == t.url => (m, None, Some(m.player == PlayerStatus::Playing)),
            _ => (stopped(m), Some(t), None),
        },
    }
}

/// The state after the selected track was added to or removed from the favourites.
pub open spec fn favorite_toggled(m: BackingModel, t: TrackView) -> BackingModel {
    match url_position_from(m.favorites, t.url, 0) {
        Some(i) => {
            let favorites = m.favorites.remove(i);
            let selected_index = if m.library_view == BackingLibraryView::Favorites
                && m.selected_index >= favorites.len() {
                if favorites.len() > 0 {
                    (favorites.len() - 1) as nat
                } else {
                    0
                }
            } else {
                m.selected_index
            };
            BackingModel {
                favorites,
                selected_index,
                message: Some("Removed favorite: "@ + m.favorites[i].title),
                ..m
            }
        },
        None => BackingModel {
            favorites: m.favorites.push(t),
            message: Some("Favorited: "@ + t.title),
            ..m
        },
    }
}

/// The state once typing a query has begun: the search results are shown.
pub open spec fn editing_begun(m: BackingModel) -> BackingModel {
    BackingModel {
        editing_query: true,
        library_view: BackingLibraryView::SearchResults,
        ..m
    }
}

/// The state after a typed character: added to the query while it is edited, unless it is a control character.
pub open spec fn char_typed(m: BackingModel, c: char) -> BackingModel {
    BackingModel {
        query: if m.editing_query && !crate::text::is_control(c) {
            m.query.push(c)
        } else {
            m.query
        },
        ..m
    }
}

/// The state after a backspace: the query loses its last character while it is edited.
pub open spec fn char_erased(m: BackingModel) -> BackingModel {
    BackingModel {
        query: if m.editing_query && m.query.len() > 0 {
            m.query.drop_last()
        } else {
            m.query
        },
        ..m
    }
}

/// The state once typing stopped; the query is kept.
pub open spec fn editing_cancelled(m: BackingModel) -> BackingModel {
    BackingModel { editing_query: false, ..m }
}

/// The state once the search stopped without an answer.
pub open spec fn search_lost(m: BackingModel) -> BackingModel {
    BackingModel {
        search: SearchStatus::Failed("Search worker stopped unexpectedly."@),
        ..m
    }
}

/// The selection one step forward through the list on show, wrapping at the end.
pub open spec fn moved_next(m: BackingModel) -> BackingModel {
    BackingModel {
        selected_index: if shown(m).len() > 0 {
            ((m.selected_index + 1) % shown(m).len()) as nat
        } else {
            m.selected_index
        },
        ..m
    }
}

/// The selection one step back through the list on show, wrapping at the start.
pub open spec fn moved_prev(m: BackingModel) -> BackingModel {
    BackingModel {
        selected_index: if shown(m).len() == 0 {
            m.selected_index
        } else if m.selected_index == 0 {
            (shown(m).len() - 1) as nat
        } else {
            (m.selected_index - 1) as nat
        },
        ..m
    }
}

/// The state once the player started on a track.
pub open spec fn started(m: BackingModel, track: TrackView) -> BackingModel {
    BackingModel {
        now_playing: Some(track),
        player: PlayerStatus::Playing,
        ..m
    }
}

/// The state once the player could not be started.
pub open spec fn start_failed(m: BackingModel, reason: Seq<char>) -> BackingModel {
    BackingModel {
        player: PlayerStatus::Failed(
            "Could not start mpv: "@ + reason + ". Install mpv to play audio."@,
        ),
        ..m
    }
}

/// The state once the player ended by itself.
pub open spec fn exited(m: BackingModel, success: bool, status: Seq<char>) -> BackingModel {
    BackingModel {
        now_playing: None,
        player: if success {
            PlayerStatus::Stopped
        } else {
            PlayerStatus::Failed("Player exited with "@ + status + "."@)
        },
        ..m
    }
}

/// The state once the player could not be watched any more.
pub open spec fn lost(m: BackingModel, error: Seq<char>) -> BackingModel {
    BackingModel {
        now_playing: None,
        player: PlayerStatus::Failed("Player error: "@ + error),
        ..m
    }
}

/// The state once the player reported whether it is paused.
pub open spec fn pause_seen(m: BackingModel, paused: bool) -> BackingModel {
    BackingModel {
        player: if paused {
            PlayerStatus::Paused
        } else {
            PlayerStatus::Playing
        },
        ..m
    }
}

/// The state once saving the favourites failed.
pub open spec fn save_failed(m: BackingModel, error: Seq<char>) -> BackingModel {
    BackingModel {
        message: Some("Could not save favorites: "@ + error),
        ..m
    }
}

/// The other list on show, the selection at the top, no message.
pub open spec fn view_toggled(m: BackingModel) -> BackingModel {
    BackingModel {
        library_view: if m.library_view == BackingLibraryView::SearchResults {
            BackingLibraryView::Favorites
        } else {
            BackingLibraryView::SearchResults
        },
        selected_index: 0,
        message: None,
        ..m
    }
}

/// The state after a search was asked for: a blank query fails at once,
/// otherwise the search is under way.
pub open spec fn search_submitted(m: BackingModel) -> BackingModel {
    if trim_ws(m.query).len() == 0 {
        BackingModel { search: SearchStatus::Failed("Type something to search first."@), ..m }
    } else {
        BackingModel {
            search: SearchStatus::Searching,
            editing_query: false,
            library_view: BackingLibraryView::SearchResults,
            message: None,
            ..m
        }
    }
}

/// A search outcome as plain values.
pub open spec fn outcome_view(outcome: Result<Vec<BackingTrack>, String>) -> Result<
    Seq<TrackView>,
    Seq<char>,
> {
    match outcome {
        Ok(found) => Ok(track_views(found@)),
        Err(m) => Err(m@),
    }
}

/// The state once a search answered: the found tracks, selected from the top,
/// or no results and the reason it failed.
pub open spec fn search_answered(m: BackingModel, outcome: Result<Seq<TrackView>, Seq<char>>) -> BackingModel {
    match outcome {
        Ok(found) => BackingModel {
            results: found,
            selected_index: 0,
            search: SearchStatus::Ready,
            message: None,
            ..m
        },
        Err(reason) => BackingModel {
            results: Seq::empty(),
            selected_index: 0,
            search: SearchStatus::Failed(reason),
            ..m
        },
    }
}

/// A pause outcome as plain values.
pub open spec fn unit_outcome_view(outcome: Result<(), String>) -> Result<(), Seq<char>> {
    match outcome {
        Ok(()) => Ok(()),
        Err(m) => Err(m@),
    }
}

/// The state once the player answered a pause (`true`) or resume request.
pub open spec fn pause_answered(m: BackingModel, paused: bool, outcome: Result<(), Seq<char>>) -> BackingModel {
    BackingModel {
        player: match outcome {
            Ok(()) => if paused {
                PlayerStatus::Paused
            } else {
                PlayerStatus::Playing
            },
            Err(reason) => PlayerStatus::Failed(reason),
        },
        ..m
    }
}

/// The state after asking to favourite the selection: nothing selected leaves
/// a message, otherwise the selected track is added or removed.
pub open spec fn favorite_requested(m: BackingModel) -> BackingModel {
    match selected(m) {
        None => BackingModel { message: Some("Select a track before favoriting."@), ..m },
        Some(t) => favorite_toggled(m, t),
    }
}

/// A new backing-track state: nothing typed, found or playing; the given favourites.
pub open spec fn fresh_backing(favorites: Seq<TrackView>) -> BackingModel {
    BackingModel {
        query: Seq::empty(),
        editing_query: false,
        selected_index: 0,
        results: Seq::empty(),
        favorites,
        search: SearchStatus::Idle,
        player: PlayerStatus::Stopped,
        now_playing: None,
        library_view: BackingLibraryView::SearchResults,
        message: None,
    }
}

/// The backing-track tab: query, results, favourites, selection and player status.
pub struct BackingTracksState {
    query: String,
    editing_query: bool,
    selected_index: usize,
    results: Vec<BackingTrack>,
    search_state: BackingSearchState,
    player_state: BackingPlayerState,
    now_playing: Option<BackingTrack>,
    favorites: Vec<BackingTrack>,
    library_view: BackingLibraryView,
    message: Option<String>,
}

pub open spec fn opt_track_view(t: Option<BackingTrack>) -> Option<TrackView> {
    match t {
        Some(t) => Some(t@),
        None => None,
    }
}

impl View for BackingTracksState {
    type V = BackingModel;

    closed spec fn view(&self) -> BackingModel {
        BackingModel {
            query: self.query@,
            editing_query: self.editing_query,
            selected_index: self.selected_index as nat,
            results: track_views(self.results@),
            favorites: track_views(self.favorites@),
            search: self.search_state@,
            player: self.player_state@,
            now_playing: opt_track_view(self.now_playing),
            library_view: self.library_view,
            message: opt_view(self.message),
        }
    }
}

/// The message shown when pausing or resuming failed.
pub open spec fn pause_failure_message() -> Seq<char> {
    "Could not update mpv playback state."@
}

/// What the player's reply to a pause request means: an `error` field other than
/// `success` is a failure.
pub fn pause_reply_result(error: Option<&str>) -> (r: Result<(), String>)
    ensures
        r is Err == (error matches Some(e) && e@ != "success"@),
        r matches Err(m) ==> m@ == pause_failure_message(),
{
    match error {
        Some(e) => {
            let v = chars_of(e);
            if crate::text::chars_eq_str(&v, "success") {
                Ok(())
            } else {
                Err(owned("Could not update mpv playback state."))
            }
        },
        None => Ok(()),
    }
}

impl BackingTracksState {
    /// Selections stay within what `usize` counts.
    pub closed spec fn wf(&self) -> bool {
        self.selected_index < usize::MAX
    }

    /// Nothing typed, nothing found, nothing playing; the given favourites.
    pub fn new(favorites: Vec<BackingTrack>) -> (s: Self)
        ensures
            s.wf(),
            s@ == fresh_backing(track_views(favorites@)),
    {
        let s = BackingTracksState {
            query: String::new(),
            editing_query: false,
            selected_index: 0,
            results: Vec::new(),
            search_state: BackingSearchState::Idle,
            player_state: BackingPlayerState::Stopped,
            now_playing: None,
            favorites,
            library_view: BackingLibraryView::SearchResults,
            message: None,
        };
        assert(track_views(s.results@) =~= Seq::empty());
        s
    }

    pub fn query(&self) -> (q: &str)
        ensures
            q@ == self@.query,
    {
        self.query.as_str()
    }

    pub fn editing_query(&self) -> (b: bool)
        ensures
            b == self@.editing_query,
    {
        self.editing_query
    }

    pub fn selected_index(&self) -> (i: usize)
        ensures
            i == self@.selected_index,
    {
        self.selected_index
    }

    /// The list on show: the search results or the favourites.
    pub fn results(&self) -> (r: &[BackingTrack])
        ensures
            track_views(r@) == shown(self@),
    {
        match self.library_view {
            BackingLibraryView::SearchResults => self.results.as_slice(),
            BackingLibraryView::Favorites => self.favorites.as_slice(),
        }
    }

    pub fn favorites(&self) -> (r: &[BackingTrack])
        ensures
            track_views(r@) == self@.favorites,
    {
        self.favorites.as_slice()
    }

    pub fn favorites_len(&self) -> (n: usize)
        ensures
            n == self@.favorites.len(),
    {
        self.favorites.len()
    }

    pub fn library_view(&self) -> (v: BackingLibraryView)
        ensures
            v == self@.library_view,
    {
        self.library_view
    }

    pub fn search_state(&self) -> (s: &BackingSearchState)
        ensures
            s@ == self@.search,
    {
        &self.search_state
    }

    pub fn player_state(&self) -> (s: &BackingPlayerState)
        ensures
            s@ == self@.player,
    {
        &self.player_state
    }

    pub fn now_playing(&self) -> (t: Option<&BackingTrack>)
        ensures
            t is Some == self@.now_playing is Some,
            t matches Some(t) ==> t@ == self@.now_playing->0,
    {
        match &self.now_playing {
            Some(t) => Some(t),
            None => None,
        }
    }

    pub fn message(&self) -> (m: Option<&str>)
        ensures
            m is Some == self@.message is Some,
            m matches Some(m) ==> m@ == self@.message->0,
    {
        match &self.message {
            Some(m) => Some(m.as_str()),
            None => None,
        }
    }

    /// The selected track of the list on show.
    pub fn selected_track(&self) -> (t: Option<&BackingTrack>)
        ensures
            t is Some == selected(self@) is Some,
            t matches Some(t) ==> t@ == selected(self@)->0,
    {
        let list = self.results();
        if self.selected_index < list.len() {
            Some(&list[self.selected_index])
        } else {
            None
        }
    }

    /// Whether a favourite has the track's address.
    pub fn is_favorite(&self, track: &BackingTrack) -> (b: bool)
        ensures
            b == has_url(self@.favorites, track@.url),
    {
        let mut i: usize = 0;
        while i < self.favorites.len()
            invariant
                i <= self.favorites.len(),
                forall|k: int| 0 <= k < i ==> self.favorites@[k]@.url != track@.url,
            decreases self.favorites.len() - i,
        {
            if self.favorites[i].url == track.url {
                assert(track_views(self.favorites@)[i as int].url == track@.url);
                return true;
            }
            i = i + 1;
        }
        assert forall|k: int| 0 <= k < self@.favorites.len() implies (
        #[trigger] self@.favorites[k]).url != track@.url by {
            assert(self@.favorites[k] == self.favorites@[k]@);
        }
        false
    }

    /// Whether the selected track is a favourite.
    pub fn selected_is_favorite(&self) -> (b: bool)
        ensures
            b == (selected(self@) matches Some(t) && has_url(self@.favorites, t.url)),
    {
        match self.selected_track() {
            Some(track) => self.is_favorite(track),
            None => false,
        }
    }

    /// Starts typing a query; the search results are shown.
    pub fn begin_search_edit(&mut self)
        requires
            old(self).wf(),
        ensures
            final(self).wf(),
            final(self)@ == editing_begun(old(self)@),
    {
        self.editing_query = true;
        self.library_view = BackingLibraryView::SearchResults;
    }

    /// Adds a typed character to the query while it is being edited; control
    /// characters are ignored.
    pub fn push_query_char(&mut self, c: char)
        requires
            old(self).wf(),
        ensures
            final(self).wf(),
            final(self)@ == char_typed(old(self)@, c),
    {
        if self.editing_query && !is_control_char(c) {
            push_char(&mut self.query, c);
        }
    }

    /// Removes the last character of the query while it is being edited.
    pub fn backspace_query(&mut self)
        requires
            old(self).wf(),
        ensures
            final(self).wf(),
            final(self)@ == char_erased(old(self)@),
    {
        if self.editing_query {
            let _ = pop_char(&mut self.query);
        }
    }

    /// Stops editing the query, keeping what was typed.
    pub fn cancel_query_edit(&mut self)
        requires
            old(self).wf(),
        ensures
            final(self).wf(),
            final(self)@ == editing_cancelled(old(self)@),
    {
        self.editing_query = false;
    }

    /// Asks for a search of the trimmed query. A blank query fails at once and
    /// nothing is to be searched; otherwise the search is under way and the
    /// text to search for is returned.
    pub fn submit_search(&mut self) -> (search: Option<String>)
        requires
            old(self).wf(),
        ensures
            final(self).wf(),
            final(self)@ == search_submitted(old(self)@),
            search is Some == (trim_ws(old(self)@.query).len() > 0),
            search matches Some(q) ==> q@ == trim_ws(old(self)@.query),
    {
        let trimmed = trim_whitespace(&chars_of(self.query.as_str()));
        if trimmed.len() == 0 {
            self.search_state = BackingSearchState::Failed(owned("Type something to search first."));
            return None;
        }
        self.search_state = BackingSearchState::Searching;
        self.editing_query = false;
        self.library_view = BackingLibraryView::SearchResults;
        self.message = None;
        Some(string_from_chars(&trimmed))
    }

    /// Takes in what a search produced: the found tracks, or the reason it failed.
    pub fn search_finished(&mut self, outcome: Result<Vec<BackingTrack>, String>)
        requires
            old(self).wf(),
        ensures
            final(self).wf(),
            final(self)@ == search_answered(old(self)@, outcome_view(outcome)),
    {
        match outcome {
            Ok(found) => {
                self.results = found;
                self.selected_index = 0;
                self.search_state = BackingSearchState::Ready;
                self.message = None;
            },
            Err(m) => {
                self.results.clear();
                self.selected_index = 0;
                self.search_state = BackingSearchState::Failed(m);
                assert(track_views(self.results@) =~= Seq::empty());
            },
        }
    }

    /// The search stopped without an answer.
    pub fn search_worker_lost(&mut self)
        requires
            old(self).wf(),
        ensures
            final(self).wf(),
            final(self)@ == search_lost(old(self)@),
    {
        self.search_state = BackingSearchState::Failed(owned("Search worker stopped unexpectedly."));
    }

    /// Moves the selection forward through the list on show, wrapping at the end.
    pub fn next_result(&mut self)
        requires
            old(self).wf(),
        ensures
            final(self).wf(),
            final(self)@ == moved_next(old(self)@),
    {
        let n = self.results().len();
        if n > 0 {
            self.selected_index = (self.selected_index + 1) % n;
        }
    }

    /// Moves the selection back through the list on show, wrapping at the start.
    pub fn prev_result(&mut self)
        requires
            old(self).wf(),
        ensures
            final(self).wf(),
            final(self)@ == moved_prev(old(self)@),
    {
        let n = self.results().len();
        if n == 0 {
            return;
        }
        self.selected_index = if self.selected_index == 0 {
            n - 1
        } else {
            self.selected_index - 1
        };
    }

    /// Nothing plays any more.
    pub fn stop(&mut self)
        requires
            old(self).wf(),
        ensures
            final(self).wf(),
            final(self)@ == stopped(old(self)@),
    {
        self.now_playing = None;
        self.player_state = BackingPlayerState::Stopped;
    }

    /// Play or pause the selected track: pauses or resumes it when it is the one
    /// playing, else stops what plays and asks to start it.
    pub fn toggle_selected(&mut self) -> (action: PlaybackAction)
        requires
            old(self).wf(),
        ensures
            final(self).wf(),
            final(self)@ == toggled(old(self)@).0,
            match action {
                PlaybackAction::Nothing => toggled(old(self)@).1 is None && toggled(
                    old(self)@,
                ).2 is None,
                PlaybackAction::SetPause(p) => toggled(old(self)@).2 == Some(p),
                PlaybackAction::Start(t) => toggled(old(self)@).1 == Some(t@),
            },
    {
        let track = match self.selected_track() {
            Some(t) => t.duplicate(),
            None => {
                self.player_state = BackingPlayerState::Failed(owned("Search and select a track first."));
                return PlaybackAction::Nothing;
            },
        };
        let same = match &self.now_playing {
            Some(playing) => playing.url == track.url,
            None => false,
        };
        if same {
            let should_pause = match self.player_state {
                BackingPlayerState::Playing => true,
                _ => false,
            };
            return PlaybackAction::SetPause(should_pause);
        }
        self.stop();
        PlaybackAction::Start(track)
    }

    /// The player answered a pause (`true`) or resume (`false`) request.
    pub fn pause_finished(&mut self, paused: bool, outcome: Result<(), String>)
        requires
            old(self).wf(),
        ensures
            final(self).wf(),
            final(self)@ == pause_answered(old(self)@, paused, unit_outcome_view(outcome)),
    {
        match outcome {
            Ok(()) => {
                self.player_state = if paused {
                    BackingPlayerState::Paused
                } else {
                    BackingPlayerState::Playing
                };
            },
            Err(m) => {
                self.player_state = BackingPlayerState::Failed(m);
            },
        }
    }

    /// The player started on a track.
    pub fn playback_started(&mut self, track: BackingTrack)
        requires
            old(self).wf(),
        ensures
            final(self).wf(),
            final(self)@ == started(old(self)@, track@),
    {
        self.now_playing = Some(track);
        self.player_state = BackingPlayerState::Playing;
    }

    /// The player could not be started; `reason` says why.
    pub fn playback_failed(&mut self, reason: &str)
        requires
            old(self).wf(),
        ensures
            final(self).wf(),
            final(self)@ == start_failed(old(self)@, reason@),
    {
        let mut m = owned("Could not start mpv: ");
        m.append(reason);
        m.append(". Install mpv to play audio.");
        self.player_state = BackingPlayerState::Failed(m);
    }

    /// The player ended by itself; `status` describes how it exited.
    pub fn player_exited(&mut self, success: bool, status: &str)
        requires
            old(self).wf(),
        ensures
            final(self).wf(),
            final(self)@ == exited(old(self)@, success, status@),
    {
        self.now_playing = None;
        if success {
            self.player_state = BackingPlayerState::Stopped;
        } else {
            let mut m = owned("Player exited with ");
            m.append(status);
            m.append(".");
            self.player_state = BackingPlayerState::Failed(m);
        }
    }

    /// The player could not be watched any more; `error` says why.
    pub fn player_lost(&mut self, error: &str)
        requires
            old(self).wf(),
        ensures
            final(self).wf(),
            final(self)@ == lost(old(self)@, error@),
    {
        self.now_playing = None;
        let mut m = owned("Player error: ");
        m.append(error);
        self.player_state = BackingPlayerState::Failed(m);
    }

    /// The player reported whether it is paused.
    pub fn pause_observed(&mut self, paused: bool)
        requires
            old(self).wf(),
        ensures
            final(self).wf(),
            final(self)@ == pause_seen(old(self)@, paused),
    {
        self.player_state = if paused {
            BackingPlayerState::Paused
        } else {
            BackingPlayerState::Playing
        };
    }

    fn favorite_position(&self, url: &String) -> (r: Option<usize>)
        ensures
            r matches Some(i) ==> url_position_from(self@.favorites, url@, 0) == Some(i as int),
            r is None ==> url_position_from(self@.favorites, url@, 0) is None,
    {
        let mut i: usize = 0;
        while i < self.favorites.len()
            invariant
                i <= self.favorites.len(),
                url_position_from(self@.favorites, url@, 0) == url_position_from(
                    self@.favorites,
                    url@,
                    i as int,
                ),
            decreases self.favorites.len() - i,
        {
            assert(self@.favorites[i as int] == self.favorites@[i as int]@);
            if self.favorites[i].url == *url {
                return Some(i);
            }
            i = i + 1;
        }
        None
    }

    /// Adds the selected track to the favourites, or removes it when a favourite
    /// has its address. Returns whether the favourites changed and are to be saved.
    pub fn toggle_favorite(&mut self) -> (changed: bool)
        requires
            old(self).wf(),
        ensures
            final(self).wf(),
            changed == selected(old(self)@) is Some,
            final(self)@ == favorite_requested(old(self)@),
    {
        let track = match self.selected_track() {
            Some(t) => t.duplicate(),
            None => {
                self.message = Some(owned("Select a track before favoriting."));
                return false;
            },
        };
        let ghost before = self@;
        proof {
            lemma_url_position(before.favorites, track@.url, 0);
        }
        match self.favorite_position(&track.url) {
            Some(index) => {
                let removed = self.favorites.remove(index);
                let mut m = owned("Removed favorite: ");
                m.append(removed.title.as_str());
                self.message = Some(m);
                proof {
                    assert(track_views(self.favorites@) =~= before.favorites.remove(index as int));
                }
                if self.library_view == BackingLibraryView::Favorites && self.selected_index
                    >= self.favorites.len() {
                    self.selected_index = if self.favorites.len() > 0 {
                        self.favorites.len() - 1
                    } else {
                        0
                    };
                }
            },
            None => {
                let mut m = owned("Favorited: ");
                m.append(track.title.as_str());
                self.favorites.push(track);
                self.message = Some(m);
                proof {
                    assert(track_views(self.favorites@) =~= before.favorites.push(track@));
                }
            },
        }
        true
    }

    /// Saving the favourites failed; `error` says why.
    pub fn favorites_save_failed(&mut self, error: &str)
        requires
            old(self).wf(),
        ensures
            final(self).wf(),
            final(self)@ == save_failed(old(self)@, error@),
    {
        let mut m = owned("Could not save favorites: ");
        m.append(error);
        self.message = Some(m);
    }

    /// Switches between the search results and the favourites; the selection
    /// returns to the top and the message is cleared.
    pub fn toggle_library_view(&mut self)
        requires
            old(self).wf(),
        ensures
            final(self).wf(),
            final(self)@ == view_toggled(old(self)@),
    {
        self.library_view = match self.library_view {
            BackingLibraryView::SearchResults => BackingLibraryView::Favorites,
            BackingLibraryView::Favorites => BackingLibraryView::SearchResults,
        };
        self.selected_index = 0;
        self.message = None;
    }

    /// What the playing track's text suggests, if a track plays.
    pub fn now_playing_context(&self) -> (c: Option<BackingTrackContext>)
        ensures
            c is Some == self@.now_playing is Some,
            c matches Some(c) ==> context_of(c, self@.now_playing->0),
    {
        match &self.now_playing {
            Some(t) => Some(infer_track_context(t)),
            None => None,
        }
    }
}

/// A context is the one inferred from a track's text.
pub open spec fn context_of(c: BackingTrackContext, t: TrackView) -> bool {
    let text = search_text_of(t);
    &&& c.root is Some == crate::inference::inferred_root(text) is Some
    &&& c.root matches Some(r) ==> r@ == crate::inference::root_name(
        crate::inference::inferred_root(text)->0,
    )
    &&& opt_view(c.quality) == crate::inference::inferred_quality(text)
    &&& opt_view(c.genre) == crate::inference::inferred_genre(text)
}

} // verus!
