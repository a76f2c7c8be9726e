//! What the screens show, as text and as plain marks: the fretboard grid, the
//! status lines of the backing-track tab, and the help line of each tab.
use vstd::prelude::*;

use crate::app::AppTab;
use crate::backing::{BackingModel, BackingPlayerState, BackingSearchState, BackingTracksState, PlayerStatus, SearchStatus};
use crate::text::{chars_of, decimal, owned, push_decimal};

verus! {

// ---------------------------------------------------------------------------
// Text cells
// ---------------------------------------------------------------------------

/// `text` centred in `width` columns: cut to `width` characters when too long,
/// else padded with spaces, the extra space going to the right.
pub open spec fn centered(text: Seq<char>, width: nat) -> Seq<char> {
    if width == 0 {
        Seq::empty()
    } else if text.len() >= width {
        text.take(width as int)
    } else {
        let padding = (width - text.len()) as nat;
        let left = padding / 2;
        let right = (padding - left) as nat;
        Seq::new(left, |i: int| ' ') + text + Seq::new(right, |i: int| ' ')
    }
}

fn push_spaces(s: &mut String, n: usize)
    ensures
        final(s)@ == old(s)@ + Seq::new(n as nat, |i: int| ' '),
{
    let mut k: usize = 0;
    while k < n
        invariant
            k <= n,
            s@ == old(s)@ + Seq::new(k as nat, |i: int| ' '),
        decreases n - k,
    {
        crate::text::push_char(s, ' ');
        k = k + 1;
        assert(s@ =~= old(s)@ + Seq::new(k as nat, |i: int| ' '));
    }
}

/// `text` centred in a cell `width` columns wide.
pub fn centered_cell(text: &str, width: usize) -> (s: String)
    ensures
        s@ == centered(text@, width as nat),
{
    if width == 0 {
        return String::new();
    }
    let chars = chars_of(text);
    let n = chars.len();
    if n >= width {
        let mut s = String::new();
        let mut k: usize = 0;
        while k < width
            invariant
                k <= width <= n,
                n == chars@.len(),
                chars@ == text@,
                s@ == text@.take(k as int),
            decreases width - k,
        {
            crate::text::push_char(&mut s, chars[k]);
            k = k + 1;
            assert(s@ =~= text@.take(k as int));
        }
        return s;
    }
    let padding = width - n;
    let left = padding / 2;
    let right = padding - left;
    let mut s = String::new();
    push_spaces(&mut s, left);
    s.append(text);
    push_spaces(&mut s, right);
    assert(s@ =~= centered(text@, width as nat));
    s
}

// ---------------------------------------------------------------------------
// Fretboard
// ---------------------------------------------------------------------------

/// Number of frets drawn after the open string.
pub const FRET_COUNT: usize = 12;

/// Number of strings drawn.
pub const STRING_COUNT: usize = 6;

/// What a fretboard position shows.
#[derive(Clone, Copy, Debug, PartialEq, Eq, Structural)]
pub enum FretMark {
    /// The root of the scale.
    Root,
    /// Another note of the scale.
    Scale,
    /// A note outside the scale.
    Empty,
}

/// The pitch class of each open string in standard tuning, from low E to high E.
pub open spec fn open_string(i: int) -> u8 {
    if i == 0 {
        4
    } else if i == 1 {
        9
    } else if i == 2 {
        2
    } else if i == 3 {
        7
    } else if i == 4 {
        11
    } else {
        4
    }
}

/// The mark of a pitch class, given the root and the scale's pitch classes.
pub open spec fn fret_mark(note: u8, root: u8, scale: Seq<u8>) -> FretMark {
    if scale.contains(note) {
        if note == root {
            FretMark::Root
        } else {
            FretMark::Scale
        }
    } else {
        FretMark::Empty
    }
}

/// The marks of the fretboard, row by row from the high E string down, each
/// row from the open string to the twelfth fret.
pub open spec fn fretboard(root: u8, scale: Seq<u8>) -> Seq<Seq<FretMark>> {
    Seq::new(
        STRING_COUNT as nat,
        |r: int|
            Seq::new(
                (FRET_COUNT + 1) as nat,
                |f: int| fret_mark(((open_string(5 - r) + f) % 12) as u8, root, scale),
            ),
    )
}

fn open_string_class(i: usize) -> (c: u8)
    requires
        i < STRING_COUNT,
    ensures
        c == open_string(i as int),
{
    match i {
        0 => 4,
        1 => 9,
        2 => 2,
        3 => 7,
        4 => 11,
        _ => 4,
    }
}

fn contains_class(scale: &[u8], note: u8) -> (b: bool)
    ensures
        b == scale@.contains(note),
{
    let mut i: usize = 0;
    while i < scale.len()
        invariant
            i <= scale@.len(),
            forall|k: int| 0 <= k < i ==> scale@[k] != note,
        decreases scale.len() - i,
    {
        if scale[i] == note {
            return true;
        }
        i = i + 1;
    }
    false
}

/// The fretboard marks for a root and a scale.
pub fn fretboard_marks(root: u8, scale: &[u8]) -> (rows: Vec<Vec<FretMark>>)
    ensures
        rows@.len() == STRING_COUNT,
        forall|r: int| 0 <= r < STRING_COUNT ==> (#[trigger] rows@[r])@ == fretboard(root, scale@)[r],
{
    let mut rows: Vec<Vec<FretMark>> = Vec::new();
    let mut r: usize = 0;
    while r < STRING_COUNT
        invariant
            r <= STRING_COUNT,
            rows@.len() == r,
            forall|q: int| 0 <= q < r ==> (#[trigger] rows@[q])@ == fretboard(root, scale@)[q],
        decreases STRING_COUNT - r,
    {
        let open = open_string_class(STRING_COUNT - 1 - r);
        let mut row: Vec<FretMark> = Vec::new();
        let mut f: usize = 0;
        while f <= FRET_COUNT
            invariant
                f <= FRET_COUNT + 1,
                r < STRING_COUNT,
                open == open_string(5 - r),
                row@.len() == f,
                forall|k: int| 0 <= k < f ==> #[trigger] row@[k] == fret_mark(
                    ((open_string(5 - r) + k) % 12) as u8,
                    root,
                    scale@,
                ),
            decreases FRET_COUNT + 1 - f,
        {
            let note = (open + f as u8) % 12;
            let mark = if contains_class(scale, note) {
                if note == root {
                    FretMark::Root
                } else {
                    FretMark::Scale
                }
            } else {
                FretMark::Empty
            };
            row.push(mark);
            f = f + 1;
        }
        assert(row@ =~= fretboard(root, scale@)[r as int]);
        rows.push(row);
        r = r + 1;
    }
    rows
}

/// The frets whose number is highlighted: 3, 5, 7, 9 and 12.
pub open spec fn marker_fret(fret: nat) -> bool {
    fret == 3 || fret == 5 || fret == 7 || fret == 9 || fret == 12
}

pub fn is_marker_fret(fret: usize) -> (b: bool)
    ensures
        b == marker_fret(fret as nat),
{
    fret == 3 || fret == 5 || fret == 7 || fret == 9 || fret == 12
}

// ---------------------------------------------------------------------------
// Backing-track status lines
// ---------------------------------------------------------------------------

/// The player line: the playing or paused track, or what went wrong.
pub open spec fn player_line(m: BackingModel) -> Seq<char> {
    match m.player {
        PlayerStatus::Playing => match m.now_playing {
            Some(t) => "▶ "@ + t.title,
            None => "▶ Playing"@,
        },
        PlayerStatus::Paused => match m.now_playing {
            Some(t) => "⏸ "@ + t.title,
            None => "⏸ Paused"@,
        },
        PlayerStatus::Stopped => "▶ Nothing playing"@,
        PlayerStatus::Failed(reason) => reason,
    }
}

pub fn player_status_line(backing: &BackingTracksState) -> (s: String)
    ensures
        s@ == player_line(backing@),
{
    match backing.player_state() {
        BackingPlayerState::Playing => match backing.now_playing() {
            Some(t) => {
                let mut s = owned("▶ ");
                s.append(t.title());
                s
            },
            None => owned("▶ Playing"),
        },
        BackingPlayerState::Paused => match backing.now_playing() {
            Some(t) => {
                let mut s = owned("⏸ ");
                s.append(t.title());
                s
            },
            None => owned("⏸ Paused"),
        },
        BackingPlayerState::Stopped => owned("▶ Nothing playing"),
        BackingPlayerState::Failed(reason) => reason.clone(),
    }
}

/// The search line: a hint, the search in progress, the number of results
/// shown, or the reason the search failed.
pub open spec fn search_line(m: BackingModel) -> Seq<char> {
    match m.search {
        SearchStatus::Idle => "Type a search, press Enter, pick a track, then press Space."@,
        SearchStatus::Searching => "Searching with yt-dlp"@,
        SearchStatus::Ready => decimal(crate::backing::shown(m).len()) + " result(s)"@,
        SearchStatus::Failed(reason) => reason,
    }
}

pub fn search_status_line(backing: &BackingTracksState) -> (s: String)
    ensures
        s@ == search_line(backing@),
{
    match backing.search_state() {
        BackingSearchState::Idle => owned("Type a search, press Enter, pick a track, then press Space."),
        BackingSearchState::Searching => owned("Searching with yt-dlp"),
        BackingSearchState::Ready => {
            let mut s = String::new();
            push_decimal(&mut s, backing.results().len() as u64);
            s.append(" result(s)");
            s
        },
        BackingSearchState::Failed(reason) => reason.clone(),
    }
}

/// What an empty result list says, by the state of the search.
pub open spec fn empty_results_hint(search: SearchStatus) -> Seq<char> {
    match search {
        SearchStatus::Idle => "Search for things like: funk backing track E minor 90 bpm"@,
        SearchStatus::Searching => "Searching YouTube..."@,
        SearchStatus::Ready => "No results found. Try a more specific query."@,
        SearchStatus::Failed(_) => "Search failed. Check the status message above."@,
    }
}

pub fn empty_results_text(search: &BackingSearchState) -> (s: &'static str)
    ensures
        s@ == empty_results_hint(search@),
{
    match search {
        BackingSearchState::Idle => "Search for things like: funk backing track E minor 90 bpm",
        BackingSearchState::Searching => "Searching YouTube...",
        BackingSearchState::Ready => "No results found. Try a more specific query.",
        BackingSearchState::Failed(_) => "Search failed. Check the status message above.",
    }
}

// ---------------------------------------------------------------------------
// Tabs
// ---------------------------------------------------------------------------

/// The title of a tab in the tab bar.
pub open spec fn tab_title(tab: AppTab) -> Seq<char> {
    match tab {
        AppTab::Groove => "Groove"@,
        AppTab::Tuner => "Tuner"@,
        AppTab::Backing => "Backing"@,
    }
}

pub fn tab_name(tab: AppTab) -> (s: &'static str)
    ensures
        s@ == tab_title(tab),
{
    match tab {
        AppTab::Groove => "Groove",
        AppTab::Tuner => "Tuner",
        AppTab::Backing => "Backing",
    }
}

/// The keys listed at the foot of each tab.
pub open spec fn tab_help(tab: AppTab) -> Seq<char> {
    match tab {
        AppTab::Groove => " [Tab] Switch | [Space] Play/Pause | [Q] Quit | [↑/↓] BPM | [←/→] Root | [< / >] Major/Minor | [G] Genre "@,
        AppTab::Tuner => " [Tab] Switch | [Q] Quit | [↑/↓] Gain  | [M] Mode | [A/D] Target String | (Space) Toggle Capture "@,
        AppTab::Backing => " [Tab] Switch | [/] Search | [Enter] Run Search | [↑/↓] Select | [Space] Play/Pause | [F] Favorite | [V] View | [S] Stop | [Q] Quit "@,
    }
}

pub fn help_text(tab: AppTab) -> (s: &'static str)
    ensures
        s@ == tab_help(tab),
{
    match tab {
        AppTab::Groove => " [Tab] Switch | [Space] Play/Pause | [Q] Quit | [↑/↓] BPM | [←/→] Root | [< / >] Major/Minor | [G] Genre ",
        AppTab::Tuner => " [Tab] Switch | [Q] Quit | [↑/↓] Gain  | [M] Mode | [A/D] Target String | (Space) Toggle Capture ",
        AppTab::Backing => " [Tab] Switch | [/] Search | [Enter] Run Search | [↑/↓] Select | [Space] Play/Pause | [F] Favorite | [V] View | [S] Stop | [Q] Quit ",
    }
}

} // verus!
