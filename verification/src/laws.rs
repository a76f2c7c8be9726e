//! Properties that tie the modules together: every name that the inference
//! reports is one that the harmony state reads back to the same choice.
use vstd::prelude::*;

use crate::inference::root_name;
use crate::music::{
    genre_label, genre_position, genre_position_from, music_token, pitch_class_of,
    pitch_symbol_chars, plain_token, quality_label, quality_position, root_pitch_at,
    root_position, root_position_from, RootPitch, TriadQuality,
};
use crate::app::{tab_after, AppTab};
use crate::audio::gathered;
use crate::backing::{
    clock_label, favorite_requested, has_url, lemma_url_position, minutes_label, moved_next,
    moved_prev, selected, shown, url_position_from, view_toggled, watch_url, BackingLibraryView, BackingModel, TrackView,
};
use crate::music::{cycle_next, cycle_prev, genre_after, quality_after, root_after};
use crate::text::{decimal, decimal2};
use crate::tuner::{every_nth, latest, window, TuningMode};
use crate::display::{centered, fret_mark, fretboard, FretMark};
use crate::inference::{
    inferred_genre, inferred_quality, normalized_text, root_of_token, root_trim_pred,
};
use crate::input::{command_for, Command, Key};
use crate::music::{suggestions_for, ScaleMode};
use crate::text::{contains_seq, drop_back_while, drop_front_while, split_ws, trim_by};
use crate::text::{
    ascii_lower, ascii_lower_seq, is_ws, lemma_drop_back_while, lemma_drop_front_while, trim_ws,
    ws_pred,
};

verus! {

/// A sequence without whitespace is its own trimmed form.
pub proof fn lemma_trim_without_whitespace(s: Seq<char>)
    requires
        forall|i: int| 0 <= i < s.len() ==> !is_ws(#[trigger] s[i]),
    ensures
        trim_ws(s) == s,
{
    lemma_drop_front_while(s, ws_pred(), 0);
    assert(s.skip(0) =~= s);
    lemma_drop_back_while(s, ws_pred(), s.len() as int);
    assert(s.take(s.len() as int) =~= s);
}

proof fn lemma_token1(a: char)
    requires
        !is_ws(a),
    ensures
        music_token(seq![a]) == seq![ascii_lower(crate::music::sharp_as_s(a))],
        plain_token(seq![a]) == seq![ascii_lower(a)],
{
    lemma_trim_without_whitespace(seq![a]);
    assert(music_token(seq![a]) =~= seq![ascii_lower(crate::music::sharp_as_s(a))]);
    assert(plain_token(seq![a]) =~= seq![ascii_lower(a)]);
}

proof fn lemma_token2(a: char, b: char)
    requires
        !is_ws(a),
        !is_ws(b),
    ensures
        music_token(seq![a, b]) == seq![
            ascii_lower(crate::music::sharp_as_s(a)),
            ascii_lower(crate::music::sharp_as_s(b)),
        ],
{
    let s = seq![a, b];
    assert forall|i: int| 0 <= i < s.len() implies !is_ws(#[trigger] s[i]) by {}
    lemma_trim_without_whitespace(s);
    assert(music_token(s) =~= seq![
        ascii_lower(crate::music::sharp_as_s(a)),
        ascii_lower(crate::music::sharp_as_s(b)),
    ]);
}

/// How each displayed pitch symbol reads once normalised.
proof fn lemma_symbol_tokens()
    ensures
        music_token(pitch_symbol_chars(RootPitch::C)) == seq!['c'],
        music_token(pitch_symbol_chars(RootPitch::Cs)) == seq!['c', 's'],
        music_token(pitch_symbol_chars(RootPitch::D)) == seq!['d'],
        music_token(pitch_symbol_chars(RootPitch::Ds)) == seq!['d', 's'],
        music_token(pitch_symbol_chars(RootPitch::E)) == seq!['e'],
        music_token(pitch_symbol_chars(RootPitch::F)) == seq!['f'],
        music_token(pitch_symbol_chars(RootPitch::Fs)) == seq!['f', 's'],
        music_token(pitch_symbol_chars(RootPitch::G)) == seq!['g'],
        music_token(pitch_symbol_chars(RootPitch::Gs)) == seq!['g', 's'],
        music_token(pitch_symbol_chars(RootPitch::A)) == seq!['a'],
        music_token(pitch_symbol_chars(RootPitch::As)) == seq!['a', 's'],
        music_token(pitch_symbol_chars(RootPitch::B)) == seq!['b'],
{
    lemma_token1('C');
    lemma_token2('C', '♯');
    lemma_token1('D');
    lemma_token2('D', '♯');
    lemma_token1('E');
    lemma_token1('F');
    lemma_token2('F', '♯');
    lemma_token1('G');
    lemma_token2('G', '♯');
    lemma_token1('A');
    lemma_token2('A', '♯');
    lemma_token1('B');
}

/// Distinct pitch symbols read differently once normalised.
proof fn lemma_symbol_tokens_distinct(a: RootPitch, b: RootPitch)
    requires
        a != b,
    ensures
        music_token(pitch_symbol_chars(a)) != music_token(pitch_symbol_chars(b)),
{
    lemma_symbol_tokens();
    let ta = music_token(pitch_symbol_chars(a));
    let tb = music_token(pitch_symbol_chars(b));
    if ta == tb {
        assert(ta.len() == tb.len());
        assert(ta[0] == tb[0]);
        if ta.len() == 2 {
            assert(ta[1] == tb[1]);
        }
        match a {
            RootPitch::C => {},
            RootPitch::Cs => {},
            RootPitch::D => {},
            RootPitch::Ds => {},
            RootPitch::E => {},
            RootPitch::F => {},
            RootPitch::Fs => {},
            RootPitch::G => {},
            RootPitch::Gs => {},
            RootPitch::A => {},
            RootPitch::As => {},
            RootPitch::B => {},
        }
    }
}

/// How each inferred root name reads once normalised.
proof fn lemma_name_tokens(p: RootPitch)
    ensures
        music_token(root_name(p)) == music_token(pitch_symbol_chars(p)),
{
    lemma_symbol_tokens();
    match p {
        RootPitch::C => {
            reveal_strlit("C");
            assert(root_name(p) =~= seq!['C']);
            lemma_token1('C');
        },
        RootPitch::Cs => {
            reveal_strlit("Cs");
            assert(root_name(p) =~= seq!['C', 's']);
            lemma_token2('C', 's');
        },
        RootPitch::D => {
            reveal_strlit("D");
            assert(root_name(p) =~= seq!['D']);
            lemma_token1('D');
        },
        RootPitch::Ds => {
            reveal_strlit("Ds");
            assert(root_name(p) =~= seq!['D', 's']);
            lemma_token2('D', 's');
        },
        RootPitch::E => {
            reveal_strlit("E");
            assert(root_name(p) =~= seq!['E']);
            lemma_token1('E');
        },
        RootPitch::F => {
            reveal_strlit("F");
            assert(root_name(p) =~= seq!['F']);
            lemma_token1('F');
        },
        RootPitch::Fs => {
            reveal_strlit("Fs");
            assert(root_name(p) =~= seq!['F', 's']);
            lemma_token2('F', 's');
        },
        RootPitch::G => {
            reveal_strlit("G");
            assert(root_name(p) =~= seq!['G']);
            lemma_token1('G');
        },
        RootPitch::Gs => {
            reveal_strlit("Gs");
            assert(root_name(p) =~= seq!['G', 's']);
            lemma_token2('G', 's');
        },
        RootPitch::A => {
            reveal_strlit("A");
            assert(root_name(p) =~= seq!['A']);
            lemma_token1('A');
        },
        RootPitch::As => {
            reveal_strlit("As");
            assert(root_name(p) =~= seq!['A', 's']);
            lemma_token2('A', 's');
        },
        RootPitch::B => {
            reveal_strlit("B");
            assert(root_name(p) =~= seq!['B']);
            lemma_token1('B');
        },
    }
}

/// Every root the inference names (`"Cs"`, `"E"`, ...) is read back by the
/// harmony state as that same root: the position it selects holds that pitch.
pub proof fn law_inferred_root_is_recognized(p: RootPitch)
    ensures
        root_position(root_name(p)) == Some(pitch_class_of(p) as int),
        root_pitch_at(pitch_class_of(p) as int) == p,
{
    lemma_symbol_tokens();
    lemma_name_tokens(p);
    let t = music_token(root_name(p));
    let k = pitch_class_of(p) as int;
    assert(root_pitch_at(k) == p);
    assert forall|j: int| 0 <= j < k implies #[trigger] root_position_from(t, j)
        == root_position_from(t, j + 1) by {
        assert(root_pitch_at(j) != p);
        lemma_symbol_tokens_distinct(root_pitch_at(j), p);
    }
    assert(root_position_from(t, k) == Some(k));
    lemma_prefix_chain(t, k, k);
}

/// A search that finds position `k` from `j` finds it from the start when no
/// earlier position matches.
proof fn lemma_prefix_chain(t: Seq<char>, k: int, j: int)
    requires
        0 <= j <= k < 12,
        root_position_from(t, j) == Some(k),
        forall|i: int|
            0 <= i < k ==> #[trigger] root_position_from(t, i) == root_position_from(t, i + 1),
    ensures
        root_position_from(t, 0) == Some(k),
    decreases j,
{
    if j > 0 {
        assert(root_position_from(t, j - 1) == root_position_from(t, j));
        lemma_prefix_chain(t, k, j - 1);
    }
}

/// The quality names that the inference reports, `"Major"` and `"Minor"`, are
/// read back by the harmony state as the first and second quality.
pub proof fn law_inferred_quality_is_recognized()
    ensures
        quality_position("Major"@) == Some(0int),
        quality_position("Minor"@) == Some(1int),
        crate::music::quality_at(0) == TriadQuality::Major,
        crate::music::quality_at(1) == TriadQuality::Minor,
{
    reveal_strlit("Major");
    reveal_strlit("Minor");
    let major = "Major"@;
    let minor = "Minor"@;
    assert forall|i: int| 0 <= i < major.len() implies !is_ws(#[trigger] major[i]) by {}
    assert forall|i: int| 0 <= i < minor.len() implies !is_ws(#[trigger] minor[i]) by {}
    lemma_trim_without_whitespace(major);
    lemma_trim_without_whitespace(minor);
    assert(ascii_lower_seq(major) =~= seq!['m', 'a', 'j', 'o', 'r']);
    assert(ascii_lower_seq(minor) =~= seq!['m', 'i', 'n', 'o', 'r']);
    assert(quality_label(TriadQuality::Major) == major);
    assert(quality_label(TriadQuality::Minor) == minor);
}

proof fn lemma_genre_token(i: int)
    requires
        0 <= i < 5,
    ensures
        plain_token(genre_label(i)) == ascii_lower_seq(genre_label(i)),
{
    reveal_strlit("Blues");
    reveal_strlit("Rock");
    reveal_strlit("Jazz");
    reveal_strlit("Metal");
    reveal_strlit("Funk");
    let g = genre_label(i);
    assert forall|k: int| 0 <= k < g.len() implies !is_ws(#[trigger] g[k]) by {}
    lemma_trim_without_whitespace(g);
}

/// The genre names that the inference reports are read back by the harmony
/// state as the genre of the same name.
pub proof fn law_inferred_genre_is_recognized(i: int)
    requires
        0 <= i < 5,
    ensures
        genre_position(genre_label(i)) == Some(i),
{
    lemma_genre_token(i);
    reveal_strlit("Blues");
    reveal_strlit("Rock");
    reveal_strlit("Jazz");
    reveal_strlit("Metal");
    reveal_strlit("Funk");
    assert(ascii_lower_seq(genre_label(0)) =~= seq!['b', 'l', 'u', 'e', 's']);
    assert(ascii_lower_seq(genre_label(1)) =~= seq!['r', 'o', 'c', 'k']);
    assert(ascii_lower_seq(genre_label(2)) =~= seq!['j', 'a', 'z', 'z']);
    assert(ascii_lower_seq(genre_label(3)) =~= seq!['m', 'e', 't', 'a', 'l']);
    assert(ascii_lower_seq(genre_label(4)) =~= seq!['f', 'u', 'n', 'k']);
    reveal_with_fuel(genre_position_from, 6);
}

/// Every root pitch as the harmony state displays it (`C♯`, `E`, ...) is read
/// back as the same position, so feeding a displayed root to `set_context`
/// keeps the selection.
pub proof fn law_displayed_root_is_recognized(i: int)
    requires
        0 <= i < 12,
    ensures
        root_position(pitch_symbol_chars(root_pitch_at(i))) == Some(i),
{
    let p = root_pitch_at(i);
    let t = music_token(pitch_symbol_chars(p));
    assert(pitch_class_of(p) as int == i);
    assert forall|j: int| 0 <= j < i implies #[trigger] root_position_from(t, j)
        == root_position_from(t, j + 1) by {
        assert(root_pitch_at(j) != p);
        lemma_symbol_tokens_distinct(root_pitch_at(j), p);
    }
    assert(root_position_from(t, i) == Some(i));
    lemma_prefix_chain(t, i, i);
}

/// Stepping forward and then back through a cyclic list of `n` entries (root
/// pitches, chord qualities, genres, tuner strings, input devices) returns to
/// where one started, and so does stepping back and then forward; both steps
/// stay within the list.
pub proof fn law_cycle_round_trip(i: int, n: int)
    requires
        0 <= i < n,
    ensures
        0 <= cycle_next(i, n) < n,
        0 <= cycle_prev(i, n) < n,
        cycle_prev(cycle_next(i, n), n) == i,
        cycle_next(cycle_prev(i, n), n) == i,
{
    if i + 1 < n {
        assert((i + 1) % n == i + 1) by (nonlinear_arith)
            requires
                0 <= i + 1 < n,
        ;
    } else {
        assert((i + 1) % n == 0) by (nonlinear_arith)
            requires
                i + 1 == n,
                n > 0,
        ;
    }
    if i == 0 {
        assert((n - 1 + 1) % n == 0) by (nonlinear_arith)
            requires
                n > 0,
        ;
    } else {
        assert(i % n == i) by (nonlinear_arith)
            requires
                0 <= i < n,
        ;
    }
}

/// Applying the same context labels a second time changes nothing: each
/// selection settles on what the labels name, or stays where it was.
pub proof fn law_context_settles(
    root: Option<Seq<char>>,
    quality: Option<Seq<char>>,
    genre: Option<Seq<char>>,
    r: int,
    q: int,
    g: int,
)
    ensures
        root_after(root, root_after(root, r)) == root_after(root, r),
        quality_after(quality, quality_after(quality, q)) == quality_after(quality, q),
        genre_after(genre, genre_after(genre, g)) == genre_after(genre, g),
{
}

/// Switching tabs three times returns to the tab one started on, passing
/// through each of the three tabs.
pub proof fn law_tabs_cycle(tab: AppTab)
    ensures
        tab_after(tab_after(tab_after(tab))) == tab,
        tab_after(tab) != tab,
        tab_after(tab_after(tab)) != tab,
{
}

/// A search address becomes a link once: a link made from it is kept as it is.
pub proof fn law_watch_url_idempotent(value: Seq<char>)
    ensures
        watch_url(watch_url(value)) == watch_url(value),
{
    reveal_strlit("http://");
    reveal_strlit("https://");
    reveal_strlit("https://www.youtube.com/watch?v=");
    let base = "https://www.youtube.com/watch?v="@;
    let url = watch_url(value);
    if !("http://"@.is_prefix_of(value) || "https://"@.is_prefix_of(value)) {
        assert(url == base + value);
        assert(url.take(8) =~= "https://"@.take(8));
        assert("https://"@.is_prefix_of(url));
    }
}

/// A length under an hour is shown the same way in the track list (`m:ss`)
/// and on the player clock.
pub proof fn law_short_lengths_agree(seconds: nat)
    requires
        seconds < 3600,
    ensures
        clock_label(seconds) == minutes_label(seconds),
{
    assert(seconds / 3600 == 0);
    assert(seconds % 3600 == seconds);
}

/// Favouriting a selected search result that is not yet a favourite, and then
/// asking again, leaves the favourites as they were; in between the track is
/// a favourite.
pub proof fn law_favorite_round_trip(m: BackingModel)
    requires
        m.library_view == BackingLibraryView::SearchResults,
        selected(m) is Some,
        !has_url(m.favorites, selected(m)->0.url),
    ensures
        has_url(favorite_requested(m).favorites, selected(m)->0.url),
        selected(favorite_requested(m)) == selected(m),
        favorite_requested(favorite_requested(m)).favorites == m.favorites,
{
    let t = selected(m)->0;
    lemma_url_position(m.favorites, t.url, 0);
    let m1 = favorite_requested(m);
    assert(m1.favorites == m.favorites.push(t));
    assert(m1.favorites[m.favorites.len() as int] == t);
    assert(selected(m1) == selected(m));
    lemma_url_position(m1.favorites, t.url, 0);
    assert forall|k: int| 0 <= k < m.favorites.len() implies (#[trigger] m1.favorites[k]).url
        != t.url by {
        assert(m1.favorites[k] == m.favorites[k]);
    }
    assert(url_position_from(m1.favorites, t.url, 0) == Some(m.favorites.len() as int)) by {
        lemma_url_first(m1.favorites, t.url, m.favorites.len() as int);
    }
    assert(m1.favorites.remove(m.favorites.len() as int) =~= m.favorites);
}

/// The search for an address finds the first favourite that has it.
proof fn lemma_url_first(favorites: Seq<TrackView>, url: Seq<char>, k: int)
    requires
        0 <= k < favorites.len(),
        favorites[k].url == url,
        forall|j: int| 0 <= j < k ==> (#[trigger] favorites[j]).url != url,
    ensures
        url_position_from(favorites, url, 0) == Some(k),
{
    lemma_url_first_from(favorites, url, k, 0);
}

proof fn lemma_url_first_from(favorites: Seq<TrackView>, url: Seq<char>, k: int, j: int)
    requires
        0 <= j <= k < favorites.len(),
        favorites[k].url == url,
        forall|q: int| 0 <= q < k ==> (#[trigger] favorites[q]).url != url,
    ensures
        url_position_from(favorites, url, j) == Some(k),
    decreases k - j,
{
    if j < k {
        lemma_url_first_from(favorites, url, k, j + 1);
    }
}

/// Moving the selection one result down and then one up (or up, then down)
/// comes back to the same result, whenever the selection points at a result.
pub proof fn law_result_selection_round_trip(m: BackingModel)
    requires
        m.selected_index < shown(m).len(),
    ensures
        moved_next(m).selected_index < shown(m).len(),
        moved_prev(m).selected_index < shown(m).len(),
        moved_prev(moved_next(m)) == m,
        moved_next(moved_prev(m)) == m,
{
    law_cycle_round_trip(m.selected_index as int, shown(m).len() as int);
}

/// Switching the list on show twice shows the same list again, from the top.
pub proof fn law_library_view_round_trip(m: BackingModel)
    ensures
        view_toggled(view_toggled(m)).library_view == m.library_view,
        view_toggled(view_toggled(m)).selected_index == 0,
        view_toggled(m).library_view != m.library_view,
{
}

/// A buffer that holds at most `capacity` samples still does after new samples
/// are kept, and ends with the newest sample.
pub proof fn law_latest_is_bounded<T>(buffer: Seq<T>, samples: Seq<T>, capacity: nat)
    requires
        samples.len() > 0,
        capacity > 0,
    ensures
        latest(buffer, samples, capacity).len() <= capacity,
        latest(buffer, samples, capacity).last() == samples.last(),
{
    let all = buffer + samples;
    assert(all.last() == samples.last());
}

/// Captured blocks come out with exactly `target` frames each when the pending
/// block starts out shorter than that, and the pending block stays shorter.
pub proof fn law_blocks_are_full<T>(pending: Seq<T>, frames: Seq<T>, target: nat)
    requires
        pending.len() < target,
    ensures
        gathered(pending, frames, target).1.len() < target,
        forall|i: int|
            0 <= i < gathered(pending, frames, target).0.len() ==> (
            #[trigger] gathered(pending, frames, target).0[i]).len() == target,
    decreases frames.len(),
{
    if frames.len() > 0 {
        law_blocks_are_full(pending, frames.drop_last(), target);
    }
}

// ---------------------------------------------------------------------------
// What the suggestions, the fretboard, the inference and the keys are for
// ---------------------------------------------------------------------------

/// The name under which each scale mode is suggested.
pub open spec fn mode_name(m: ScaleMode) -> Seq<char> {
    match m {
        ScaleMode::Ionian => "Ionian"@,
        ScaleMode::Dorian => "Dorian"@,
        ScaleMode::Phrygian => "Phrygian"@,
        ScaleMode::Lydian => "Lydian"@,
        ScaleMode::Mixolydian => "Mixolydian"@,
        ScaleMode::Aeolian => "Aeolian"@,
        ScaleMode::HarmonicMinor => "Harmonic Minor"@,
        ScaleMode::MelodicMinor => "Melodic Minor"@,
        ScaleMode::PentatonicMajor => "Major Pentatonic"@,
        ScaleMode::PentatonicMinor => "Minor Pentatonic"@,
        ScaleMode::Blues => "Blues"@,
        ScaleMode::WholeTone => "Whole Tone"@,
    }
}

/// The scales to suggest for a genre, by its name, and a chord quality.
pub open spec fn genre_scales(genre: Seq<char>, minor: bool) -> Seq<ScaleMode> {
    if genre == "Blues"@ {
        if minor {
            seq![ScaleMode::Blues, ScaleMode::PentatonicMinor, ScaleMode::Dorian]
        } else {
            seq![ScaleMode::Blues, ScaleMode::PentatonicMajor, ScaleMode::Mixolydian]
        }
    } else if genre == "Rock"@ {
        if minor {
            seq![ScaleMode::PentatonicMinor, ScaleMode::Aeolian, ScaleMode::Dorian]
        } else {
            seq![ScaleMode::PentatonicMajor, ScaleMode::Ionian, ScaleMode::Mixolydian]
        }
    } else if genre == "Jazz"@ {
        if minor {
            seq![ScaleMode::Dorian, ScaleMode::MelodicMinor, ScaleMode::HarmonicMinor]
        } else {
            seq![ScaleMode::Ionian, ScaleMode::Lydian, ScaleMode::Mixolydian]
        }
    } else if genre == "Metal"@ {
        if minor {
            seq![ScaleMode::Phrygian, ScaleMode::Aeolian, ScaleMode::HarmonicMinor]
        } else {
            seq![ScaleMode::Phrygian, ScaleMode::Mixolydian, ScaleMode::WholeTone]
        }
    } else if minor {
        seq![ScaleMode::Dorian, ScaleMode::PentatonicMinor, ScaleMode::Mixolydian]
    } else {
        seq![ScaleMode::Mixolydian, ScaleMode::PentatonicMajor, ScaleMode::Ionian]
    }
}

/// The suggestions for each genre are the scales that genre calls for, in
/// order, each shown under its own name: for Rock over a minor chord, the
/// minor pentatonic, then Aeolian, then Dorian.
pub proof fn law_suggestions_per_genre(g: int, minor: bool)
    requires
        0 <= g < 5,
    ensures
        suggestions_for(g, minor).len() == genre_scales(genre_label(g), minor).len(),
        forall|k: int|
            0 <= k < suggestions_for(g, minor).len() ==> (#[trigger] suggestions_for(g, minor)[k]).1
                == genre_scales(genre_label(g), minor)[k] && suggestions_for(g, minor)[k].0
                == mode_name(suggestions_for(g, minor)[k].1),
{
    reveal_strlit("Blues");
    reveal_strlit("Rock");
    reveal_strlit("Jazz");
    reveal_strlit("Metal");
    reveal_strlit("Funk");
    assert("Rock"@[0] != "Blues"@[0]);
    assert("Jazz"@[0] != "Blues"@[0] && "Jazz"@[0] != "Rock"@[0]);
    assert("Metal"@[0] != "Blues"@[0] && "Metal"@[0] != "Rock"@[0] && "Metal"@[0] != "Jazz"@[0]);
    assert("Funk"@[0] != "Blues"@[0] && "Funk"@[0] != "Rock"@[0] && "Funk"@[0] != "Jazz"@[0]
        && "Funk"@[0] != "Metal"@[0]);
    let s = suggestions_for(g, minor);
    let t = genre_scales(genre_label(g), minor);
    assert(s.len() == 3 && t.len() == 3);
    assert(s[0].1 == t[0] && s[1].1 == t[1] && s[2].1 == t[2]);
    assert(s[0].0 == mode_name(s[0].1) && s[1].0 == mode_name(s[1].1) && s[2].0 == mode_name(s[2].1));
    assert forall|k: int| 0 <= k < s.len() implies (#[trigger] s[k]).1 == t[k] && s[k].0 == mode_name(
        s[k].1,
    ) by {
        assert(k == 0 || k == 1 || k == 2);
    }
}

/// A pentatonic suggestion always agrees with the chord: no minor chord gets
/// the major pentatonic and no major chord the minor pentatonic.
pub proof fn law_pentatonic_follows_quality(g: int, minor: bool, k: int)
    requires
        0 <= k < suggestions_for(g, minor).len(),
    ensures
        minor ==> suggestions_for(g, minor)[k].1 != ScaleMode::PentatonicMajor,
        !minor ==> suggestions_for(g, minor)[k].1 != ScaleMode::PentatonicMinor,
{
}

/// The pitch classes of the open strings in standard tuning, from the high E
/// string down to the low E string: E, B, G, D, A, E.
pub open spec fn standard_tuning_high_to_low() -> Seq<int> {
    seq![4, 11, 7, 2, 9, 4]
}

/// The fretboard shows each string of a guitar in standard tuning: on row `r`
/// (high E first) fret `f` sounds the open string's pitch class raised by `f`
/// semitones, and is marked as that pitch class is in the scale.
pub proof fn law_fretboard_is_standard_tuning(root: u8, scale: Seq<u8>, r: int, f: int)
    requires
        0 <= r < 6,
        0 <= f <= 12,
    ensures
        fretboard(root, scale).len() == 6,
        fretboard(root, scale)[r].len() == 13,
        fretboard(root, scale)[r][f] == fret_mark(
            ((standard_tuning_high_to_low()[r] + f) % 12) as u8,
            root,
            scale,
        ),
{
}

/// The genre a track's text names is the first of blues, rock, jazz, metal and
/// funk that its normalised text contains; with none of them, no genre.
pub proof fn law_genre_is_first_named(text: Seq<char>)
    ensures
        contains_seq(normalized_text(text), "blues"@) ==> inferred_genre(text) == Some("Blues"@),
        !contains_seq(normalized_text(text), "blues"@) && contains_seq(normalized_text(text), "rock"@)
            ==> inferred_genre(text) == Some("Rock"@),
        !contains_seq(normalized_text(text), "blues"@) && !contains_seq(normalized_text(text), "rock"@)
            && contains_seq(normalized_text(text), "jazz"@) ==> inferred_genre(text) == Some("Jazz"@),
        !contains_seq(normalized_text(text), "blues"@) && !contains_seq(normalized_text(text), "rock"@)
            && !contains_seq(normalized_text(text), "jazz"@) && contains_seq(normalized_text(text), "metal"@)
            ==> inferred_genre(text) == Some("Metal"@),
        !contains_seq(normalized_text(text), "blues"@) && !contains_seq(normalized_text(text), "rock"@)
            && !contains_seq(normalized_text(text), "jazz"@) && !contains_seq(normalized_text(text), "metal"@)
            && contains_seq(normalized_text(text), "funk"@) ==> inferred_genre(text) == Some("Funk"@),
        !contains_seq(normalized_text(text), "blues"@) && !contains_seq(normalized_text(text), "rock"@)
            && !contains_seq(normalized_text(text), "jazz"@) && !contains_seq(normalized_text(text), "metal"@)
            && !contains_seq(normalized_text(text), "funk"@) ==> inferred_genre(text) is None,
{
}

/// The seventeen ways a key is written in a track's text: each natural letter,
/// and each sharp or flat written with `#` or `b`.
pub open spec fn key_spellings() -> Seq<Seq<char>> {
    seq![
        seq!['c'], seq!['c', '#'], seq!['d', 'b'], seq!['d'], seq!['d', '#'], seq!['e', 'b'],
        seq!['e'], seq!['f'], seq!['f', '#'], seq!['g', 'b'], seq!['g'], seq!['g', '#'],
        seq!['a', 'b'], seq!['a'], seq!['a', '#'], seq!['b', 'b'], seq!['b'],
    ]
}

/// A word of the text that is a key followed by `m` (`em`, `f#m`, `bbm`, ...)
/// makes the inferred quality minor.
pub proof fn law_minor_key_word_means_minor(text: Seq<char>, j: int, i: int)
    requires
        0 <= j < key_spellings().len(),
        0 <= i < split_ws(normalized_text(text)).len(),
        split_ws(normalized_text(text))[i] == key_spellings()[j].push('m'),
    ensures
        inferred_quality(text) == Some("Minor"@),
{
    let tokens = split_ws(normalized_text(text));
    let t = tokens[i];
    assert(t.drop_last() =~= key_spellings()[j]);
    assert(t.last() == 'm');
    assert(crate::inference::minor_key_token(t));
}

/// Outside query typing, a letter key does the same whether typed in upper or
/// lower case, on every tab and in either tuning mode: `m` and `M` both switch
/// the tuning mode on the Tuner tab.
pub proof fn law_keys_ignore_case(tab: AppTab, mode: TuningMode, c: char)
    ensures
        command_for(tab, mode, false, Key::Char(c)) == command_for(
            tab,
            mode,
            false,
            Key::Char(ascii_lower(c)),
        ),
        command_for(AppTab::Tuner, mode, false, Key::Char('m')) == Command::ToggleTuningMode,
        command_for(AppTab::Tuner, mode, false, Key::Char('M')) == Command::ToggleTuningMode,
{
}

/// The pitch class each of the seventeen key spellings names, in the order of
/// `key_spellings`: C 0, C♯/D♭ 1, ... B 11.
pub open spec fn key_spelling_classes() -> Seq<u8> {
    seq![0, 1, 1, 2, 3, 3, 4, 5, 6, 6, 7, 8, 8, 9, 10, 10, 11]
}

/// What may follow a key in a word: nothing, `m` or `min`.
pub open spec fn key_suffixes() -> Seq<Seq<char>> {
    seq![seq![], seq!['m'], seq!['m', 'i', 'n']]
}

/// A word that spells a key, alone or followed by `m` or `min`, names the root
/// of that pitch class: `db`, `c#m` and `c#min` all name C sharp.
pub proof fn law_key_words_name_their_pitch(j: int, k: int)
    requires
        0 <= j < key_spellings().len(),
        0 <= k < key_suffixes().len(),
    ensures
        root_of_token(key_spellings()[j] + key_suffixes()[k]) matches Some(p) && pitch_class_of(p)
            == key_spelling_classes()[j],
{
    let w = key_spellings()[j] + key_suffixes()[k];
    let p = root_trim_pred();
    assert(w.len() >= 1);
    assert(!p(w[0]));
    assert(drop_front_while(w, p) == w);
    assert(!p(w.last()));
    assert(drop_back_while(w, p) == w);
    assert(trim_by(w, p) == w);
    if k == 0 {
        assert(w =~= key_spellings()[j]);
    } else if k == 1 {
        assert(w.drop_last() =~= key_spellings()[j]);
    } else {
        assert(w.skip(w.len() - 3) =~= seq!['m', 'i', 'n']);
        assert(w.take(w.len() - 3) =~= key_spellings()[j]);
        assert(w.drop_last() =~= key_spellings()[j].push('m').push('i'));
    }
}

/// A note is marked on the fretboard exactly when it is in the scale, and it is
/// marked as the root exactly when it is also the root.
pub proof fn law_fret_marks_follow_the_scale(note: u8, root: u8, scale: Seq<u8>)
    ensures
        (fret_mark(note, root, scale) == FretMark::Empty) == !scale.contains(note),
        (fret_mark(note, root, scale) == FretMark::Root) == (scale.contains(note) && note == root),
        (fret_mark(note, root, scale) == FretMark::Scale) == (scale.contains(note) && note != root),
{
}

/// A quality word in a track's text (`minor`, `min`, `dorian` or `aeolian`,
/// standing between spaces) makes the inferred quality minor.
pub proof fn law_minor_words_mean_minor(text: Seq<char>)
    ensures
        contains_seq(normalized_text(text), " minor "@) || contains_seq(normalized_text(text), " min "@)
            || contains_seq(normalized_text(text), " dorian "@) || contains_seq(
            normalized_text(text),
            " aeolian "@,
        ) ==> inferred_quality(text) == Some("Minor"@),
{
}

/// The keys the README lists do what it says, whatever the tuning mode.
pub proof fn law_listed_keys(mode: TuningMode)
    ensures
        command_for(AppTab::Groove, mode, false, Key::Tab) == Command::NextTab,
        command_for(AppTab::Tuner, mode, false, Key::Char('q')) == Command::Quit,
        command_for(AppTab::Groove, mode, false, Key::Char(' ')) == Command::TogglePlay,
        command_for(AppTab::Groove, mode, false, Key::Up) == Command::IncreaseBpm,
        command_for(AppTab::Groove, mode, false, Key::Down) == Command::DecreaseBpm,
        command_for(AppTab::Groove, mode, false, Key::Left) == Command::PrevRoot,
        command_for(AppTab::Groove, mode, false, Key::Right) == Command::NextRoot,
        command_for(AppTab::Groove, mode, false, Key::Char(',')) == Command::SelectMinor,
        command_for(AppTab::Groove, mode, false, Key::Char('.')) == Command::SelectMajor,
        command_for(AppTab::Groove, mode, false, Key::Char('g')) == Command::PrevGenre,
        command_for(AppTab::Groove, mode, false, Key::Char('h')) == Command::NextGenre,
        command_for(AppTab::Tuner, mode, false, Key::Char(' ')) == Command::ToggleCapture,
        command_for(AppTab::Tuner, mode, false, Key::Left) == Command::PrevDevice,
        command_for(AppTab::Tuner, mode, false, Key::Right) == Command::NextDevice,
        command_for(AppTab::Tuner, mode, false, Key::Up) == Command::IncreaseGain,
        command_for(AppTab::Tuner, mode, false, Key::Down) == Command::DecreaseGain,
        command_for(AppTab::Tuner, TuningMode::Manual, false, Key::Char('a')) == Command::PrevString,
        command_for(AppTab::Tuner, TuningMode::Manual, false, Key::Char('d')) == Command::NextString,
        command_for(AppTab::Tuner, TuningMode::Auto, false, Key::Char('a')) == Command::Nothing,
        command_for(AppTab::Tuner, TuningMode::Auto, false, Key::Char('d')) == Command::Nothing,
        command_for(AppTab::Backing, mode, false, Key::Char('/')) == Command::BeginSearchEdit,
        command_for(AppTab::Backing, mode, false, Key::Enter) == Command::SubmitSearch,
        command_for(AppTab::Backing, mode, false, Key::Esc) == Command::CancelSearchEdit,
        command_for(AppTab::Backing, mode, false, Key::Up) == Command::PrevResult,
        command_for(AppTab::Backing, mode, false, Key::Down) == Command::NextResult,
        command_for(AppTab::Backing, mode, false, Key::Char(' ')) == Command::ToggleSelected,
        command_for(AppTab::Backing, mode, false, Key::Char('f')) == Command::ToggleFavorite,
        command_for(AppTab::Backing, mode, false, Key::Char('v')) == Command::ToggleLibraryView,
        command_for(AppTab::Backing, mode, false, Key::Char('s')) == Command::StopTrack,
{
}

// ---------------------------------------------------------------------------
// Numbers on screen read back as the numbers they show
// ---------------------------------------------------------------------------

/// The ten decimal digits.
pub open spec fn is_digit(c: char) -> bool {
    '0' <= c && c <= '9'
}

/// The value of a decimal digit.
pub open spec fn digit_value(c: char) -> int {
    (c as int) - ('0' as int)
}

/// The number a string of decimal digits spells.
pub open spec fn digits_value(s: Seq<char>) -> int
    decreases s.len(),
{
    if s.len() == 0 {
        0
    } else {
        digits_value(s.drop_last()) * 10 + digit_value(s.last())
    }
}

/// A string made only of decimal digits.
pub open spec fn all_digits(s: Seq<char>) -> bool {
    forall|i: int| 0 <= i < s.len() ==> is_digit(#[trigger] s[i])
}

/// A number is written with digits only, without a leading zero, and the
/// digits read back as the number.
pub proof fn law_decimal_reads_back(n: nat)
    ensures
        decimal(n).len() >= 1,
        all_digits(decimal(n)),
        digits_value(decimal(n)) == n,
        n > 0 ==> decimal(n)[0] != '0',
        decimal(n).len() > 1 ==> decimal(n)[0] != '0',
    decreases n,
{
    let d = (n % 10) as int;
    assert(digit_value(crate::text::digit_char(d)) == d && is_digit(crate::text::digit_char(d))) by {
        assert(0 <= d < 10);
    }
    if n >= 10 {
        law_decimal_reads_back(n / 10);
        let s = decimal(n);
        assert(s.drop_last() == decimal(n / 10));
        assert(s.last() == crate::text::digit_char(d));
        assert forall|i: int| 0 <= i < s.len() implies is_digit(#[trigger] s[i]) by {
            if i < s.len() - 1 {
                assert(s[i] == decimal(n / 10)[i]);
            }
        }
        assert((n / 10) * 10 + n % 10 == n);
        assert(digits_value(s) == digits_value(s.drop_last()) * 10 + digit_value(s.last()));
        assert(digits_value(s) == (n / 10) * 10 + d);
        assert(s[0] == decimal(n / 10)[0]);
    } else {
        let s = decimal(n);
        assert(s == seq![crate::text::digit_char(n as int)]);
        assert(s.drop_last() =~= Seq::<char>::empty());
        assert(digits_value(s) == digits_value(s.drop_last()) * 10 + digit_value(s.last()));
        assert(n > 0 ==> crate::text::digit_char(n as int) != '0');
    }
}

/// A number below 60 is written with exactly two digits that read back as it.
pub proof fn law_two_digits_read_back(n: nat)
    requires
        n < 60,
    ensures
        decimal2(n).len() == 2,
        all_digits(decimal2(n)),
        digits_value(decimal2(n)) == n,
{
    law_decimal_reads_back(n);
    if n < 10 {
        let s = decimal2(n);
        assert(s.drop_last() =~= seq!['0']);
        assert(digits_value(seq!['0']) == digits_value(seq!['0'].drop_last()) * 10 + digit_value('0'));
        assert(seq!['0'].drop_last() =~= Seq::<char>::empty());
    } else {
        law_decimal_reads_back(n / 10);
        assert(n / 10 < 10);
        assert(decimal(n / 10).len() == 1);
    }
}

/// A track length shown as `m:ss` reads back as that length: the minutes
/// before the colon, then exactly two digits of seconds below sixty.
pub proof fn law_minutes_label_reads_back(seconds: nat)
    ensures
        minutes_label(seconds).len() >= 4,
        minutes_label(seconds)[minutes_label(seconds).len() - 3] == ':',
        all_digits(minutes_label(seconds).take(minutes_label(seconds).len() - 3)),
        all_digits(minutes_label(seconds).skip(minutes_label(seconds).len() - 2)),
        digits_value(minutes_label(seconds).skip(minutes_label(seconds).len() - 2)) < 60,
        digits_value(minutes_label(seconds).take(minutes_label(seconds).len() - 3)) * 60
            + digits_value(minutes_label(seconds).skip(minutes_label(seconds).len() - 2)) == seconds,
{
    let m = decimal(seconds / 60);
    let sec = decimal2(seconds % 60);
    law_decimal_reads_back(seconds / 60);
    law_two_digits_read_back(seconds % 60);
    let l = minutes_label(seconds);
    reveal_strlit(":");
    assert(l == m + seq![':'] + sec);
    assert(l.take(l.len() - 3) =~= m);
    assert(l.skip(l.len() - 2) =~= sec);
    assert((seconds / 60) * 60 + seconds % 60 == seconds);
}

/// The player clock reads back as the position it shows: `m:ss` under an
/// hour, else `h:mm:ss`, with minutes and seconds below sixty.
pub proof fn law_clock_label_reads_back(seconds: nat)
    ensures
        seconds < 3600 ==> clock_label(seconds) == minutes_label(seconds),
        seconds >= 3600 ==> {
            let l = clock_label(seconds);
            let n = l.len();
            &&& n >= 7
            &&& l[n - 3] == ':' && l[n - 6] == ':'
            &&& all_digits(l.take(n - 6)) && all_digits(l.subrange(n - 5, n - 3))
                && all_digits(l.skip(n - 2))
            &&& digits_value(l.take(n - 6)) >= 1
            &&& digits_value(l.subrange(n - 5, n - 3)) < 60 && digits_value(l.skip(n - 2)) < 60
            &&& digits_value(l.take(n - 6)) * 3600 + digits_value(l.subrange(n - 5, n - 3)) * 60
                + digits_value(l.skip(n - 2)) == seconds
        },
{
    reveal_strlit(":");
    if seconds < 3600 {
        law_short_lengths_agree(seconds);
    } else {
        let h = decimal(seconds / 3600);
        let mm = decimal2((seconds % 3600) / 60);
        let ss = decimal2(seconds % 60);
        law_decimal_reads_back(seconds / 3600);
        law_two_digits_read_back((seconds % 3600) / 60);
        law_two_digits_read_back(seconds % 60);
        let l = clock_label(seconds);
        let n = l.len();
        assert(l == h + seq![':'] + mm + seq![':'] + ss);
        assert(l.take(n - 6) =~= h);
        assert(l.subrange(n - 5, n - 3) =~= mm);
        assert(l.skip(n - 2) =~= ss);
        assert((seconds / 3600) * 3600 + ((seconds % 3600) / 60) * 60 + seconds % 60 == seconds);
    }
}

// ---------------------------------------------------------------------------
// Cells and sample windows
// ---------------------------------------------------------------------------

/// `n` spaces.
pub open spec fn spaces(n: nat) -> Seq<char> {
    Seq::new(n, |i: int| ' ')
}

/// A centred cell is exactly `width` wide. A text that fits stands between
/// runs of spaces whose lengths differ by at most one, the longer on the right;
/// a longer text is cut to its first `width` characters.
pub proof fn law_centered_cell_fits(text: Seq<char>, width: nat)
    ensures
        centered(text, width).len() == width,
        text.len() >= width ==> centered(text, width) == text.take(width as int),
        text.len() < width ==> exists|left: nat, right: nat|
            #![trigger spaces(left), spaces(right)]
            centered(text, width) == spaces(left) + text + spaces(right) && left <= right
                <= left + 1,
{
    if width > 0 && text.len() < width {
        let pad = (width - text.len()) as nat;
        let left = pad / 2;
        let right = (pad - left) as nat;
        assert(centered(text, width) =~= spaces(left) + text + spaces(right));
    } else if width == 0 {
        assert(centered(text, width) =~= text.take(0));
    }
}

/// The analysis window is exactly `size` long and ends with the newest
/// samples; when there are fewer samples it starts with `fill`.
pub proof fn law_window_ends_with_newest<T>(samples: Seq<T>, size: nat, fill: T)
    ensures
        window(samples, size, fill).len() == size,
        forall|i: int|
            0 <= i < size && i < samples.len() ==> #[trigger] window(samples, size, fill)[size - 1 - i]
                == samples[samples.len() - 1 - i],
        forall|i: int|
            0 <= i < size - samples.len() ==> #[trigger] window(samples, size, fill)[i] == fill,
{
}

/// The blocks, one after another.
pub open spec fn joined_blocks<T>(blocks: Seq<Seq<T>>) -> Seq<T>
    decreases blocks.len(),
{
    if blocks.len() == 0 {
        Seq::empty()
    } else {
        joined_blocks(blocks.drop_last()) + blocks.last()
    }
}

/// Gathering loses and reorders nothing: the blocks handed out, followed by
/// the block still pending, are the pending frames followed by the new ones.
pub proof fn law_gathering_keeps_every_frame<T>(pending: Seq<T>, frames: Seq<T>, target: nat)
    ensures
        joined_blocks(gathered(pending, frames, target).0) + gathered(pending, frames, target).1
            == pending + frames,
    decreases frames.len(),
{
    if frames.len() > 0 {
        law_gathering_keeps_every_frame(pending, frames.drop_last(), target);
        let (blocks, current) = gathered(pending, frames.drop_last(), target);
        let next = current.push(frames.last());
        assert(pending + frames =~= (pending + frames.drop_last()).push(frames.last()));
        if next.len() >= target {
            assert(blocks.push(next).drop_last() =~= blocks);
            assert(joined_blocks(blocks.push(next)) + Seq::<T>::empty() =~= joined_blocks(blocks)
                + next);
        }
        assert(joined_blocks(blocks) + next =~= (joined_blocks(blocks) + current).push(frames.last()));
    } else {
        assert(joined_blocks(Seq::<Seq<T>>::empty()) + pending =~= pending + frames);
    }
}

/// Taking every `step`-th sample keeps the samples at positions 0, `step`,
/// `2 * step`, ...: the `i`-th one kept is the sample at `i * step`.
pub proof fn law_every_nth_picks<T>(s: Seq<T>, step: nat, i: nat)
    requires
        step > 0,
        i * step < s.len(),
    ensures
        i < every_nth(s, step).len(),
        every_nth(s, step)[i as int] == s[(i * step) as int],
    decreases i,
{
    if i > 0 {
        assert(i * step >= step) by (nonlinear_arith)
            requires
                i >= 1,
                step > 0,
        ;
        assert((i - 1) * step + step == i * step) by (nonlinear_arith);
        let rest = s.skip(step as int);
        assert(((i - 1) as nat) * step < rest.len());
        law_every_nth_picks(rest, step, (i - 1) as nat);
        assert(every_nth(s, step) == seq![s[0]] + every_nth(rest, step));
        assert(rest[(((i - 1) as nat) * step) as int] == s[(i * step) as int]);
        assert(every_nth(s, step)[i as int] == every_nth(rest, step)[i - 1]);
    } else {
        assert(i * step == 0) by (nonlinear_arith)
            requires
                i == 0,
        ;
        assert(every_nth(s, step)[0] == s[0]);
    }
}

/// Trimming keeps exactly the stretch from the first to the last character
/// that is not whitespace: given where that stretch starts and ends, the
/// trimmed text is that stretch (empty when the text is all whitespace).
pub proof fn law_trim_keeps_the_inner_stretch(s: Seq<char>, i: int, j: int)
    requires
        0 <= i <= j <= s.len(),
        forall|k: int| 0 <= k < i ==> is_ws(#[trigger] s[k]),
        forall|k: int| j <= k < s.len() ==> is_ws(#[trigger] s[k]),
        i < j ==> !is_ws(s[i]) && !is_ws(s[j - 1]),
        i == j ==> i == s.len(),
    ensures
        trim_ws(s) == s.subrange(i, j),
{
    let p = ws_pred();
    assert forall|k: int| 0 <= k < i implies p(#[trigger] s[k]) by {}
    lemma_drop_front_while(s, p, i);
    let t = s.skip(i);
    assert forall|k: int| j - i <= k < t.len() implies p(#[trigger] t[k]) by {
        assert(t[k] == s[k + i]);
    }
    if j - i > 0 {
        assert(t[j - i - 1] == s[j - 1]);
    }
    lemma_drop_back_while(t, p, j - i);
    assert(t.take(j - i) =~= s.subrange(i, j));
}

} // verus!
