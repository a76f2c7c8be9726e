//! The Groove tab's harmony state: a root pitch, a chord quality and a genre,
//! each chosen from a fixed list, with the scale suggestions that follow from
//! them. Note spellings come from `rust_music_theory`.
use vstd::prelude::*;

use rust_music_theory::chord::{Chord, Number as ChordNumber, Quality as ChordQuality};
use rust_music_theory::note::{Notes, Pitch, PitchSymbol};
use rust_music_theory::scale::{Direction, Mode, Scale, ScaleType};

use crate::text::{
    ascii_lower, ascii_lower_seq, chars_eq, chars_of, join, join_strings, lower_chars,
    owned, string_views, trim_whitespace, trim_ws,
};

verus! {

/// Number of selectable root pitches (the chromatic scale from C).
pub const ROOT_PITCH_COUNT: usize = 12;

/// Number of selectable genres.
pub const GENRE_COUNT: usize = 5;

/// Number of selectable chord qualities.
pub const CHORD_QUALITY_COUNT: usize = 2;

/// The octave in which scales are spelled.
pub const SCALE_OCTAVE: i16 = 4;

/// The selectable root pitches, in chromatic order from C.
#[derive(Clone, Copy, Debug, PartialEq, Eq, Structural)]
pub enum RootPitch {
    C,
    Cs,
    D,
    Ds,
    E,
    F,
    Fs,
    G,
    Gs,
    A,
    As,
    B,
}

/// The selectable chord qualities: a major or a minor triad.
#[derive(Clone, Copy, Debug, PartialEq, Eq, Structural)]
pub enum TriadQuality {
    Major,
    Minor,
}

/// The scale modes that the suggestions draw on.
#[derive(Clone, Copy, Debug, PartialEq, Eq, Structural)]
pub enum ScaleMode {
    Ionian,
    Dorian,
    Phrygian,
    Lydian,
    Mixolydian,
    Aeolian,
    HarmonicMinor,
    MelodicMinor,
    PentatonicMajor,
    PentatonicMinor,
    Blues,
    WholeTone,
}

/// A scale to suggest: its display label and its mode.
#[derive(Clone, Copy, Debug)]
pub struct ScaleSuggestion {
    pub label: &'static str,
    pub mode: ScaleMode,
}

/// The next position in a list of `n`, wrapping from the last to the first.
pub open spec fn cycle_next(i: int, n: int) -> int {
    (i + 1) % n
}

/// The previous position in a list of `n`, wrapping from the first to the last.
pub open spec fn cycle_prev(i: int, n: int) -> int {
    if i == 0 {
        n - 1
    } else {
        i - 1
    }
}

// ---------------------------------------------------------------------------
// The fixed lists
// ---------------------------------------------------------------------------

/// The root pitch at a position of the chromatic list.
pub open spec fn root_pitch_at(i: int) -> RootPitch {
    if i == 0 {
        RootPitch::C
    } else if i == 1 {
        RootPitch::Cs
    } else if i == 2 {
        RootPitch::D
    } else if i == 3 {
        RootPitch::Ds
    } else if i == 4 {
        RootPitch::E
    } else if i == 5 {
        RootPitch::F
    } else if i == 6 {
        RootPitch::Fs
    } else if i == 7 {
        RootPitch::G
    } else if i == 8 {
        RootPitch::Gs
    } else if i == 9 {
        RootPitch::A
    } else if i == 10 {
        RootPitch::As
    } else {
        RootPitch::B
    }
}

/// The pitch class of a root pitch: 0 for C up to 11 for B.
pub open spec fn pitch_class_of(p: RootPitch) -> u8 {
    match p {
        RootPitch::C => 0,
        RootPitch::Cs => 1,
        RootPitch::D => 2,
        RootPitch::Ds => 3,
        RootPitch::E => 4,
        RootPitch::F => 5,
        RootPitch::Fs => 6,
        RootPitch::G => 7,
        RootPitch::Gs => 8,
        RootPitch::A => 9,
        RootPitch::As => 10,
        RootPitch::B => 11,
    }
}

/// How `rust_music_theory` displays a pitch symbol: the letter, then `♯` for a sharp.
pub open spec fn pitch_symbol_chars(p: RootPitch) -> Seq<char> {
    match p {
        RootPitch::C => seq!['C'],
        RootPitch::Cs => seq!['C', '♯'],
        RootPitch::D => seq!['D'],
        RootPitch::Ds => seq!['D', '♯'],
        RootPitch::E => seq!['E'],
        RootPitch::F => seq!['F'],
        RootPitch::Fs => seq!['F', '♯'],
        RootPitch::G => seq!['G'],
        RootPitch::Gs => seq!['G', '♯'],
        RootPitch::A => seq!['A'],
        RootPitch::As => seq!['A', '♯'],
        RootPitch::B => seq!['B'],
    }
}

/// The genre names, in the order they are cycled through.
pub open spec fn genre_label(i: int) -> Seq<char> {
    if i == 0 {
        "Blues"@
    } else if i == 1 {
        "Rock"@
    } else if i == 2 {
        "Jazz"@
    } else if i == 3 {
        "Metal"@
    } else {
        "Funk"@
    }
}

/// The chord quality at a position of the list.
pub open spec fn quality_at(i: int) -> TriadQuality {
    if i == 0 {
        TriadQuality::Major
    } else {
        TriadQuality::Minor
    }
}

/// The label of a chord quality.
pub open spec fn quality_label(q: TriadQuality) -> Seq<char> {
    match q {
        TriadQuality::Major => "Major"@,
        TriadQuality::Minor => "Minor"@,
    }
}

pub fn root_pitch(i: usize) -> (p: RootPitch)
    requires
        i < ROOT_PITCH_COUNT,
    ensures
        p == root_pitch_at(i as int),
{
    match i {
        0 => RootPitch::C,
        1 => RootPitch::Cs,
        2 => RootPitch::D,
        3 => RootPitch::Ds,
        4 => RootPitch::E,
        5 => RootPitch::F,
        6 => RootPitch::Fs,
        7 => RootPitch::G,
        8 => RootPitch::Gs,
        9 => RootPitch::A,
        10 => RootPitch::As,
        _ => RootPitch::B,
    }
}

pub fn genre_name(i: usize) -> (s: &'static str)
    requires
        i < GENRE_COUNT,
    ensures
        s@ == genre_label(i as int),
{
    match i {
        0 => "Blues",
        1 => "Rock",
        2 => "Jazz",
        3 => "Metal",
        _ => "Funk",
    }
}

pub fn triad_quality(i: usize) -> (q: TriadQuality)
    requires
        i < CHORD_QUALITY_COUNT,
    ensures
        q == quality_at(i as int),
{
    if i == 0 {
        TriadQuality::Major
    } else {
        TriadQuality::Minor
    }
}

pub fn quality_name(q: TriadQuality) -> (s: &'static str)
    ensures
        s@ == quality_label(q),
{
    match q {
        TriadQuality::Major => "Major",
        TriadQuality::Minor => "Minor",
    }
}

// ---------------------------------------------------------------------------
// Calls into rust_music_theory
// ---------------------------------------------------------------------------

/// `Display` of `rust_music_theory::note::PitchSymbol`: the crate's `fmt` writes
/// the letter, followed by `♯` for the sharp symbols.
#[verifier::external_body]
fn pitch_symbol_text(p: RootPitch) -> (s: String)
    ensures
        s@ == pitch_symbol_chars(p),
{
    let symbol = match p {
        RootPitch::C => PitchSymbol::C, RootPitch::Cs => PitchSymbol::Cs,
        RootPitch::D => PitchSymbol::D, RootPitch::Ds => PitchSymbol::Ds,
        RootPitch::E => PitchSymbol::E, RootPitch::F => PitchSymbol::F,
        RootPitch::Fs => PitchSymbol::Fs, RootPitch::G => PitchSymbol::G,
        RootPitch::Gs => PitchSymbol::Gs, RootPitch::A => PitchSymbol::A,
        RootPitch::As => PitchSymbol::As, RootPitch::B => PitchSymbol::B,
    };
    symbol.to_string()
}

/// `Pitch::from(PitchSymbol)` followed by `Pitch::into_u8`: the crate maps each
/// symbol to its letter and accidental and `into_u8` gives the pitch class
/// (C is 0, each sharp one more than its letter).
#[verifier::external_body]
fn symbol_pitch_class(p: RootPitch) -> (c: u8)
    ensures
        c == pitch_class_of(p),
{
    let symbol = match p {
        RootPitch::C => PitchSymbol::C, RootPitch::Cs => PitchSymbol::Cs,
        RootPitch::D => PitchSymbol::D, RootPitch::Ds => PitchSymbol::Ds,
        RootPitch::E => PitchSymbol::E, RootPitch::F => PitchSymbol::F,
        RootPitch::Fs => PitchSymbol::Fs, RootPitch::G => PitchSymbol::G,
        RootPitch::Gs => PitchSymbol::Gs, RootPitch::A => PitchSymbol::A,
        RootPitch::As => PitchSymbol::As, RootPitch::B => PitchSymbol::B,
    };
    Pitch::from(symbol).into_u8()
}

/// The note names (`Display` of each `Note`) of the triad that
/// `rust_music_theory::chord::Chord::new(Pitch::from_u8(root), quality, Triad)`
/// spells, in the order `Notes::notes` gives them.
pub uninterp spec fn triad_spelling(root: u8, quality: TriadQuality) -> Seq<Seq<char>>;

/// `Chord::new(.., Number::Triad).notes()`, each note rendered with `to_string`.
/// `Pitch::from_u8(c)` is, in the crate's source, the same pitch as `Pitch::from`
/// of the natural or sharp symbol of class `c`. Nothing is stated of the
/// spelling itself beyond its name.
#[verifier::external_body]
fn triad_note_names(root: u8, quality: TriadQuality) -> (names: Vec<String>)
    requires
        root < 12,
    ensures
        string_views(names@) == triad_spelling(root, quality),
{
    let quality = match quality {
        TriadQuality::Major => ChordQuality::Major,
        TriadQuality::Minor => ChordQuality::Minor,
    };
    let chord = Chord::new(Pitch::from_u8(root), quality, ChordNumber::Triad);
    chord.notes().iter().map(|note| note.to_string()).collect()
}

/// The notes of the ascending scale that
/// `Scale::new(ScaleType::from_mode(mode), Pitch::from_u8(root), octave, Some(mode), Ascending)`
/// builds, each as its name (`Display` of the note) and its pitch class
/// (`Pitch::into_u8`); `None` where `Scale::new` returns an error.
pub uninterp spec fn scale_spelling(mode: ScaleMode, root: u8, octave: i16) -> Option<
    Seq<(Seq<char>, u8)>,
>;

pub open spec fn note_views(v: Seq<(String, u8)>) -> Seq<(Seq<char>, u8)> {
    v.map_values(|n: (String, u8)| (n.0@, n.1))
}

/// `Scale::new` then `Notes::notes`, each note as `(to_string, pitch.into_u8())`.
/// The scale type passed is `ScaleType::from_mode(mode)`, which is, for every
/// mode that the suggestions use, the type that the suggestion names.
/// Whether `Scale::new` fails, and the spellings, are left to the name.
#[verifier::external_body]
fn ascending_scale_notes(mode: ScaleMode, root: u8, octave: i16) -> (notes: Option<
    Vec<(String, u8)>,
>)
    requires
        root < 12,
    ensures
        notes.is_some() == scale_spelling(mode, root, octave).is_some(),
        notes.is_some() ==> note_views(notes->0@) == scale_spelling(mode, root, octave)->0,
{
    let mode = match mode {
        ScaleMode::Ionian => Mode::Ionian, ScaleMode::Dorian => Mode::Dorian,
        ScaleMode::Phrygian => Mode::Phrygian, ScaleMode::Lydian => Mode::Lydian,
        ScaleMode::Mixolydian => Mode::Mixolydian, ScaleMode::Aeolian => Mode::Aeolian,
        ScaleMode::HarmonicMinor => Mode::HarmonicMinor, ScaleMode::MelodicMinor => Mode::MelodicMinor,
        ScaleMode::PentatonicMajor => Mode::PentatonicMajor, ScaleMode::PentatonicMinor => Mode::PentatonicMinor,
        ScaleMode::Blues => Mode::Blues, ScaleMode::WholeTone => Mode::WholeTone,
    };
    let tonic = Pitch::from_u8(root);
    let scale = Scale::new(ScaleType::from_mode(mode), tonic, octave, Some(mode), Direction::Ascending).ok()?;
    Some(scale.notes().iter().map(|note| (note.to_string(), note.pitch.into_u8())).collect())
}

// ---------------------------------------------------------------------------
// Scale suggestions
// ---------------------------------------------------------------------------

/// A suggestion as a plain value: its label and its mode.
pub open spec fn suggestion_view(s: ScaleSuggestion) -> (Seq<char>, ScaleMode) {
    (s.label@, s.mode)
}

pub open spec fn suggestion_views(v: Seq<ScaleSuggestion>) -> Seq<(Seq<char>, ScaleMode)> {
    v.map_values(|s: ScaleSuggestion| suggestion_view(s))
}

/// The scales suggested for a genre (by its position in the genre list) and a
/// chord quality, in the order they are shown.
pub open spec fn suggestions_for(genre: int, minor: bool) -> Seq<(Seq<char>, ScaleMode)> {
    if genre == 0 {
        if minor {
            seq![("Blues"@, ScaleMode::Blues), ("Minor Pentatonic"@, ScaleMode::PentatonicMinor), ("Dorian"@, ScaleMode::Dorian)]
        } else {
            seq![("Blues"@, ScaleMode::Blues), ("Major Pentatonic"@, ScaleMode::PentatonicMajor), ("Mixolydian"@, ScaleMode::Mixolydian)]
        }
    } else if genre == 1 {
        if minor {
            seq![("Minor Pentatonic"@, ScaleMode::PentatonicMinor), ("Aeolian"@, ScaleMode::Aeolian), ("Dorian"@, ScaleMode::Dorian)]
        } else {
            seq![("Major Pentatonic"@, ScaleMode::PentatonicMajor), ("Ionian"@, ScaleMode::Ionian), ("Mixolydian"@, ScaleMode::Mixolydian)]
        }
    } else if genre == 2 {
        if minor {
            seq![("Dorian"@, ScaleMode::Dorian), ("Melodic Minor"@, ScaleMode::MelodicMinor), ("Harmonic Minor"@, ScaleMode::HarmonicMinor)]
        } else {
            seq![("Ionian"@, ScaleMode::Ionian), ("Lydian"@, ScaleMode::Lydian), ("Mixolydian"@, ScaleMode::Mixolydian)]
        }
    } else if genre == 3 {
        if minor {
            seq![("Phrygian"@, ScaleMode::Phrygian), ("Aeolian"@, ScaleMode::Aeolian), ("Harmonic Minor"@, ScaleMode::HarmonicMinor)]
        } else {
            seq![("Phrygian"@, ScaleMode::Phrygian), ("Mixolydian"@, ScaleMode::Mixolydian), ("Whole Tone"@, ScaleMode::WholeTone)]
        }
    } else if genre == 4 {
        if minor {
            seq![("Dorian"@, ScaleMode::Dorian), ("Minor Pentatonic"@, ScaleMode::PentatonicMinor), ("Mixolydian"@, ScaleMode::Mixolydian)]
        } else {
            seq![("Mixolydian"@, ScaleMode::Mixolydian), ("Major Pentatonic"@, ScaleMode::PentatonicMajor), ("Ionian"@, ScaleMode::Ionian)]
        }
    } else {
        seq![("Ionian"@, ScaleMode::Ionian)]
    }
}

/// Every genre and quality has at least one suggestion.
pub proof fn lemma_suggestions_nonempty(genre: int, minor: bool)
    ensures
        suggestions_for(genre, minor).len() >= 1,
{
}

impl ScaleSuggestion {
    pub fn new(label: &'static str, mode: ScaleMode) -> (s: Self)
        ensures
            s.label == label,
            s.mode == mode,
    {
        ScaleSuggestion { label, mode }
    }
}

fn three(a: ScaleSuggestion, b: ScaleSuggestion, c: ScaleSuggestion) -> (v: Vec<ScaleSuggestion>)
    ensures
        v@ == seq![a, b, c],
{
    let mut v: Vec<ScaleSuggestion> = Vec::new();
    v.push(a);
    v.push(b);
    v.push(c);
    assert(v@ =~= seq![a, b, c]);
    v
}

/// The scales suggested for a genre and a chord quality.
pub fn scale_suggestions_for_genre(genre: usize, minor: bool) -> (v: Vec<ScaleSuggestion>)
    ensures
        suggestion_views(v@) == suggestions_for(genre as int, minor),
{
    let v = if genre == 0 {
        if minor {
            three(ScaleSuggestion::new("Blues", ScaleMode::Blues), ScaleSuggestion::new("Minor Pentatonic", ScaleMode::PentatonicMinor), ScaleSuggestion::new("Dorian", ScaleMode::Dorian))
        } else {
            three(ScaleSuggestion::new("Blues", ScaleMode::Blues), ScaleSuggestion::new("Major Pentatonic", ScaleMode::PentatonicMajor), ScaleSuggestion::new("Mixolydian", ScaleMode::Mixolydian))
        }
    } else if genre == 1 {
        if minor {
            three(ScaleSuggestion::new("Minor Pentatonic", ScaleMode::PentatonicMinor), ScaleSuggestion::new("Aeolian", ScaleMode::Aeolian), ScaleSuggestion::new("Dorian", ScaleMode::Dorian))
        } else {
            three(ScaleSuggestion::new("Major Pentatonic", ScaleMode::PentatonicMajor), ScaleSuggestion::new("Ionian", ScaleMode::Ionian), ScaleSuggestion::new("Mixolydian", ScaleMode::Mixolydian))
        }
    } else if genre == 2 {
        if minor {
            three(ScaleSuggestion::new("Dorian", ScaleMode::Dorian), ScaleSuggestion::new("Melodic Minor", ScaleMode::MelodicMinor), ScaleSuggestion::new("Harmonic Minor", ScaleMode::HarmonicMinor))
        } else {
            three(ScaleSuggestion::new("Ionian", ScaleMode::Ionian), ScaleSuggestion::new("Lydian", ScaleMode::Lydian), ScaleSuggestion::new("Mixolydian", ScaleMode::Mixolydian))
        }
    } else if genre == 3 {
        if minor {
            three(ScaleSuggestion::new("Phrygian", ScaleMode::Phrygian), ScaleSuggestion::new("Aeolian", ScaleMode::Aeolian), ScaleSuggestion::new("Harmonic Minor", ScaleMode::HarmonicMinor))
        } else {
            three(ScaleSuggestion::new("Phrygian", ScaleMode::Phrygian), ScaleSuggestion::new("Mixolydian", ScaleMode::Mixolydian), ScaleSuggestion::new("Whole Tone", ScaleMode::WholeTone))
        }
    } else if genre == 4 {
        if minor {
            three(ScaleSuggestion::new("Dorian", ScaleMode::Dorian), ScaleSuggestion::new("Minor Pentatonic", ScaleMode::PentatonicMinor), ScaleSuggestion::new("Mixolydian", ScaleMode::Mixolydian))
        } else {
            three(ScaleSuggestion::new("Mixolydian", ScaleMode::Mixolydian), ScaleSuggestion::new("Major Pentatonic", ScaleMode::PentatonicMajor), ScaleSuggestion::new("Ionian", ScaleMode::Ionian))
        }
    } else {
        let mut v: Vec<ScaleSuggestion> = Vec::new();
        v.push(ScaleSuggestion::new("Ionian", ScaleMode::Ionian));
        v
    };
    assert(suggestion_views(v@) =~= suggestions_for(genre as int, minor));
    v
}

// ---------------------------------------------------------------------------
// Reading labels back
// ---------------------------------------------------------------------------

/// `#` and `♯` read as `s`; every other character is kept.
pub open spec fn sharp_as_s(c: char) -> char {
    if c == '#' || c == '♯' {
        's'
    } else {
        c
    }
}

/// The comparable form of a pitch label: trimmed, sharps written `s`, ASCII lower case.
pub open spec fn music_token(label: Seq<char>) -> Seq<char> {
    let t = trim_ws(label);
    Seq::new(t.len(), |i: int| ascii_lower(sharp_as_s(t[i])))
}

/// The first position at or after `i` whose displayed pitch symbol reads as `token`.
pub open spec fn root_position_from(token: Seq<char>, i: int) -> Option<int>
    decreases 12 - i,
{
    if i < 0 || i >= 12 {
        None
    } else if music_token(pitch_symbol_chars(root_pitch_at(i))) == token {
        Some(i)
    } else {
        root_position_from(token, i + 1)
    }
}

/// The position of the root pitch that a label names, if any.
pub open spec fn root_position(label: Seq<char>) -> Option<int> {
    root_position_from(music_token(label), 0)
}

/// The comparable form of a quality or genre label: trimmed, ASCII lower case.
pub open spec fn plain_token(label: Seq<char>) -> Seq<char> {
    ascii_lower_seq(trim_ws(label))
}

/// The position of the chord quality that a label names, if any.
pub open spec fn quality_position(label: Seq<char>) -> Option<int> {
    let t = plain_token(label);
    if ascii_lower_seq(quality_label(TriadQuality::Major)) == t {
        Some(0)
    } else if ascii_lower_seq(quality_label(TriadQuality::Minor)) == t {
        Some(1)
    } else {
        None
    }
}

/// The first genre position at or after `i` whose name reads as `token`.
pub open spec fn genre_position_from(token: Seq<char>, i: int) -> Option<int>
    decreases 5 - i,
{
    if i < 0 || i >= 5 {
        None
    } else if ascii_lower_seq(genre_label(i)) == token {
        Some(i)
    } else {
        genre_position_from(token, i + 1)
    }
}

/// The position of the genre that a label names, if any.
pub open spec fn genre_position(label: Seq<char>) -> Option<int> {
    genre_position_from(plain_token(label), 0)
}

fn music_token_chars(label: &str) -> (r: Vec<char>)
    ensures
        r@ == music_token(label@),
{
    let t = trim_whitespace(&chars_of(label));
    let mut r: Vec<char> = Vec::new();
    let mut i: usize = 0;
    while i < t.len()
        invariant
            i <= t.len(),
            t@ == trim_ws(label@),
            r@ =~= Seq::new(i as nat, |k: int| ascii_lower(sharp_as_s(t@[k]))),
        decreases t.len() - i,
    {
        let c = t[i];
        let s = if c == '#' || c == '♯' {
            's'
        } else {
            c
        };
        r.push(crate::text::lower_char(s));
        i = i + 1;
    }
    r
}

/// The comparable form of a pitch label: trimmed, `#` and `♯` written `s`, lower case.
pub fn normalize_music_token(label: &str) -> (r: String)
    ensures
        r@ == music_token(label@),
{
    let v = music_token_chars(label);
    crate::text::string_from_chars(&v)
}

fn plain_token_chars(label: &str) -> (r: Vec<char>)
    ensures
        r@ == plain_token(label@),
{
    let t = trim_whitespace(&chars_of(label));
    lower_chars(&t)
}

/// The position of the root pitch whose displayed symbol reads as `label`.
pub fn find_root_pitch_index(label: &str) -> (r: Option<usize>)
    ensures
        r matches Some(i) ==> root_position(label@) == Some(i as int),
        r is None ==> root_position(label@) is None,
{
    let token = music_token_chars(label);
    let mut i: usize = 0;
    while i < ROOT_PITCH_COUNT
        invariant
            i <= ROOT_PITCH_COUNT,
            token@ == music_token(label@),
            root_position_from(token@, 0) == root_position_from(token@, i as int),
        decreases ROOT_PITCH_COUNT - i,
    {
        let shown = pitch_symbol_text(root_pitch(i));
        let candidate = music_token_chars(shown.as_str());
        if chars_eq(&candidate, &token) {
            return Some(i);
        }
        i = i + 1;
    }
    None
}

/// The position of the chord quality named by `label`, ignoring case and surrounding space.
pub fn find_chord_quality_index(label: &str) -> (r: Option<usize>)
    ensures
        r matches Some(i) ==> quality_position(label@) == Some(i as int),
        r is None ==> quality_position(label@) is None,
{
    let token = plain_token_chars(label);
    let major = lower_chars(&chars_of(quality_name(TriadQuality::Major)));
    if chars_eq(&major, &token) {
        return Some(0);
    }
    let minor = lower_chars(&chars_of(quality_name(TriadQuality::Minor)));
    if chars_eq(&minor, &token) {
        return Some(1);
    }
    None
}

/// The position of the genre named by `label`, ignoring case and surrounding space.
pub fn find_genre_index(label: &str) -> (r: Option<usize>)
    ensures
        r matches Some(i) ==> genre_position(label@) == Some(i as int),
        r is None ==> genre_position(label@) is None,
{
    let token = plain_token_chars(label);
    let mut i: usize = 0;
    while i < GENRE_COUNT
        invariant
            i <= GENRE_COUNT,
            token@ == plain_token(label@),
            genre_position_from(token@, 0) == genre_position_from(token@, i as int),
        decreases GENRE_COUNT - i,
    {
        let name = lower_chars(&chars_of(genre_name(i)));
        if chars_eq(&name, &token) {
            return Some(i);
        }
        i = i + 1;
    }
    None
}

// ---------------------------------------------------------------------------
// The harmony state
// ---------------------------------------------------------------------------

/// The scale line shown for a suggestion: `"<label>: <note> <note> ..."`, or
/// nothing where the scale cannot be built.
pub open spec fn scale_line(suggestion: (Seq<char>, ScaleMode), root: u8) -> Option<Seq<char>> {
    match scale_spelling(suggestion.1, root, SCALE_OCTAVE) {
        Some(notes) => Some(
            suggestion.0 + ": "@ + join(notes.map_values(|n: (Seq<char>, u8)| n.0), " "@),
        ),
        None => None,
    }
}

/// The selected genre, root pitch and chord quality, each a position in its list.
pub struct MusicState {
    genre_index: usize,
    root_pitch_index: usize,
    chord_quality_index: usize,
}

impl MusicState {
    pub closed spec fn genre_pos(&self) -> int {
        self.genre_index as int
    }

    pub closed spec fn root_pos(&self) -> int {
        self.root_pitch_index as int
    }

    pub closed spec fn quality_pos(&self) -> int {
        self.chord_quality_index as int
    }

    /// Every position lies within its list.
    pub open spec fn wf(&self) -> bool {
        &&& 0 <= self.genre_pos() < GENRE_COUNT
        &&& 0 <= self.root_pos() < ROOT_PITCH_COUNT
        &&& 0 <= self.quality_pos() < CHORD_QUALITY_COUNT
    }

    pub open spec fn root(&self) -> RootPitch {
        root_pitch_at(self.root_pos())
    }

    pub open spec fn quality(&self) -> TriadQuality {
        quality_at(self.quality_pos())
    }

    pub open spec fn is_minor(&self) -> bool {
        self.quality() == TriadQuality::Minor
    }

    /// The suggestions for the current genre and quality.
    pub open spec fn suggestions(&self) -> Seq<(Seq<char>, ScaleMode)> {
        suggestions_for(self.genre_pos(), self.is_minor())
    }

    /// Blues, E, major.
    pub fn new() -> (s: Self)
        ensures
            s.wf(),
            genre_label(s.genre_pos()) == "Blues"@,
            s.root() == RootPitch::E,
            s.quality() == TriadQuality::Major,
    {
        MusicState { genre_index: 0, root_pitch_index: 4, chord_quality_index: 0 }
    }

    pub fn genre(&self) -> (g: &'static str)
        requires
            self.wf(),
        ensures
            g@ == genre_label(self.genre_pos()),
    {
        genre_name(self.genre_index)
    }

    /// The root pitch as `rust_music_theory` displays its symbol (`C♯` for C sharp).
    pub fn root_pitch_label(&self) -> (s: String)
        requires
            self.wf(),
        ensures
            s@ == pitch_symbol_chars(self.root()),
    {
        pitch_symbol_text(root_pitch(self.root_pitch_index))
    }

    /// The selected chord quality.
    pub fn chord_quality(&self) -> (q: TriadQuality)
        requires
            self.wf(),
        ensures
            q == self.quality(),
    {
        triad_quality(self.chord_quality_index)
    }

    pub fn chord_quality_label(&self) -> (s: &'static str)
        requires
            self.wf(),
        ensures
            s@ == quality_label(self.quality()),
    {
        quality_name(triad_quality(self.chord_quality_index))
    }

    /// The notes of the root triad, separated by spaces.
    pub fn chord_notes_label(&self) -> (s: String)
        requires
            self.wf(),
        ensures
            s@ == join(triad_spelling(self.root_pos() as u8, self.quality()), " "@),
    {
        let names = triad_note_names(self.root_pitch_index as u8, triad_quality(self.chord_quality_index));
        join_strings(&names, " ")
    }

    fn current_suggestions(&self) -> (v: Vec<ScaleSuggestion>)
        requires
            self.wf(),
        ensures
            suggestion_views(v@) == self.suggestions(),
    {
        let minor = match triad_quality(self.chord_quality_index) {
            TriadQuality::Minor => true,
            TriadQuality::Major => false,
        };
        scale_suggestions_for_genre(self.genre_index, minor)
    }

    /// One line per suggestion whose scale can be built: its label, then its notes.
    pub fn suggested_scales(&self) -> (lines: Vec<String>)
        requires
            self.wf(),
        ensures
            string_views(lines@) == self.suggestions().filter_map(
                |s: (Seq<char>, ScaleMode)| scale_line(s, self.root_pos() as u8),
            ),
    {
        let suggestions = self.current_suggestions();
        let root = self.root_pitch_index as u8;
        let ghost f = |s: (Seq<char>, ScaleMode)| scale_line(s, root);
        let mut lines: Vec<String> = Vec::new();
        let mut i: usize = 0;
        while i < suggestions.len()
            invariant
                i <= suggestions.len(),
                root < 12,
                f == (|s: (Seq<char>, ScaleMode)| scale_line(s, root)),
                string_views(lines@) == suggestion_views(suggestions@).take(i as int).filter_map(f),
            decreases suggestions.len() - i,
        {
            let suggestion = suggestions[i];
            let ghost prefix = suggestion_views(suggestions@).take(i + 1);
            assert(prefix.drop_last() =~= suggestion_views(suggestions@).take(i as int));
            assert(prefix.last() == suggestion_view(suggestion));
            match ascending_scale_notes(suggestion.mode, root, SCALE_OCTAVE) {
                Some(notes) => {
                    let line = scale_line_text(suggestion.label, &notes);
                    let ghost before = lines@;
                    lines.push(line);
                    assert(string_views(lines@) =~= string_views(before).push(line@));
                },
                None => {},
            }
            i = i + 1;
        }
        assert(suggestion_views(suggestions@).take(suggestions.len() as int) =~= suggestion_views(
            suggestions@,
        ));
        lines
    }

    pub fn root_pitch_class(&self) -> (c: u8)
        requires
            self.wf(),
        ensures
            c == pitch_class_of(self.root()),
    {
        symbol_pitch_class(root_pitch(self.root_pitch_index))
    }

    /// The label of the first suggested scale.
    pub fn first_suggested_scale_label(&self) -> (s: String)
        requires
            self.wf(),
        ensures
            s@ == self.suggestions()[0].0,
    {
        let suggestions = self.current_suggestions();
        proof {
            lemma_suggestions_nonempty(self.genre_pos(), self.is_minor());
            if suggestions@.len() > 0 {
                assert(suggestion_views(suggestions@)[0] == suggestion_view(suggestions@[0]));
            }
        }
        if suggestions.len() == 0 {
            owned("(No scale)")
        } else {
            owned(suggestions[0].label)
        }
    }

    /// The pitch classes of the first suggested scale, or none where it cannot be built.
    pub fn first_suggested_scale_pitch_classes(&self) -> (v: Vec<u8>)
        requires
            self.wf(),
        ensures
            v@ == match scale_spelling(self.suggestions()[0].1, self.root_pos() as u8, SCALE_OCTAVE) {
                Some(notes) => notes.map_values(|n: (Seq<char>, u8)| n.1),
                None => Seq::empty(),
            },
    {
        let suggestions = self.current_suggestions();
        proof {
            lemma_suggestions_nonempty(self.genre_pos(), self.is_minor());
            if suggestions@.len() > 0 {
                assert(suggestion_views(suggestions@)[0] == suggestion_view(suggestions@[0]));
            }
        }
        if suggestions.len() == 0 {
            return Vec::new();
        }
        match ascending_scale_notes(suggestions[0].mode, self.root_pitch_index as u8, SCALE_OCTAVE) {
            Some(notes) => {
                note_pitch_classes(&notes)
            },
            None => Vec::new(),
        }
    }

    pub fn next_root_pitch(&mut self)
        requires
            old(self).wf(),
        ensures
            final(self).wf(),
            final(self).root_pos() == cycle_next(old(self).root_pos(), ROOT_PITCH_COUNT as int),
            final(self).genre_pos() == old(self).genre_pos(),
            final(self).quality_pos() == old(self).quality_pos(),
    {
        self.root_pitch_index = (self.root_pitch_index + 1) % ROOT_PITCH_COUNT;
    }

    pub fn prev_root_pitch(&mut self)
        requires
            old(self).wf(),
        ensures
            final(self).wf(),
            final(self).root_pos() == cycle_prev(old(self).root_pos(), ROOT_PITCH_COUNT as int),
            final(self).genre_pos() == old(self).genre_pos(),
            final(self).quality_pos() == old(self).quality_pos(),
    {
        if self.root_pitch_index == 0 {
            self.root_pitch_index = ROOT_PITCH_COUNT - 1;
        } else {
            self.root_pitch_index = self.root_pitch_index - 1;
        }
    }

    pub fn next_chord_quality(&mut self)
        requires
            old(self).wf(),
        ensures
            final(self).wf(),
            final(self).quality_pos() == cycle_next(old(self).quality_pos(), CHORD_QUALITY_COUNT as int),
            final(self).genre_pos() == old(self).genre_pos(),
            final(self).root_pos() == old(self).root_pos(),
    {
        self.chord_quality_index = (self.chord_quality_index + 1) % CHORD_QUALITY_COUNT;
    }

    pub fn prev_chord_quality(&mut self)
        requires
            old(self).wf(),
        ensures
            final(self).wf(),
            final(self).quality_pos() == cycle_prev(old(self).quality_pos(), CHORD_QUALITY_COUNT as int),
            final(self).genre_pos() == old(self).genre_pos(),
            final(self).root_pos() == old(self).root_pos(),
    {
        if self.chord_quality_index == 0 {
            self.chord_quality_index = CHORD_QUALITY_COUNT - 1;
        } else {
            self.chord_quality_index = self.chord_quality_index - 1;
        }
    }

    pub fn next_genre(&mut self)
        requires
            old(self).wf(),
        ensures
            final(self).wf(),
            final(self).genre_pos() == cycle_next(old(self).genre_pos(), GENRE_COUNT as int),
            final(self).root_pos() == old(self).root_pos(),
            final(self).quality_pos() == old(self).quality_pos(),
    {
        self.genre_index = (self.genre_index + 1) % GENRE_COUNT;
    }

    pub fn prev_genre(&mut self)
        requires
            old(self).wf(),
        ensures
            final(self).wf(),
            final(self).genre_pos() == cycle_prev(old(self).genre_pos(), GENRE_COUNT as int),
            final(self).root_pos() == old(self).root_pos(),
            final(self).quality_pos() == old(self).quality_pos(),
    {
        if self.genre_index == 0 {
            self.genre_index = GENRE_COUNT - 1;
        } else {
            self.genre_index = self.genre_index - 1;
        }
    }

    /// Selects the root, quality and genre that the labels name; a missing label,
    /// or one that names nothing, leaves its selection as it was.
    pub fn set_context(&mut self, root: Option<&str>, quality: Option<&str>, genre: Option<&str>)
        requires
            old(self).wf(),
        ensures
            final(self).wf(),
            final(self).root_pos() == root_after(str_view(root), old(self).root_pos()),
            final(self).quality_pos() == quality_after(str_view(quality), old(self).quality_pos()),
            final(self).genre_pos() == genre_after(str_view(genre), old(self).genre_pos()),
    {
        proof {
            lemma_positions_in_range(root, quality, genre);
        }
        if let Some(label) = root {
            if let Some(i) = find_root_pitch_index(label) {
                self.root_pitch_index = i;
            }
        }
        if let Some(label) = quality {
            if let Some(i) = find_chord_quality_index(label) {
                self.chord_quality_index = i;
            }
        }
        if let Some(label) = genre {
            if let Some(i) = find_genre_index(label) {
                self.genre_index = i;
            }
        }
    }
}

pub open spec fn str_view(o: Option<&str>) -> Option<Seq<char>> {
    match o {
        Some(s) => Some(s@),
        None => None,
    }
}

/// The root position after a context label: the root it names, else `current`.
pub open spec fn root_after(label: Option<Seq<char>>, current: int) -> int {
    match label {
        Some(l) => match root_position(l) {
            Some(i) => i,
            None => current,
        },
        None => current,
    }
}

/// The quality position after a context label: the quality it names, else `current`.
pub open spec fn quality_after(label: Option<Seq<char>>, current: int) -> int {
    match label {
        Some(l) => match quality_position(l) {
            Some(i) => i,
            None => current,
        },
        None => current,
    }
}

/// The genre position after a context label: the genre it names, else `current`.
pub open spec fn genre_after(label: Option<Seq<char>>, current: int) -> int {
    match label {
        Some(l) => match genre_position(l) {
            Some(i) => i,
            None => current,
        },
        None => current,
    }
}

proof fn lemma_root_position_from_range(token: Seq<char>, i: int)
    ensures
        root_position_from(token, i) matches Some(k) ==> 0 <= k < 12,
    decreases 12 - i,
{
    if 0 <= i < 12 {
        lemma_root_position_from_range(token, i + 1);
    }
}

proof fn lemma_genre_position_from_range(token: Seq<char>, i: int)
    ensures
        genre_position_from(token, i) matches Some(k) ==> 0 <= k < 5,
    decreases 5 - i,
{
    if 0 <= i < 5 {
        lemma_genre_position_from_range(token, i + 1);
    }
}

proof fn lemma_positions_in_range(root: Option<&str>, quality: Option<&str>, genre: Option<&str>)
    ensures
        root matches Some(l) ==> (root_position(l@) matches Some(k) ==> 0 <= k < 12),
        genre matches Some(l) ==> (genre_position(l@) matches Some(k) ==> 0 <= k < 5),
{
    if let Some(l) = root {
        lemma_root_position_from_range(music_token(l@), 0);
    }
    if let Some(l) = genre {
        lemma_genre_position_from_range(plain_token(l@), 0);
    }
}

/// The line shown for a scale: its label, a colon, then the note names
/// separated by spaces.
pub fn scale_line_text(label: &str, notes: &Vec<(String, u8)>) -> (s: String)
    ensures
        s@ == label@ + ": "@ + join(note_views(notes@).map_values(|n: (Seq<char>, u8)| n.0), " "@),
{
    let names = first_components(notes);
    let joined = join_strings(&names, " ");
    let mut line = owned(label);
    line.append(": ");
    line.append(joined.as_str());
    line
}

fn first_components(v: &Vec<(String, u8)>) -> (r: Vec<String>)
    ensures
        string_views(r@) == note_views(v@).map_values(|n: (Seq<char>, u8)| n.0),
{
    let mut r: Vec<String> = Vec::new();
    let mut i: usize = 0;
    while i < v.len()
        invariant
            i <= v.len(),
            r@.len() == i,
            forall|k: int| 0 <= k < i ==> (#[trigger] r@[k])@ == v@[k].0@,
        decreases v.len() - i,
    {
        let name = v[i].0.clone();
        r.push(name);
        i = i + 1;
    }
    assert(string_views(r@) =~= note_views(v@).map_values(|n: (Seq<char>, u8)| n.0));
    r
}

/// The pitch classes of a scale's notes, in order.
pub fn note_pitch_classes(v: &Vec<(String, u8)>) -> (r: Vec<u8>)
    ensures
        r@ == note_views(v@).map_values(|n: (Seq<char>, u8)| n.1),
{
    let mut r: Vec<u8> = Vec::new();
    let mut i: usize = 0;
    while i < v.len()
        invariant
            i <= v.len(),
            r@.len() == i,
            forall|k: int| 0 <= k < i ==> #[trigger] r@[k] == v@[k].1,
        decreases v.len() - i,
    {
        r.push(v[i].1);
        i = i + 1;
    }
    assert(r@ =~= note_views(v@).map_values(|n: (Seq<char>, u8)| n.1));
    r
}

} // verus!
