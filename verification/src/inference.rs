//! Guessing a backing track's key, quality and genre from its text (its title
//! and the search that found it).
use vstd::prelude::*;

use crate::music::RootPitch;
use crate::text::{
    ascii_lower, chars_eq_str, chars_of, contains_seq, contains_str,
    is_alphanumeric_ascii, is_ascii_alnum, lemma_drop_back_while,
    lemma_drop_front_while, lower_char, owned, split_whitespace, split_ws, string_from_chars,
    trim_by, views_of,
};

verus! {

// ---------------------------------------------------------------------------
// Normalised text
// ---------------------------------------------------------------------------

/// `♯` reads as `#`, `♭` as `b`, `-` and `_` as spaces; then ASCII lower case.
pub open spec fn inference_char(c: char) -> char {
    let d = if c == '♯' {
        '#'
    } else if c == '♭' {
        'b'
    } else if c == '-' || c == '_' {
        ' '
    } else {
        c
    };
    ascii_lower(d)
}

/// The text in which keys, qualities and genres are looked for: each character
/// normalised, with one space added at each end.
pub open spec fn normalized_text(text: Seq<char>) -> Seq<char> {
    seq![' '] + Seq::new(text.len(), |i: int| inference_char(text[i])) + seq![' ']
}

fn inference_char_exec(c: char) -> (d: char)
    ensures
        d == inference_char(c),
{
    let d = if c == '♯' {
        '#'
    } else if c == '♭' {
        'b'
    } else if c == '-' || c == '_' {
        ' '
    } else {
        c
    };
    lower_char(d)
}

fn normalized_chars(text: &str) -> (r: Vec<char>)
    ensures
        r@ == normalized_text(text@),
{
    let v = chars_of(text);
    let mut r: Vec<char> = Vec::new();
    r.push(' ');
    let mut i: usize = 0;
    while i < v.len()
        invariant
            i <= v.len(),
            v@ == text@,
            r@ =~= seq![' '] + Seq::new(i as nat, |k: int| inference_char(v@[k])),
        decreases v.len() - i,
    {
        r.push(inference_char_exec(v[i]));
        i = i + 1;
    }
    r.push(' ');
    assert(r@ =~= normalized_text(text@));
    r
}

/// The normalised text of `text` (see `normalized_text`).
pub fn normalize_inference_text(text: &str) -> (r: String)
    ensures
        r@ == normalized_text(text@),
{
    let v = normalized_chars(text);
    string_from_chars(&v)
}

// ---------------------------------------------------------------------------
// Key names
// ---------------------------------------------------------------------------

/// The natural root a lower-case letter names.
pub open spec fn natural_of(c: char) -> Option<RootPitch> {
    if c == 'c' {
        Some(RootPitch::C)
    } else if c == 'd' {
        Some(RootPitch::D)
    } else if c == 'e' {
        Some(RootPitch::E)
    } else if c == 'f' {
        Some(RootPitch::F)
    } else if c == 'g' {
        Some(RootPitch::G)
    } else if c == 'a' {
        Some(RootPitch::A)
    } else if c == 'b' {
        Some(RootPitch::B)
    } else {
        None
    }
}

/// The root a letter names when followed by a sharp (C, D, F, G and A only).
pub open spec fn sharp_of(c: char) -> Option<RootPitch> {
    if c == 'c' {
        Some(RootPitch::Cs)
    } else if c == 'd' {
        Some(RootPitch::Ds)
    } else if c == 'f' {
        Some(RootPitch::Fs)
    } else if c == 'g' {
        Some(RootPitch::Gs)
    } else if c == 'a' {
        Some(RootPitch::As)
    } else {
        None
    }
}

/// The root a letter names when followed by a flat (D, E, G, A and B only),
/// written as the sharp of the letter below.
pub open spec fn flat_of(c: char) -> Option<RootPitch> {
    if c == 'd' {
        Some(RootPitch::Cs)
    } else if c == 'e' {
        Some(RootPitch::Ds)
    } else if c == 'g' {
        Some(RootPitch::Fs)
    } else if c == 'a' {
        Some(RootPitch::Gs)
    } else if c == 'b' {
        Some(RootPitch::As)
    } else {
        None
    }
}

/// A key name: a letter alone, a letter with `#` or `s`, or a letter with `b`.
pub open spec fn key_name(s: Seq<char>) -> Option<RootPitch> {
    if s.len() == 1 {
        natural_of(s[0])
    } else if s.len() == 2 && (s[1] == '#' || s[1] == 's') {
        sharp_of(s[0])
    } else if s.len() == 2 && s[1] == 'b' {
        flat_of(s[0])
    } else {
        None
    }
}

/// Characters cut from both ends of a token before it is read as a key:
/// everything but ASCII letters, digits and `#`.
pub open spec fn root_trim_pred() -> spec_fn(char) -> bool {
    |c: char| !is_ascii_alnum(c) && c != '#'
}

/// The root a token names: after trimming, a key name, optionally followed by
/// `m` or `min`.
pub open spec fn root_of_token(t: Seq<char>) -> Option<RootPitch> {
    let u = trim_by(t, root_trim_pred());
    if key_name(u) is Some {
        key_name(u)
    } else if u.len() >= 1 && u.last() == 'm' && key_name(u.drop_last()) is Some {
        key_name(u.drop_last())
    } else if u.len() >= 3 && u.skip(u.len() - 3) == seq!['m', 'i', 'n'] {
        key_name(u.take(u.len() - 3))
    } else {
        None
    }
}

/// The name under which an inferred root is reported.
pub open spec fn root_name(p: RootPitch) -> Seq<char> {
    match p {
        RootPitch::C => "C"@,
        RootPitch::Cs => "Cs"@,
        RootPitch::D => "D"@,
        RootPitch::Ds => "Ds"@,
        RootPitch::E => "E"@,
        RootPitch::F => "F"@,
        RootPitch::Fs => "Fs"@,
        RootPitch::G => "G"@,
        RootPitch::Gs => "Gs"@,
        RootPitch::A => "A"@,
        RootPitch::As => "As"@,
        RootPitch::B => "B"@,
    }
}

/// A token that spells a minor key outright: a key name written with `#` or `b`
/// (not `s`), followed by `m`.
pub open spec fn minor_key_token(t: Seq<char>) -> bool {
    let k = t.drop_last();
    &&& t.len() >= 2
    &&& t.last() == 'm'
    &&& key_name(k) is Some
    &&& !(k.len() == 2 && k[1] == 's')
}

fn natural_exec(c: char) -> (r: Option<RootPitch>)
    ensures
        r == natural_of(c),
{
    if c == 'c' {
        Some(RootPitch::C)
    } else if c == 'd' {
        Some(RootPitch::D)
    } else if c == 'e' {
        Some(RootPitch::E)
    } else if c == 'f' {
        Some(RootPitch::F)
    } else if c == 'g' {
        Some(RootPitch::G)
    } else if c == 'a' {
        Some(RootPitch::A)
    } else if c == 'b' {
        Some(RootPitch::B)
    } else {
        None
    }
}

fn sharp_exec(c: char) -> (r: Option<RootPitch>)
    ensures
        r == sharp_of(c),
{
    if c == 'c' {
        Some(RootPitch::Cs)
    } else if c == 'd' {
        Some(RootPitch::Ds)
    } else if c == 'f' {
        Some(RootPitch::Fs)
    } else if c == 'g' {
        Some(RootPitch::Gs)
    } else if c == 'a' {
        Some(RootPitch::As)
    } else {
        None
    }
}

fn flat_exec(c: char) -> (r: Option<RootPitch>)
    ensures
        r == flat_of(c),
{
    if c == 'd' {
        Some(RootPitch::Cs)
    } else if c == 'e' {
        Some(RootPitch::Ds)
    } else if c == 'g' {
        Some(RootPitch::Fs)
    } else if c == 'a' {
        Some(RootPitch::Gs)
    } else if c == 'b' {
        Some(RootPitch::As)
    } else {
        None
    }
}

/// The key named by the first `len` characters of `u`.
fn key_prefix(u: &Vec<char>, len: usize) -> (r: Option<RootPitch>)
    requires
        len <= u.len(),
    ensures
        r == key_name(u@.take(len as int)),
{
    if len == 1 {
        natural_exec(u[0])
    } else if len == 2 && (u[1] == '#' || u[1] == 's') {
        sharp_exec(u[0])
    } else if len == 2 && u[1] == 'b' {
        flat_exec(u[0])
    } else {
        None
    }
}

fn is_root_trim_char(c: char) -> (b: bool)
    ensures
        b == (root_trim_pred())(c),
{
    !is_alphanumeric_ascii(c) && c != '#'
}

fn trim_root_token(v: &Vec<char>) -> (r: Vec<char>)
    ensures
        r@ == trim_by(v@, root_trim_pred()),
{
    let n = v.len();
    let mut i: usize = 0;
    while i < n && is_root_trim_char(v[i])
        invariant
            n == v.len(),
            i <= n,
            forall|k: int| 0 <= k < i ==> (root_trim_pred())(#[trigger] v@[k]),
        decreases n - i,
    {
        i = i + 1;
    }
    proof {
        lemma_drop_front_while(v@, root_trim_pred(), i as int);
    }
    let mut j: usize = n;
    while j > i && is_root_trim_char(v[j - 1])
        invariant
            n == v.len(),
            i <= j <= n,
            forall|k: int| j <= k < n ==> (root_trim_pred())(#[trigger] v@[k]),
        decreases j,
    {
        j = j - 1;
    }
    let mut r: Vec<char> = Vec::new();
    let mut k: usize = i;
    while k < j
        invariant
            i <= k <= j <= n,
            n == v.len(),
            r@ == v@.subrange(i as int, k as int),
        decreases j - k,
    {
        r.push(v[k]);
        k = k + 1;
        assert(r@ =~= v@.subrange(i as int, k as int));
    }
    proof {
        let f = v@.skip(i as int);
        assert forall|q: int| (j - i) <= q < f.len() implies (root_trim_pred())(#[trigger] f[q]) by {
            assert(f[q] == v@[q + i]);
        }
        if j > i {
            assert(f[j - i - 1] == v@[j - 1]);
        }
        lemma_drop_back_while(f, root_trim_pred(), (j - i) as int);
        assert(f.take((j - i) as int) =~= v@.subrange(i as int, j as int));
    }
    r
}

/// The root a token names (see `root_of_token`).
fn root_of_token_exec(token: &Vec<char>) -> (r: Option<RootPitch>)
    ensures
        r == root_of_token(token@),
{
    let u = trim_root_token(token);
    let n = u.len();
    assert(u@.take(n as int) =~= u@);
    let whole = key_prefix(&u, n);
    if whole.is_some() {
        return whole;
    }
    if n >= 1 && u[n - 1] == 'm' {
        assert(u@.take(n - 1) =~= u@.drop_last());
        let minor = key_prefix(&u, n - 1);
        if minor.is_some() {
            return minor;
        }
    }
    if n >= 3 && u[n - 3] == 'm' && u[n - 2] == 'i' && u[n - 1] == 'n' {
        assert(u@.skip(n - 3) =~= seq!['m', 'i', 'n']);
        return key_prefix(&u, n - 3);
    }
    proof {
        if n >= 3 && u@.skip(n - 3) == seq!['m', 'i', 'n'] {
            assert(u@.skip(n - 3)[0] == u@[n - 3]);
            assert(u@.skip(n - 3)[1] == u@[n - 2]);
            assert(u@.skip(n - 3)[2] == u@[n - 1]);
        }
    }
    None
}

fn root_name_string(p: RootPitch) -> (s: String)
    ensures
        s@ == root_name(p),
{
    match p {
        RootPitch::C => owned("C"),
        RootPitch::Cs => owned("Cs"),
        RootPitch::D => owned("D"),
        RootPitch::Ds => owned("Ds"),
        RootPitch::E => owned("E"),
        RootPitch::F => owned("F"),
        RootPitch::Fs => owned("Fs"),
        RootPitch::G => owned("G"),
        RootPitch::Gs => owned("Gs"),
        RootPitch::A => owned("A"),
        RootPitch::As => owned("As"),
        RootPitch::B => owned("B"),
    }
}

/// The name of the root a token names, if any (`"Cs"` for C sharp or D flat).
pub fn root_from_token(token: &str) -> (r: Option<String>)
    ensures
        r is Some == root_of_token(token@) is Some,
        r matches Some(s) ==> s@ == root_name(root_of_token(token@)->0),
{
    let t = chars_of(token);
    match root_of_token_exec(&t) {
        Some(p) => Some(root_name_string(p)),
        None => None,
    }
}

// ---------------------------------------------------------------------------
// Inference
// ---------------------------------------------------------------------------

/// The words after which a key is expected: `in`, `key`, `of`.
pub open spec fn is_key_marker(t: Seq<char>) -> bool {
    t == "in"@ || t == "key"@ || t == "of"@
}

/// The first root named right after a key marker, scanning from token `i`.
pub open spec fn marked_root_from(tokens: Seq<Seq<char>>, i: int) -> Option<RootPitch>
    decreases tokens.len() - i,
{
    if i < 0 || i >= tokens.len() {
        None
    } else if is_key_marker(tokens[i]) && i + 1 < tokens.len() && root_of_token(
        tokens[i + 1],
    ) is Some {
        root_of_token(tokens[i + 1])
    } else {
        marked_root_from(tokens, i + 1)
    }
}

/// The root named by the first token, from token `i` on, that names one.
pub open spec fn first_root_from(tokens: Seq<Seq<char>>, i: int) -> Option<RootPitch>
    decreases tokens.len() - i,
{
    if i < 0 || i >= tokens.len() {
        None
    } else if root_of_token(tokens[i]) is Some {
        root_of_token(tokens[i])
    } else {
        first_root_from(tokens, i + 1)
    }
}

/// The tokens of the normalised text.
pub open spec fn text_tokens(text: Seq<char>) -> Seq<Seq<char>> {
    split_ws(normalized_text(text))
}

/// The inferred root: one named right after `in`, `key` or `of` if there is
/// one, else the first token that names a root.
pub open spec fn inferred_root(text: Seq<char>) -> Option<RootPitch> {
    let tokens = text_tokens(text);
    if marked_root_from(tokens, 0) is Some {
        marked_root_from(tokens, 0)
    } else {
        first_root_from(tokens, 0)
    }
}

/// The inferred chord quality.
pub open spec fn inferred_quality(text: Seq<char>) -> Option<Seq<char>> {
    let n = normalized_text(text);
    let tokens = split_ws(n);
    if contains_seq(n, " minor "@) || contains_seq(n, " min "@) || contains_seq(n, " dorian "@)
        || contains_seq(n, " aeolian "@) || exists|i: int|
        0 <= i < tokens.len() && minor_key_token(#[trigger] tokens[i]) {
        Some("Minor"@)
    } else if contains_seq(n, " major "@) || contains_seq(n, " maj "@) {
        Some("Major"@)
    } else {
        None
    }
}

/// The inferred genre: the first of blues, rock, jazz, metal and funk that
/// occurs anywhere in the normalised text.
pub open spec fn inferred_genre(text: Seq<char>) -> Option<Seq<char>> {
    let n = normalized_text(text);
    if contains_seq(n, "blues"@) {
        Some("Blues"@)
    } else if contains_seq(n, "rock"@) {
        Some("Rock"@)
    } else if contains_seq(n, "jazz"@) {
        Some("Jazz"@)
    } else if contains_seq(n, "metal"@) {
        Some("Metal"@)
    } else if contains_seq(n, "funk"@) {
        Some("Funk"@)
    } else {
        None
    }
}

fn is_key_marker_exec(t: &Vec<char>) -> (b: bool)
    ensures
        b == is_key_marker(t@),
{
    chars_eq_str(t, "in") || chars_eq_str(t, "key") || chars_eq_str(t, "of")
}

/// The root named in `text`, as its name (`"Cs"`, `"E"`, ...).
pub fn infer_root(text: &str) -> (r: Option<String>)
    ensures
        r is Some == inferred_root(text@) is Some,
        r matches Some(s) ==> s@ == root_name(inferred_root(text@)->0),
{
    let normalized = normalized_chars(text);
    let tokens = split_whitespace(&normalized);
    let ghost ts = views_of(tokens@);
    let mut i: usize = 0;
    while i < tokens.len()
        invariant
            i <= tokens.len(),
            ts == views_of(tokens@),
            ts == text_tokens(text@),
            marked_root_from(ts, 0) == marked_root_from(ts, i as int),
        decreases tokens.len() - i,
    {
        assert(ts[i as int] == tokens@[i as int]@);
        if is_key_marker_exec(&tokens[i]) && i + 1 < tokens.len() {
            assert(ts[i + 1] == tokens@[i + 1]@);
            if let Some(p) = root_of_token_exec(&tokens[i + 1]) {
                return Some(root_name_string(p));
            }
        }
        i = i + 1;
    }
    let mut i: usize = 0;
    while i < tokens.len()
        invariant
            i <= tokens.len(),
            ts == views_of(tokens@),
            ts == text_tokens(text@),
            marked_root_from(ts, 0) is None,
            first_root_from(ts, 0) == first_root_from(ts, i as int),
        decreases tokens.len() - i,
    {
        assert(ts[i as int] == tokens@[i as int]@);
        if let Some(p) = root_of_token_exec(&tokens[i]) {
            return Some(root_name_string(p));
        }
        i = i + 1;
    }
    None
}

fn is_minor_key_token_exec(t: &Vec<char>) -> (b: bool)
    ensures
        b == minor_key_token(t@),
{
    let n = t.len();
    if n < 2 || t[n - 1] != 'm' {
        return false;
    }
    assert(t@.take(n - 1) =~= t@.drop_last());
    let key = key_prefix(t, n - 1);
    key.is_some() && !(n - 1 == 2 && t[1] == 's')
}

/// The chord quality named in `text`: `"Minor"` or `"Major"`.
pub fn infer_quality(text: &str) -> (r: Option<String>)
    ensures
        r is Some == inferred_quality(text@) is Some,
        r matches Some(s) ==> s@ == inferred_quality(text@)->0,
{
    let normalized = normalized_chars(text);
    let tokens = split_whitespace(&normalized);
    let ghost ts = views_of(tokens@);
    let mut has_minor_key_token = false;
    let mut i: usize = 0;
    while i < tokens.len()
        invariant
            i <= tokens.len(),
            ts == views_of(tokens@),
            has_minor_key_token == exists|k: int| 0 <= k < i && minor_key_token(#[trigger] ts[k]),
        decreases tokens.len() - i,
    {
        assert(ts[i as int] == tokens@[i as int]@);
        if is_minor_key_token_exec(&tokens[i]) {
            has_minor_key_token = true;
        }
        i = i + 1;
    }
    if contains_str(&normalized, " minor ") || contains_str(&normalized, " min ") || contains_str(
        &normalized,
        " dorian ",
    ) || contains_str(&normalized, " aeolian ") || has_minor_key_token {
        Some(owned("Minor"))
    } else if contains_str(&normalized, " major ") || contains_str(&normalized, " maj ") {
        Some(owned("Major"))
    } else {
        None
    }
}

/// The genre named in `text`.
pub fn infer_genre(text: &str) -> (r: Option<String>)
    ensures
        r is Some == inferred_genre(text@) is Some,
        r matches Some(s) ==> s@ == inferred_genre(text@)->0,
{
    let normalized = normalized_chars(text);
    if contains_str(&normalized, "blues") {
        Some(owned("Blues"))
    } else if contains_str(&normalized, "rock") {
        Some(owned("Rock"))
    } else if contains_str(&normalized, "jazz") {
        Some(owned("Jazz"))
    } else if contains_str(&normalized, "metal") {
        Some(owned("Metal"))
    } else if contains_str(&normalized, "funk") {
        Some(owned("Funk"))
    } else {
        None
    }
}

} // verus!
