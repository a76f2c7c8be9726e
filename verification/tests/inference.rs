use groove_tui::inference::{
    infer_genre, infer_quality, infer_root, normalize_inference_text, root_from_token,
};

#[test]
fn text_is_normalised_with_padding() {
    assert_eq!(normalize_inference_text("E♭-Blues_Jam"), " eb blues jam ");
    assert_eq!(normalize_inference_text("C♯ Rock"), " c# rock ");
    assert_eq!(normalize_inference_text(""), "  ");
}

#[test]
fn key_after_in_is_preferred() {
    let text = "Smooth Jazz Backing Track in D minor";
    assert_eq!(infer_root(text), Some("D".to_string()));
    assert_eq!(infer_quality(text), Some("Minor".to_string()));
    assert_eq!(infer_genre(text), Some("Jazz".to_string()));
}

#[test]
fn key_marker_wins_over_an_earlier_root_word() {
    assert_eq!(infer_root("Jam with a friend in E"), Some("E".to_string()));
}

#[test]
fn key_of_is_followed_past_the_word_key() {
    assert_eq!(infer_root("Key of G backing"), Some("G".to_string()));
}

#[test]
fn first_root_token_without_marker() {
    let text = "A Minor Blues Jam";
    assert_eq!(infer_root(text), Some("A".to_string()));
    assert_eq!(infer_quality(text), Some("Minor".to_string()));
    assert_eq!(infer_genre(text), Some("Blues".to_string()));
}

#[test]
fn minor_key_token_gives_minor() {
    let text = "Funky groove Em 100bpm";
    assert_eq!(infer_root(text), Some("E".to_string()));
    assert_eq!(infer_quality(text), Some("Minor".to_string()));
    assert_eq!(infer_genre(text), Some("Funk".to_string()));
}

#[test]
fn sharp_and_flat_keys_are_named_by_their_sharp() {
    assert_eq!(infer_root("Rock backing track in F#"), Some("Fs".to_string()));
    assert_eq!(infer_root("Slow blues in Bb major"), Some("As".to_string()));
    assert_eq!(infer_quality("Slow blues in Bb major"), Some("Major".to_string()));
    assert_eq!(infer_root("C♯ minor metal"), Some("Cs".to_string()));
    assert_eq!(infer_genre("C♯ minor metal"), Some("Metal".to_string()));
}

#[test]
fn nothing_is_inferred_from_plain_text() {
    let text = "Backing track";
    assert_eq!(infer_root(text), None);
    assert_eq!(infer_quality(text), None);
    assert_eq!(infer_genre(text), None);
}

#[test]
fn minor_words_outweigh_major_words() {
    assert_eq!(infer_quality("major to minor jam"), Some("Minor".to_string()));
    assert_eq!(infer_quality("dorian groove"), Some("Minor".to_string()));
    assert_eq!(infer_quality("maj7 vibes"), None);
}

#[test]
fn genre_order_prefers_blues() {
    assert_eq!(infer_genre("rock blues"), Some("Blues".to_string()));
}

#[test]
fn tokens_name_roots() {
    assert_eq!(root_from_token("(am)"), Some("A".to_string()));
    assert_eq!(root_from_token("dbmin"), Some("Cs".to_string()));
    assert_eq!(root_from_token("g#m,"), Some("Gs".to_string()));
    assert_eq!(root_from_token("eb"), Some("Ds".to_string()));
    assert_eq!(root_from_token("h"), None);
    assert_eq!(root_from_token("Am"), None);
}
