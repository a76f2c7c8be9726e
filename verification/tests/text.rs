use groove_tui::text::{
    chars_of, contains_str, join_strings, lower_chars, push_decimal, push_decimal2,
    split_whitespace, starts_with_str, trim_whitespace,
};

fn chars(s: &str) -> Vec<char> {
    s.chars().collect()
}

#[test]
fn trimming() {
    assert_eq!(trim_whitespace(&chars("  a b \t")), chars("a b"));
    assert_eq!(trim_whitespace(&chars("   ")), Vec::<char>::new());
    assert_eq!(trim_whitespace(&chars("ab")), chars("ab"));
}

#[test]
fn splitting_on_whitespace() {
    let parts = split_whitespace(&chars("  in  d\tminor "));
    assert_eq!(parts, vec![chars("in"), chars("d"), chars("minor")]);
    assert!(split_whitespace(&chars("   ")).is_empty());
}

#[test]
fn searching_text() {
    assert!(contains_str(&chars(" d minor "), " minor "));
    assert!(!contains_str(&chars(" d minor"), " minor "));
    assert!(contains_str(&chars("x"), ""));
    assert!(starts_with_str(&chars("https://x"), "https://"));
    assert!(!starts_with_str(&chars("http"), "https://"));
}

#[test]
fn lower_case_and_chars() {
    assert_eq!(lower_chars(&chars("AbC♯")), chars("abc♯"));
    assert_eq!(lower_chars(&chars("@AZ[`az{ÀÉ")), chars("@az[`az{ÀÉ"));
    assert_eq!(chars_of("C♯"), vec!['C', '♯']);
}

#[test]
fn joining() {
    let parts = vec!["E".to_string(), "G#".to_string(), "B".to_string()];
    assert_eq!(join_strings(&parts, " "), "E G# B");
    assert_eq!(join_strings(&Vec::new(), " "), "");
}

#[test]
fn decimals() {
    let mut s = String::new();
    push_decimal(&mut s, 0);
    s.push('|');
    push_decimal(&mut s, 1204);
    s.push('|');
    push_decimal2(&mut s, 7);
    s.push('|');
    push_decimal2(&mut s, 42);
    assert_eq!(s, "0|1204|07|42");
}
