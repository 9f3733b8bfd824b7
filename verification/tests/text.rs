use cc_switch::text::{
    chars_of, contains_chars, eq_chars, eq_ignore_ascii_case_chars, eq_str, is_blank_chars,
    is_white_space_char, lower_chars, starts_with_chars, trim_chars, trim_str,
};

fn cs(s: &str) -> Vec<char> {
    s.chars().collect()
}

#[test]
fn chars_of_copies_characters() {
    assert_eq!(chars_of("héllo"), cs("héllo"));
    assert!(chars_of("").is_empty());
}

#[test]
fn trim_matches_std() {
    for s in ["", "  ", " a b ", "\u{3000}x\u{85}", "\t\r\nk", "no-trim", "\u{200b}z"] {
        assert_eq!(trim_str(s), s.trim());
        assert_eq!(trim_chars(&cs(s)), cs(s.trim()));
        assert_eq!(is_blank_chars(&cs(s)), s.trim().is_empty());
    }
}

#[test]
fn white_space_matches_std() {
    for c in [' ', '\t', '\u{a0}', '\u{2009}', '\u{200b}', 'a', '\u{feff}', '\u{3000}'] {
        assert_eq!(is_white_space_char(c), c.is_whitespace());
    }
}

#[test]
fn lower_matches_std() {
    let s = "AbC-Ä-Z@[";
    assert_eq!(lower_chars(&cs(s)), cs(&s.to_ascii_lowercase()));
}

#[test]
fn contains_and_starts_with() {
    assert!(contains_chars(&cs("hello world"), &cs("o w")));
    assert!(contains_chars(&cs("abc"), &cs("")));
    assert!(!contains_chars(&cs("ab"), &cs("abc")));
    assert!(starts_with_chars(&cs("google ai"), &cs("google ")));
    assert!(!starts_with_chars(&cs("googleai"), &cs("google ")));
}

#[test]
fn equality_helpers() {
    assert!(eq_chars(&cs("ab"), &cs("ab")));
    assert!(!eq_chars(&cs("ab"), &cs("aB")));
    assert!(eq_ignore_ascii_case_chars(&cs("Official"), &cs("OFFICIAL")));
    assert!(!eq_ignore_ascii_case_chars(&cs("offic"), &cs("official")));
    assert!(eq_str("x y", "x y"));
    assert!(!eq_str("x", "y"));
}
