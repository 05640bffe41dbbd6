use asthobin::text::{chars_of, contains_text, is_blank_text, replace_text, string_from_chars, text_equals, trim_text};

#[test]
fn trim_removes_unicode_white_space_at_both_ends() {
    assert_eq!(trim_text("  \t hello world \n"), "hello world");
    assert_eq!(trim_text("\u{3000}x\u{a0}"), "x");
    assert_eq!(trim_text("   "), "");
    assert_eq!(trim_text(""), "");
    assert_eq!(trim_text("a b"), "a b");
}

#[test]
fn trim_twice_is_trim_once() {
    for s in ["  a  ", "\n\n", "x", " \u{2003}y z\u{2003} "] {
        let once = trim_text(s);
        assert_eq!(trim_text(&once), once);
    }
}

#[test]
fn blank_text_is_only_white_space() {
    assert!(is_blank_text(""));
    assert!(is_blank_text(" \t\r\n\u{85}\u{2028}"));
    assert!(!is_blank_text("  .  "));
    assert_eq!(is_blank_text(" \n "), trim_text(" \n ").is_empty());
}

#[test]
fn contains_finds_substrings() {
    assert!(contains_text("postgresql", "sql"));
    assert!(contains_text("sql", "sql"));
    assert!(!contains_text("sq l", "sql"));
    assert!(contains_text("anything", ""));
    assert!(!contains_text("", "a"));
}

#[test]
fn replace_removes_every_occurrence_left_to_right() {
    assert_eq!(replace_text("aXbXc", "X", ""), "abc");
    assert_eq!(replace_text("aaaa", "aa", "b"), "bb");
    assert_eq!(replace_text("aaa", "aa", "b"), "ba");
    assert_eq!(replace_text("no match", "zz", "y"), "no match");
    assert_eq!(replace_text("x", "x", "yy"), "yy");
    assert_eq!(replace_text("héllo wörld", "ö", "o"), "héllo world");
}

#[test]
fn chars_round_trip() {
    let v = chars_of("añb");
    assert_eq!(v, vec!['a', 'ñ', 'b']);
    assert_eq!(string_from_chars(&v, 1, 3), "ñb");
    assert_eq!(string_from_chars(&v, 0, 0), "");
}

#[test]
fn text_equality() {
    assert!(text_equals("abc", "abc"));
    assert!(!text_equals("abc", "abd"));
    assert!(!text_equals("abc", "ab"));
    assert!(text_equals("", ""));
}
