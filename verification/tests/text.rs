use bugsnag::text::{
    char_is_white_space, lines_of, same_text, second_field_of, split_pieces, starts_with,
    strip_cr_str, trim_str,
};

#[test]
fn trim_matches_std() {
    for s in ["", "  ", " a ", "\t\nab c\r\n", "\u{2003}x\u{85}", "x", "a  b"] {
        assert_eq!(trim_str(s), s.trim());
    }
}

#[test]
fn white_space_matches_std() {
    for c in ['\t', '\n', ' ', '\u{85}', '\u{a0}', '\u{1680}', '\u{2000}', '\u{200a}', '\u{2028}', '\u{3000}', 'a', '\u{200b}', '_'] {
        assert_eq!(char_is_white_space(c), c.is_whitespace(), "{:?}", c);
    }
}

#[test]
fn lines_match_std() {
    for s in ["", "\n", "a", "a\n", "a\r\nb", "a\n\nb\n", "a\r", "\r\n\r\n", "x\ry\nz"] {
        let ours: Vec<&str> = lines_of(s);
        let std: Vec<&str> = s.lines().collect();
        assert_eq!(ours, std, "{:?}", s);
    }
}

#[test]
fn split_matches_std() {
    for s in ["", ":", "a:b:c", "::", "abc"] {
        let ours: Vec<&str> = split_pieces(s, ':');
        let std: Vec<&str> = s.split(':').collect();
        assert_eq!(ours, std);
    }
}

#[test]
fn second_field_matches_std() {
    for s in ["", "a", "a:b", "a:b:c", "Model Name: X"] {
        assert_eq!(second_field_of(s, ':'), s.split(':').nth(1).unwrap_or(""));
    }
}

#[test]
fn prefixes_and_equality() {
    assert!(starts_with("Model Name: X", "Model Name:"));
    assert!(!starts_with("Model", "Model Name:"));
    assert!(starts_with("abc", ""));
    assert!(same_text("abc", "abc"));
    assert!(!same_text("abc", "abd"));
    assert!(!same_text("abc", "ab"));
    assert_eq!(strip_cr_str("a\r"), "a");
    assert_eq!(strip_cr_str("a"), "a");
}
