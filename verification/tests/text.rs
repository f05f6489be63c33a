use agent2web::text::{char_is_space, contains, cut, decimal, first_token, join, lines, starts_with, trim};

#[test]
fn white_space_is_trimmed_as_the_standard_library_trims_it() {
    let samples = [
        "", " ", "a", " a ", "\t\n a b \r\n", "\u{a0}a\u{3000}", "\u{2028}x\u{85}", "a\u{200b}",
        "\u{1680}\u{2000}z\u{205f}", "\u{b}\u{c}q",
    ];
    for s in samples {
        assert_eq!(trim(s), s.trim(), "{s:?}");
        assert_eq!(
            first_token(s),
            s.split_whitespace().next().map(|w| w.to_string()),
            "{s:?}"
        );
    }
}

#[test]
fn lines_end_where_the_standard_library_ends_them() {
    let samples = [
        "", "\n", "a", "a\n", "a\nb", "a\r\nb\r\n", "a\r", "a\r\r\n", "\n\nx", "\r\n", "a\n\r",
    ];
    for s in samples {
        let want: Vec<&str> = s.lines().collect();
        assert_eq!(lines(s), want, "{s:?}");
    }
}

#[test]
fn texts_are_searched() {
    assert!(contains("audio/wav", "wav"));
    assert!(contains("aab", "ab"));
    assert!(!contains("wa", "wav"));
    assert!(contains("", ""));
    assert!(starts_with("[stderr] x", "[stderr] "));
    assert!(!starts_with("[std", "[stderr] "));
}

#[test]
fn texts_are_joined() {
    let none: Vec<String> = Vec::new();
    assert_eq!(join(&none, ", "), "");
    assert_eq!(join(&vec!["a".to_string()], ", "), "a");
    assert_eq!(join(&vec!["a".to_string(), "b".to_string()], ", "), "a, b");
}

#[test]
fn numbers_are_written_in_decimal() {
    for n in [0u64, 7, 10, 99, 100, 600, 18446744073709551615] {
        assert_eq!(decimal(n), n.to_string());
    }
}

#[test]
fn texts_are_cut_after_bytes() {
    assert_eq!(cut("äbc", 2), ("ä", "bc"));
    assert_eq!(cut("abc", 0), ("", "abc"));
    assert_eq!(cut("abc", 3), ("abc", ""));
}

#[test]
fn white_space_is_that_of_unicode() {
    for c in '\0'..=char::MAX {
        assert_eq!(char_is_space(c), c.is_whitespace(), "{:x}", c as u32);
    }
}
