use deezer_tui::text::{
    ascii_lower, contains, decimal, drop_last_char, first_word, format_time, fuzzy_match,
    insert_char, is_before, parse_signed, parse_unsigned, remove_char, sanitize, split_once,
    starts_with, trim, two_digits,
};

#[test]
fn test_format_time() {
    assert_eq!(format_time(0), "00:00");
    assert_eq!(format_time(9), "00:09");
    assert_eq!(format_time(59), "00:59");
    assert_eq!(format_time(60), "01:00");
    assert_eq!(format_time(65), "01:05");
    assert_eq!(format_time(3600), "60:00");
}

#[test]
fn numbers_are_written_and_read_back() {
    for n in [0u64, 7, 10, 99, 100, 4096, u64::MAX] {
        assert_eq!(decimal(n), n.to_string());
        assert_eq!(parse_unsigned(&decimal(n), u64::MAX), Some(n));
    }
    assert_eq!(two_digits(5), "05");
    assert_eq!(two_digits(123), "123");
}

#[test]
fn texts_that_are_no_number_are_refused() {
    for s in ["", "+", "-", "12a", " 1", "1 ", "-3", "18446744073709551616"] {
        assert_eq!(parse_unsigned(s, u64::MAX), s.parse::<u64>().ok(), "{s}");
    }
    assert_eq!(parse_unsigned("+12", u64::MAX), "+12".parse::<u64>().ok());
    assert_eq!(parse_unsigned("300", 255), None);
    assert_eq!(parse_unsigned("255", 255), Some(255));
    for s in ["-9223372036854775808", "-9223372036854775809", "9223372036854775807", "-0", "+-1"] {
        assert_eq!(parse_signed(s), s.parse::<i64>().ok(), "{s}");
    }
}

#[test]
fn control_characters_are_stripped() {
    let clean = sanitize("So\u{7}ng\n\u{1b}[0m\u{9b}é");
    assert!(clean.chars().all(|c| !c.is_control()));
    assert!(clean.starts_with("So") && clean.ends_with('é'));
}

#[test]
fn letters_are_lowered_and_compared() {
    assert_eq!(ascii_lower("JWT É"), "jwt É");
    assert!(is_before("abc", "abd"));
    assert!(is_before("ab", "abc"));
    assert!(!is_before("b", "abc"));
    assert!(!is_before("same", "same"));
}

#[test]
fn texts_are_searched() {
    assert!(contains("jwt token has expired", "expired"));
    assert!(!contains("jwt", "jwtx"));
    assert!(contains("anything", ""));
    assert!(starts_with("deezer-tui", "deezer"));
    assert!(!starts_with("dee", "deezer"));
}

#[test]
fn fuzzy_queries_match_in_order() {
    assert!(fuzzy_match("dfp", "daft punk"));
    assert!(!fuzzy_match("pfd", "daft punk"));
    assert!(fuzzy_match("", "daft punk"));
    assert!(fuzzy_match("daft punk", "daft punk"));
    // What matches a match matches too.
    assert!(fuzzy_match("dp", "dfp") && fuzzy_match("dp", "daft punk"));
}

#[test]
fn texts_are_edited_by_character() {
    assert_eq!(insert_char("né", 2, '!'), "né!");
    assert_eq!(insert_char("né", 1, '-'), "n-é");
    assert_eq!(remove_char("né!", 1), "n!");
    assert_eq!(drop_last_char("né"), "n");
    assert_eq!(drop_last_char(""), "");
}

#[test]
fn blanks_are_trimmed_and_words_are_split() {
    assert_eq!(trim(" \t two words\u{a0}\n"), "two words");
    assert_eq!(first_word("  one two"), Some("one".to_string()));
    assert_eq!(first_word(" \n"), None);
    assert_eq!(split_once("key = value = x", '='), Some(("key ".to_string(), " value = x".to_string())));
    assert_eq!(split_once("none", '='), None);
}

#[test]
fn every_blank_is_trimmed_and_nothing_else() {
    let blank = |c: u32| {
        matches!(
            c,
            0x9..=0xd
                | 0x20
                | 0x85
                | 0xa0
                | 0x1680
                | 0x2000..=0x200a
                | 0x2028
                | 0x2029
                | 0x202f
                | 0x205f
                | 0x3000
        )
    };
    for code in 0..=0x10ffff_u32 {
        if let Some(c) = char::from_u32(code) {
            let text = String::from(c);
            assert_eq!(trim(&text).is_empty(), blank(code), "{code:x}");
        }
    }
}
