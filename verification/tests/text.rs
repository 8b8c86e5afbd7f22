use gateway_bot::text::{
    chars_of, decimal_string, parse_u64, same_text, same_text_ignoring_ascii_case,
};

#[test]
fn decimal_of_zero_is_one_digit() {
    assert_eq!(decimal_string(0), "0");
}

#[test]
fn decimal_matches_standard_formatting() {
    let samples: Vec<u64> = vec![
        1,
        9,
        10,
        11,
        99,
        100,
        101,
        12345,
        1_000_000,
        381880193251409931,
        u64::MAX - 1,
        u64::MAX,
    ];
    for n in samples {
        assert_eq!(decimal_string(n), format!("{}", n));
    }
}

#[test]
fn decimal_of_largest_value() {
    assert_eq!(decimal_string(u64::MAX), "18446744073709551615");
}

#[test]
fn parse_reads_plain_numbers() {
    assert_eq!(parse_u64("0"), Some(0));
    assert_eq!(parse_u64("7"), Some(7));
    assert_eq!(parse_u64("111"), Some(111));
    assert_eq!(parse_u64("381880193251409931"), Some(381880193251409931));
}

#[test]
fn parse_accepts_leading_zeros() {
    assert_eq!(parse_u64("007"), Some(7));
    assert_eq!(parse_u64("0000000000000000000000000001"), Some(1));
}

#[test]
fn parse_rejects_empty_text() {
    assert_eq!(parse_u64(""), None);
}

#[test]
fn parse_rejects_other_characters() {
    assert_eq!(parse_u64("12a"), None);
    assert_eq!(parse_u64("a12"), None);
    assert_eq!(parse_u64("+5"), None);
    assert_eq!(parse_u64("-5"), None);
    assert_eq!(parse_u64(" 5"), None);
    assert_eq!(parse_u64("1 2"), None);
}

#[test]
fn parse_rejects_digits_of_other_scripts() {
    assert_eq!(parse_u64("\u{661}\u{662}\u{663}"), None);
    assert_eq!(parse_u64("1\u{662}3"), None);
}

#[test]
fn parse_stops_at_the_largest_value() {
    assert_eq!(parse_u64("18446744073709551615"), Some(u64::MAX));
    assert_eq!(parse_u64("18446744073709551616"), None);
    assert_eq!(parse_u64("18446744073709551620"), None);
    assert_eq!(parse_u64("99999999999999999999"), None);
    assert_eq!(parse_u64("184467440737095516150"), None);
}

#[test]
fn parse_rejects_overflow_before_a_bad_character() {
    assert_eq!(parse_u64("99999999999999999999999x"), None);
}

#[test]
fn parse_reads_back_what_decimal_writes() {
    let samples: Vec<u64> = vec![0, 1, 10, 4096, 999_999_999, u64::MAX];
    for n in samples {
        assert_eq!(parse_u64(&decimal_string(n)), Some(n));
    }
}

#[test]
fn chars_are_kept_in_order() {
    assert_eq!(chars_of("a\u{1f7e2}c"), vec!['a', '\u{1f7e2}', 'c']);
    assert_eq!(chars_of(""), Vec::<char>::new());
}

#[test]
fn same_text_is_exact() {
    assert!(same_text("help", "help"));
    assert!(same_text("", ""));
    assert!(!same_text("help", "Help"));
    assert!(!same_text("help", "hel"));
    assert!(!same_text("hel", "help"));
}

#[test]
fn ascii_case_is_overlooked() {
    assert!(same_text_ignoring_ascii_case("help", "HELP"));
    assert!(same_text_ignoring_ascii_case("CoPy-MarkDown", "copy-markdown"));
    assert!(same_text_ignoring_ascii_case("", ""));
    assert!(!same_text_ignoring_ascii_case("help", "helq"));
    assert!(!same_text_ignoring_ascii_case("help", "help "));
}

#[test]
fn case_folding_touches_ascii_letters_only() {
    // '@' and '`' differ by 32 as 'A' and 'a' do, but are no letters.
    assert!(!same_text_ignoring_ascii_case("@", "`"));
    assert!(!same_text_ignoring_ascii_case("[", "{"));
    assert!(!same_text_ignoring_ascii_case("\u{c9}", "\u{e9}"));
    assert!(same_text_ignoring_ascii_case("Z", "z"));
    assert!(same_text_ignoring_ascii_case("A", "a"));
}
