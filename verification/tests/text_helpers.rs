use pajama::text::{
    byte_len_of, chars_of, decimal_string, is_whitespace, joined, same_text,
    same_text_ignoring_ascii_case, scan, scan_back, string_of, to_ascii_lower, trim, trim_range,
    CharClass,
};

#[test]
fn whitespace_is_what_std_calls_whitespace() {
    let mut code: u32 = 0;
    while code <= 0x10FFFF {
        if let Some(c) = char::from_u32(code) {
            assert_eq!(is_whitespace(c), c.is_whitespace(), "U+{:04X}", code);
        }
        code += 1;
    }
}

#[test]
fn char_classes_test_membership() {
    assert!(CharClass::Space.test(' '));
    assert!(!CharClass::Space.test('x'));
    assert!(CharClass::NonSpace.test('x'));
    assert!(!CharClass::NonSpace.test('\t'));
    assert!(CharClass::Only('/').test('/'));
    assert!(!CharClass::Only('/').test('a'));
    assert!(CharClass::Except(',').test('a'));
    assert!(!CharClass::Except(',').test(','));
}

#[test]
fn chars_and_back() {
    let cs = chars_of("héllo");
    assert_eq!(cs, vec!['h', 'é', 'l', 'l', 'o']);
    assert_eq!(string_of(&cs, 0, 5), "héllo");
    assert_eq!(string_of(&cs, 1, 3), "él");
    assert_eq!(string_of(&cs, 2, 2), "");
}

#[test]
fn scan_stops_at_the_first_character_outside_the_class() {
    let cs = chars_of("  ab  cd");
    assert_eq!(scan(&cs, 0, cs.len(), CharClass::Space), 2);
    assert_eq!(scan(&cs, 2, cs.len(), CharClass::NonSpace), 4);
    assert_eq!(scan(&cs, 2, 3, CharClass::NonSpace), 3);
    assert_eq!(scan(&cs, 4, cs.len(), CharClass::NonSpace), 4);
    assert_eq!(scan_back(&cs, 0, cs.len(), CharClass::NonSpace), 6);
    assert_eq!(scan_back(&cs, 0, 6, CharClass::Space), 4);
}

#[test]
fn trim_agrees_with_std() {
    for s in [
        "",
        " ",
        "a",
        "  a b  ",
        "\t\r\n x \u{3000}",
        "\u{a0}token\u{2003}",
        "no-space",
        " \u{feff}x ",
    ] {
        assert_eq!(trim(s), s.trim(), "{:?}", s);
    }
    let cs = chars_of("ab  cd  ");
    assert_eq!(trim_range(&cs, 2, 8), (4, 6));
    assert_eq!(trim_range(&cs, 2, 4), (4, 4));
}

#[test]
fn same_text_compares_characters() {
    assert!(same_text("GET", "GET"));
    assert!(!same_text("GET", "get"));
    assert!(!same_text("GET", "GETS"));
    assert!(same_text("", ""));
    assert!(!same_text("a", ""));
}

#[test]
fn ascii_case_is_folded_and_nothing_else() {
    assert_eq!(to_ascii_lower('A'), 'a');
    assert_eq!(to_ascii_lower('Z'), 'z');
    assert_eq!(to_ascii_lower('a'), 'a');
    assert_eq!(to_ascii_lower('['), '[');
    assert_eq!(to_ascii_lower('@'), '@');
    assert_eq!(to_ascii_lower('É'), 'É');
    assert!(same_text_ignoring_ascii_case("BeArEr", "bearer"));
    assert!(!same_text_ignoring_ascii_case("bearer ", "bearer"));
    assert!(!same_text_ignoring_ascii_case("É", "é"));
    assert!(!same_text_ignoring_ascii_case("\u{212a}", "k"));
}

#[test]
fn decimal_has_no_leading_zeros() {
    assert_eq!(decimal_string(0), "0");
    assert_eq!(decimal_string(7), "7");
    assert_eq!(decimal_string(10), "10");
    assert_eq!(decimal_string(65535), "65535");
    assert_eq!(decimal_string(u64::MAX), "18446744073709551615");
}

#[test]
fn bytes_are_counted_in_utf8() {
    assert_eq!(byte_len_of(""), 0);
    assert_eq!(byte_len_of("abc"), 3);
    assert_eq!(byte_len_of("é€😀"), 2 + 3 + 4);
}

#[test]
fn joined_puts_one_after_the_other() {
    assert_eq!(joined("ab", "cd"), "abcd");
    assert_eq!(joined("", ""), "");
}
