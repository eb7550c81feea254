use tcgdex_api::text::{
    char_is_whitespace, contains_char, contains_token, decimal_string, first_token_of,
};

#[test]
fn whitespace_agrees_with_the_standard_library() {
    for code in 0..=0x10FFFFu32 {
        if let Some(c) = char::from_u32(code) {
            assert_eq!(char_is_whitespace(c), c.is_whitespace(), "U+{:04X}", code);
        }
    }
}

#[test]
fn whitespace_on_known_characters() {
    assert!(char_is_whitespace(' '));
    assert!(char_is_whitespace('\t'));
    assert!(char_is_whitespace('\n'));
    assert!(char_is_whitespace('\u{3000}'));
    assert!(!char_is_whitespace('a'));
    assert!(!char_is_whitespace('='));
    assert!(!char_is_whitespace('\u{200B}'));
}

#[test]
fn first_token_cuts_at_whitespace() {
    assert_eq!(first_token_of("hp=100 extra text"), "hp=100");
    assert_eq!(first_token_of("hp=100"), "hp=100");
    assert_eq!(first_token_of("   hp=100"), "hp=100");
    assert_eq!(first_token_of("\t\nhp=100\rrest"), "hp=100");
    assert_eq!(first_token_of("a b"), "a");
    assert_eq!(first_token_of("x"), "x");
}

#[test]
fn first_token_of_blank_text_is_empty() {
    assert_eq!(first_token_of(""), "");
    assert_eq!(first_token_of("   "), "");
    assert_eq!(first_token_of("\u{2003}\u{a0}"), "");
}

#[test]
fn first_token_counts_characters_not_bytes() {
    assert_eq!(first_token_of("\u{3000}name=Pok\u{e9}mon\u{2003}rest"), "name=Pok\u{e9}mon");
    assert_eq!(first_token_of("\u{e9}\u{e9} \u{e9}"), "\u{e9}\u{e9}");
}

#[test]
fn first_token_agrees_with_split_whitespace() {
    let samples = [
        "hp=100 extra text",
        "  leading",
        "trailing  ",
        "name=Sword & Shield",
        "\u{1680}ogham\u{1680}",
        "one\u{2028}two",
        "",
        " ",
        "solo",
    ];
    for sample in samples {
        assert_eq!(first_token_of(sample), sample.split_whitespace().next().unwrap_or(""));
    }
}

#[test]
fn contains_token_finds_a_word() {
    assert!(contains_token("hp=100"));
    assert!(contains_token("   x"));
    assert!(!contains_token(""));
    assert!(!contains_token(" \t\n"));
}

#[test]
fn contains_char_finds_the_needle() {
    assert!(contains_char("a=b", '='));
    assert!(contains_char("a&b", '&'));
    assert!(contains_char("=", '='));
    assert!(!contains_char("swsh3-136", '='));
    assert!(!contains_char("", '&'));
}

#[test]
fn decimal_string_renders_numerals() {
    assert_eq!(decimal_string(0), "0");
    assert_eq!(decimal_string(7), "7");
    assert_eq!(decimal_string(9), "9");
    assert_eq!(decimal_string(10), "10");
    assert_eq!(decimal_string(99), "99");
    assert_eq!(decimal_string(100), "100");
    assert_eq!(decimal_string(255), "255");
    assert_eq!(decimal_string(40960), "40960");
    assert_eq!(decimal_string(65535), "65535");
}

#[test]
fn decimal_string_agrees_with_the_standard_library() {
    for n in 0..=u16::MAX {
        assert_eq!(decimal_string(n), format!("{}", n));
    }
}
