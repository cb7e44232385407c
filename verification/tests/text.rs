use voice_prompt::text::{count_words, is_whitespace, join, push_decimal, push_two_digits, same_text, starts_with, trim};

#[test]
fn whitespace_agrees_with_the_standard_library_on_every_character() {
    let mut code: u32 = 0;
    while code <= 0x10FFFF {
        if let Some(c) = char::from_u32(code) {
            assert_eq!(is_whitespace(c), c.is_whitespace(), "code point {:#x}", code);
        }
        code += 1;
    }
}

#[test]
fn counts_words_between_white_space() {
    assert_eq!(count_words(""), 0);
    assert_eq!(count_words("   "), 0);
    assert_eq!(count_words("fix the bug"), 3);
    assert_eq!(count_words("  fix \t the\n\nbug  "), 3);
    assert_eq!(count_words("one"), 1);
    assert_eq!(count_words("a\u{a0}b\u{3000}c"), 3);
}

#[test]
fn word_count_agrees_with_split_whitespace() {
    let samples = [
        "",
        " ",
        "hello",
        "hello world",
        " leading",
        "trailing ",
        "tabs\tand\nnewlines\r\nmixed",
        "caf\u{e9} \u{2003} na\u{ef}ve",
        "\u{85}x\u{2028}y\u{2029}z\u{202f}w\u{205f}v\u{1680}u",
    ];
    for s in samples {
        assert_eq!(count_words(s), s.split_whitespace().count(), "text {:?}", s);
    }
}

#[test]
fn trim_agrees_with_the_standard_library() {
    let samples = [
        "",
        "   ",
        "abc",
        "  abc",
        "abc  ",
        " \t a b  c \n",
        "\u{3000}x\u{a0}",
        " \u{e9}t\u{e9} ",
    ];
    for s in samples {
        assert_eq!(trim(s), s.trim().to_string(), "text {:?}", s);
    }
}

#[test]
fn decimal_writes_numbers_without_leading_zeros() {
    let cases: [u64; 8] = [0, 7, 10, 42, 100, 65535, 1_000_000, u64::MAX];
    for n in cases {
        let mut out = String::from("n=");
        push_decimal(&mut out, n);
        assert_eq!(out, format!("n={}", n));
    }
}

#[test]
fn two_digits_pads_below_ten_only() {
    let cases: [u64; 6] = [0, 5, 9, 10, 59, 123];
    for n in cases {
        let mut out = String::new();
        push_two_digits(&mut out, n);
        assert_eq!(out, format!("{:02}", n));
    }
}

#[test]
fn join_puts_the_separator_between_neighbours() {
    let none: Vec<String> = vec![];
    assert_eq!(join(&none, "+"), "");
    assert_eq!(join(&vec!["Ctrl".to_string()], "+"), "Ctrl");
    assert_eq!(
        join(&vec!["Ctrl".to_string(), "Shift".to_string(), "A".to_string()], "+"),
        "Ctrl+Shift+A"
    );
    assert_eq!(join(&vec!["a".to_string(), "b".to_string()], ""), "ab");
}

#[test]
fn prefixes_and_equal_texts_are_recognised() {
    assert!(starts_with("KEY_A", "KEY_"));
    assert!(starts_with("KEY_", "KEY_"));
    assert!(!starts_with("KEY", "KEY_"));
    assert!(!starts_with("BTN_LEFT", "KEY_"));
    assert!(starts_with("anything", ""));
    assert!(same_text("wayland", "wayland"));
    assert!(!same_text("wayland", "x11"));
    assert!(!same_text("wayland", "wayland "));
}
