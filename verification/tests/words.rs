use lkxvbot::words::{split_words, white_space};

#[test]
fn words_are_the_runs_between_white_space() {
    assert_eq!(split_words("lbot wybory 77 10m"), vec!["lbot", "wybory", "77", "10m"]);
    assert_eq!(split_words("one"), vec!["one"]);
}

#[test]
fn white_space_at_the_ends_and_in_runs_is_dropped() {
    assert_eq!(split_words("  a \t\t b\n"), vec!["a", "b"]);
    assert_eq!(split_words("\r\na"), vec!["a"]);
    assert_eq!(split_words("a\u{b}b\u{c}c"), vec!["a", "b", "c"]);
}

#[test]
fn text_without_words_has_none() {
    assert_eq!(split_words(""), Vec::<String>::new());
    assert_eq!(split_words(" \t\n\u{3000}"), Vec::<String>::new());
}

#[test]
fn words_keep_their_characters() {
    assert_eq!(
        split_words("<@!123>\u{a0}\u{1f535}x \u{e9}t\u{e9}"),
        vec!["<@!123>", "\u{1f535}x", "\u{e9}t\u{e9}"]
    );
}

#[test]
fn white_space_is_what_the_standard_library_says() {
    for code in 0..=0x10ffffu32 {
        if let Some(c) = char::from_u32(code) {
            assert_eq!(white_space(c), c.is_whitespace(), "U+{:04X}", code);
        }
    }
}

#[test]
fn words_are_what_the_standard_library_splits() {
    let texts = [
        "",
        " ",
        "a",
        " a",
        "a ",
        "lbot  referendum\t1 2h\u{2003}tn",
        "\u{85}x\u{1680}y\u{2028}z\u{2029}w\u{202f}v\u{205f}u\u{200a}t\u{2000}",
        "zero\u{200b}width and\u{feff}bom and\u{180e}vowel",
        "\u{1c}\u{1d}\u{1e}\u{1f} are no white space",
    ];
    for text in texts {
        let expected: Vec<String> = text.split_whitespace().map(String::from).collect();
        assert_eq!(split_words(text), expected, "{:?}", text);
    }
}
