use wc_tool::data::file::count_characters;
use wc_tool::data::file::count_lines;
use wc_tool::data::file::count_words;
use wc_tool::data::file::whitespace;

#[test]
fn counts_of_a_short_text() {
    let text = "a b\nc\n";
    assert_eq!(count_words(text), 3);
    assert_eq!(count_lines(text), 2);
    assert_eq!(count_characters(text), 6);
}

#[test]
fn counts_of_the_empty_text() {
    assert_eq!(count_words(""), 0);
    assert_eq!(count_lines(""), 0);
    assert_eq!(count_characters(""), 0);
}

#[test]
fn words_are_runs_between_white_space() {
    assert_eq!(count_words("one"), 1);
    assert_eq!(count_words("  one  "), 1);
    assert_eq!(count_words("one two"), 2);
    assert_eq!(count_words("one\ttwo\nthree\r\nfour"), 4);
    assert_eq!(count_words(" \t\n "), 0);
    assert_eq!(count_words("a\u{00A0}b\u{3000}c\u{2003}d"), 4);
    assert_eq!(count_words("a\u{200B}b"), 1);
}

#[test]
fn words_agree_with_split_whitespace() {
    let texts = [
        "",
        " ",
        "x",
        "the quick  brown\tfox\n",
        "\u{1680}a\u{2028}b\u{2029}c\u{202F}d\u{205F}e\u{0085}f",
        "día a día\u{000B}y\u{000C}noche",
        "a\u{180E}b",
    ];
    for text in texts {
        assert_eq!(count_words(text), text.split_whitespace().count());
    }
}

#[test]
fn a_last_line_without_line_feed_counts() {
    assert_eq!(count_lines("a"), 1);
    assert_eq!(count_lines("a\n"), 1);
    assert_eq!(count_lines("a\nb"), 2);
    assert_eq!(count_lines("a\nb\n"), 2);
    assert_eq!(count_lines("\n"), 1);
    assert_eq!(count_lines("\n\n"), 2);
    assert_eq!(count_lines("a\r\nb\r\n"), 2);
    assert_eq!(count_lines("a\rb"), 1);
}

#[test]
fn lines_agree_with_lines() {
    let texts = ["", "\n", "a", "a\n", "\na", "a\n\nb", "a\r\nb\r", "\r\n", "x\ny\nz\n\n"];
    for text in texts {
        assert_eq!(count_lines(text), text.lines().count());
    }
}

#[test]
fn characters_are_scalar_values_not_bytes() {
    assert_eq!(count_characters("abc"), 3);
    assert_eq!(count_characters("día"), 3);
    assert_eq!(count_characters("📄"), 1);
    assert_eq!(count_characters("e\u{0301}"), 2);
    assert_eq!("día".len(), 4);
}

#[test]
fn white_space_is_the_unicode_property() {
    let blanks = [
        '\u{0009}', '\u{000A}', '\u{000B}', '\u{000C}', '\u{000D}', '\u{0020}', '\u{0085}',
        '\u{00A0}', '\u{1680}', '\u{2000}', '\u{2005}', '\u{200A}', '\u{2028}', '\u{2029}',
        '\u{202F}', '\u{205F}', '\u{3000}',
    ];
    for c in blanks {
        assert!(whitespace(c));
    }
    let others = ['a', '0', '_', '\u{0008}', '\u{000E}', '\u{001F}', '\u{180E}', '\u{200B}',
        '\u{200C}', '\u{2060}', '\u{FEFF}', '\u{0084}', '\u{0086}', '\u{1FFF}'];
    for c in others {
        assert!(!whitespace(c));
    }
}

#[test]
fn white_space_agrees_with_std_on_every_character() {
    let mut code: u32 = 0;
    while code <= 0x10FFFF {
        if let Some(c) = char::from_u32(code) {
            assert_eq!(whitespace(c), c.is_whitespace());
        }
        code += 1;
    }
}
