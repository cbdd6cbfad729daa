use console_calc::whitespace::{chars_of, is_whitespace, trim};

#[test]
fn white_space_is_what_the_standard_library_takes_for_it() {
    let mut count = 0;
    for code in 0..=0x10FFFF_u32 {
        if let Some(c) = char::from_u32(code) {
            assert_eq!(is_whitespace(c), c.is_whitespace(), "U+{:04X}", code);
            if is_whitespace(c) {
                count += 1;
            }
        }
    }
    assert_eq!(count, 25);
}

#[test]
fn named_characters_are_or_are_not_white_space() {
    for c in [' ', '\t', '\n', '\r', '\u{b}', '\u{c}', '\u{85}', '\u{a0}', '\u{3000}'] {
        assert!(is_whitespace(c), "{:?}", c);
    }
    for c in ['a', '0', '+', '\u{0}', '\u{8}', '\u{e}', '\u{1f}', '\u{200b}', '\u{180e}', '\u{feff}'] {
        assert!(!is_whitespace(c), "{:?}", c);
    }
}

#[test]
fn trim_takes_white_space_from_both_ends() {
    assert_eq!(trim("  42\n"), "42");
    assert_eq!(trim("\t a b \r\n"), "a b");
    assert_eq!(trim("abc"), "abc");
    assert_eq!(trim("a"), "a");
    assert_eq!(trim(" a"), "a");
    assert_eq!(trim("a "), "a");
}

#[test]
fn trim_leaves_nothing_of_white_space() {
    assert_eq!(trim(""), "");
    assert_eq!(trim(" "), "");
    assert_eq!(trim("\n"), "");
    assert_eq!(trim(" \t\r\n\u{3000}"), "");
}

#[test]
fn trim_keeps_white_space_inside() {
    assert_eq!(trim(" 1 2 "), "1 2");
    assert_eq!(trim("\n2.5\t3\n"), "2.5\t3");
}

#[test]
fn trim_counts_characters_not_bytes() {
    assert_eq!(trim("\u{3000}÷×\u{2003}"), "÷×");
    assert_eq!(trim(" 🦀 rust 🚀 \n"), "🦀 rust 🚀");
    assert_eq!(trim("\u{a0}é"), "é");
}

#[test]
fn trim_agrees_with_the_standard_library() {
    let lines = [
        "", " ", "x", " x", "x ", " x ", "\tx\ty\t", "\u{85}x\u{85}", "\u{200b} x \u{200b}",
        "\u{1680}\u{2000}\u{200a}x\u{2028}\u{2029}\u{202f}\u{205f}", "  \u{feff}  ",
        "10\r\n", "   -2.5e3   ", "÷ ", " ×",
    ];
    for line in lines {
        assert_eq!(trim(line), line.trim(), "{:?}", line);
    }
}

#[test]
fn trim_twice_is_trim_once() {
    for line in ["", "  a  ", "\n\n", " a b ", "x"] {
        assert_eq!(trim(trim(line)), trim(line));
    }
}

#[test]
fn chars_of_lists_the_characters_in_order() {
    assert_eq!(chars_of(""), Vec::<char>::new());
    assert_eq!(chars_of("a÷🦀"), vec!['a', '÷', '🦀']);
    assert_eq!(chars_of(" 12\n"), vec![' ', '1', '2', '\n']);
}
