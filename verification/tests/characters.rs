use minishell::text::{char_is_ascii_blank, char_is_whitespace, chars_of};

#[test]
fn whitespace_agrees_with_the_standard_library() {
    let mut code: u32 = 0;
    while code <= 0x10FFFF {
        if let Some(c) = char::from_u32(code) {
            assert_eq!(char_is_whitespace(c), c.is_whitespace(), "U+{:04X}", code);
        }
        code += 1;
    }
}

#[test]
fn ascii_blank_is_ascii_whitespace() {
    let mut code: u32 = 0;
    while code <= 0x10FFFF {
        if let Some(c) = char::from_u32(code) {
            assert_eq!(char_is_ascii_blank(c), c.is_ascii_whitespace(), "U+{:04X}", code);
        }
        code += 1;
    }
}

#[test]
fn named_whitespace_characters() {
    for c in [' ', '\t', '\n', '\r', '\x0B', '\x0C', '\u{85}', '\u{A0}', '\u{2028}', '\u{3000}'] {
        assert!(char_is_whitespace(c));
    }
    for c in ['a', '>', '\\', '\u{200B}', '\u{180E}', '\u{FEFF}'] {
        assert!(!char_is_whitespace(c));
    }
    assert!(!char_is_ascii_blank('\x0B'));
    assert!(!char_is_ascii_blank('\u{A0}'));
}

#[test]
fn chars_of_lists_the_characters() {
    assert_eq!(chars_of("héllo"), vec!['h', 'é', 'l', 'l', 'o']);
    assert_eq!(chars_of(""), Vec::<char>::new());
}
