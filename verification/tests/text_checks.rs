use user_auth::text::{blank, is_white_space_char, text_byte_len};

#[test]
fn empty_and_white_text_is_blank() {
    assert!(blank(""));
    assert!(blank("   "));
    assert!(blank(" \t\n\r\u{b}\u{c}"));
    assert!(blank("\u{85}\u{a0}\u{1680}\u{2000}\u{200a}\u{2028}\u{2029}\u{202f}\u{205f}\u{3000}"));
}

#[test]
fn text_with_a_visible_character_is_not_blank() {
    assert!(!blank(" a "));
    assert!(!blank("abc"));
    assert!(!blank("\u{200b}"));
    assert!(!blank("\u{feff}"));
}

#[test]
fn white_space_matches_std() {
    for v in 0u32..0x3100 {
        if let Some(c) = char::from_u32(v) {
            assert_eq!(is_white_space_char(c), c.is_whitespace(), "{:x}", v);
        }
    }
    assert!(!is_white_space_char('\u{10ffff}'));
}

#[test]
fn byte_length_counts_utf8_bytes() {
    assert_eq!(text_byte_len(""), 0);
    assert_eq!(text_byte_len("hello"), 5);
    assert_eq!(text_byte_len("h\u{e9}llo"), 6);
    assert_eq!(text_byte_len("\u{20ac}"), 3);
    assert_eq!(text_byte_len("\u{1f600}"), 4);
}
