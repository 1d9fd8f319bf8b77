//! Whitespace, trimming and what counts as blank.

use markdown::text::{blank, is_space_char, trimmed, trimmed_end, trimmed_start};

#[test]
fn whitespace_is_unicode_white_space() {
    for c in ['\t', '\n', '\u{b}', '\u{c}', '\r', ' ', '\u{85}', '\u{a0}', '\u{1680}', '\u{2000}', '\u{200a}', '\u{2028}', '\u{2029}', '\u{202f}', '\u{205f}', '\u{3000}'] {
        assert!(is_space_char(c), "{c:?}");
        assert_eq!(is_space_char(c), c.is_whitespace());
    }
    for c in ['a', '`', '\u{0}', '\u{200b}', '\u{feff}', 'é'] {
        assert!(!is_space_char(c), "{c:?}");
        assert_eq!(is_space_char(c), c.is_whitespace());
    }
}

#[test]
fn trimming_agrees_with_the_standard_library() {
    for s in ["", " ", "  a b  ", "\u{3000}ünï\t\n", "x", "\n\nline\n\n", "é  "] {
        assert_eq!(trimmed(s), s.trim(), "{s:?}");
        assert_eq!(trimmed_end(s), s.trim_end(), "{s:?}");
        assert_eq!(trimmed_start(s), s.trim_start(), "{s:?}");
        assert_eq!(blank(s), s.trim().is_empty(), "{s:?}");
    }
}
