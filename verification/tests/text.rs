use gvm_mcp::text::{char_to_ascii_lowercase, is_whitespace, to_ascii_lowercase, trim};

#[test]
fn whitespace_is_the_unicode_white_space_set() {
    for c in ['\t', '\n', '\u{0B}', '\u{0C}', '\r', ' ', '\u{85}', '\u{A0}', '\u{1680}', '\u{2000}', '\u{200A}', '\u{2028}', '\u{2029}', '\u{202F}', '\u{205F}', '\u{3000}'] {
        assert!(is_whitespace(c), "{c:?}");
        assert_eq!(is_whitespace(c), c.is_whitespace());
    }
    for c in ['a', '0', '\u{0}', '\u{08}', '\u{0E}', '\u{1F}', '\u{200B}', '\u{FEFF}', '\u{180E}'] {
        assert!(!is_whitespace(c), "{c:?}");
        assert_eq!(is_whitespace(c), c.is_whitespace());
    }
}

#[test]
fn trim_strips_unicode_whitespace_at_both_ends() {
    assert_eq!(trim(" Tasks "), "Tasks");
    assert_eq!(trim("\u{3000}\ttargets\u{A0}\n"), "targets");
    assert_eq!(trim("  "), "");
    assert_eq!(trim("a b"), "a b");
}

#[test]
fn ascii_lowercase_touches_only_ascii_letters() {
    assert_eq!(char_to_ascii_lowercase('A'), 'a');
    assert_eq!(char_to_ascii_lowercase('Z'), 'z');
    assert_eq!(char_to_ascii_lowercase('['), '[');
    assert_eq!(char_to_ascii_lowercase('@'), '@');
    assert_eq!(char_to_ascii_lowercase('É'), 'É');
    assert_eq!(to_ascii_lowercase("TaRgEtS-Ä"), "targets-Ä");
}
