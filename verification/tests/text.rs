use sherpa_rs::error::ConfigError;
use sherpa_rs::text::{contains_nul, is_whitespace, trim, CText};

#[test]
fn a_nul_is_found_wherever_it_stands() {
    assert!(!contains_nul(""));
    assert!(!contains_nul("tokens.txt"));
    assert!(contains_nul("\0"));
    assert!(contains_nul("\0tokens.txt"));
    assert!(contains_nul("tok\0ens.txt"));
    assert!(contains_nul("tokens.txt\0"));
    assert!(!contains_nul("模型/令牌.txt"));
    assert!(contains_nul("模型\0令牌.txt"));
}

#[test]
fn c_text_keeps_the_text_or_refuses_it() {
    let text = CText::new("encoder.onnx").unwrap();
    assert_eq!(text.as_str(), "encoder.onnx");
    assert_eq!(CText::new("").unwrap().as_str(), "");
    assert!(matches!(CText::new("enc\0oder"), Err(ConfigError::EmbeddedNul)));
}

#[test]
fn white_space_is_what_unicode_says() {
    for c in [
        '\t', '\n', '\u{b}', '\u{c}', '\r', ' ', '\u{85}', '\u{a0}', '\u{1680}', '\u{2000}',
        '\u{2005}', '\u{200a}', '\u{2028}', '\u{2029}', '\u{202f}', '\u{205f}', '\u{3000}',
    ] {
        assert!(is_whitespace(c), "{:?}", c);
    }
    for c in ['a', '0', '\0', '\u{8}', '\u{e}', '\u{200b}', '\u{1f}', '你', '\u{feff}'] {
        assert!(!is_whitespace(c), "{:?}", c);
    }
}

#[test]
fn white_space_agrees_with_the_standard_library_on_every_character() {
    let mut code: u32 = 0;
    while code <= 0x10ffff {
        if let Some(c) = char::from_u32(code) {
            assert_eq!(is_whitespace(c), c.is_whitespace(), "U+{:04X}", code);
        }
        code += 1;
    }
}

#[test]
fn trim_takes_the_white_space_around_a_text() {
    assert_eq!(trim(""), "");
    assert_eq!(trim("   "), "");
    assert_eq!(trim("hello"), "hello");
    assert_eq!(trim("  hello"), "hello");
    assert_eq!(trim("hello \n"), "hello");
    assert_eq!(trim(" \t hello world \r\n"), "hello world");
    assert_eq!(trim("\u{3000}你好 世界\u{3000}"), "你好 世界");
    assert_eq!(trim(" a "), "a");
}

#[test]
fn trim_agrees_with_the_standard_library() {
    for s in ["", " ", "x", " x", "x ", "  a b  ", "\n\tkey word\u{a0}", "\u{2003}é\u{2003}"] {
        assert_eq!(trim(s), s.trim());
    }
}

#[test]
fn trimming_twice_is_trimming_once() {
    for s in ["  hey  sherpa ", "\t", "plain"] {
        let once = trim(s);
        assert_eq!(trim(&once), once);
    }
}
