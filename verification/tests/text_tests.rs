use spool::text::{chars_of, contains_chars, is_whitespace, strip_prefix_chars, strip_suffix_chars, trim_chars, trim_char_chars, trim_end_char_chars};

fn s(v: &[char]) -> String {
    v.iter().collect()
}

#[test]
fn whitespace_agrees_with_std_for_every_char() {
    for code in 0u32..=0x10FFFF {
        if let Some(c) = char::from_u32(code) {
            assert_eq!(is_whitespace(c), c.is_whitespace(), "{code:#x}");
        }
    }
}

#[test]
fn trimming_agrees_with_std() {
    for text in ["", "   ", " a b ", "\u{3000}x\u{85}", "\tline\r\n", "//x//", "\"q\"", "x"] {
        assert_eq!(s(&trim_chars(&chars_of(text))), text.trim(), "{text:?}");
        assert_eq!(s(&trim_end_char_chars(&chars_of(text), '/')), text.trim_end_matches('/'));
        assert_eq!(s(&trim_char_chars(&chars_of(text), '"')), text.trim_matches('"'));
    }
}

#[test]
fn prefix_suffix_and_contains() {
    let v = chars_of("Spool/ludusavi-backup");
    assert_eq!(strip_suffix_chars(&v, &chars_of("/ludusavi-backup")).map(|p| s(&p)), Some("Spool".to_string()));
    assert_eq!(strip_suffix_chars(&v, &chars_of("x")), None);
    assert_eq!(strip_prefix_chars(&v, &chars_of("Spool/")).map(|p| s(&p)), Some("ludusavi-backup".to_string()));
    assert_eq!(strip_prefix_chars(&v, &chars_of("spool")), None);
    assert!(contains_chars(&v, &chars_of("dusavi")));
    assert!(contains_chars(&v, &chars_of("")));
    assert!(!contains_chars(&v, &chars_of("Dusavi")));
}
