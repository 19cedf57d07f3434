use openwire::text::{is_white_space_char, trim_text};

#[test]
fn white_space_matches_char_is_whitespace() {
    for u in 0u32..0x11000 {
        if let Some(c) = char::from_u32(u) {
            assert_eq!(is_white_space_char(c), c.is_whitespace(), "U+{u:04X}");
        }
    }
}

#[test]
fn trim_matches_str_trim() {
    let samples = ["", "   ", " a ", "\t\nkp7\u{a0}", "\u{3000}Голос \u{2028}", "x", "a b", " \u{200b}z\u{200b} "];
    for s in samples {
        assert_eq!(trim_text(s), s.trim(), "{s:?}");
    }
}
