use todo::text::{char_is_whitespace, join, str_has_prefix, str_is_blank};

#[test]
fn whitespace_agrees_with_std() {
    let mut n: u32 = 0;
    while n <= 0x3100 {
        if let Some(c) = char::from_u32(n) {
            assert_eq!(char_is_whitespace(c), c.is_whitespace(), "U+{:04X}", n);
        }
        n += 1;
    }
    assert!(!char_is_whitespace('\u{10FFFF}'));
}

#[test]
fn blank_means_nothing_left_after_trim() {
    for s in ["", " ", "   ", "\t\r\n", "\u{2003}\u{205f}", "a", " a ", "\u{200b}", "  x"] {
        assert_eq!(str_is_blank(s), s.trim().is_empty(), "{:?}", s);
    }
}

#[test]
fn prefix_is_decided() {
    assert!(str_has_prefix("/api/data", "/api/"));
    assert!(str_has_prefix("/api/", "/api/"));
    assert!(!str_has_prefix("/api", "/api/"));
    assert!(!str_has_prefix("/apx/data", "/api/"));
    assert!(str_has_prefix("anything", ""));
    assert!(str_has_prefix("\u{e9}t\u{e9}", "\u{e9}t"));
}

#[test]
fn join_concatenates() {
    assert_eq!(join("Created user: ", "ann"), "Created user: ann");
    assert_eq!(join("", ""), "");
}
