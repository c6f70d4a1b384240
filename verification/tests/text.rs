use openzt::text::{contains_str, replace_str, str_eq, trim};

#[test]
fn trimming_follows_unicode_white_space() {
    for s in ["", "  ", " a b ", "\u{3000}x\u{85}", "\u{200b}y", "\t\nz\r\u{a0}"] {
        assert_eq!(trim(s), s.trim(), "{:?}", s);
    }
}

#[test]
fn search_and_replace_match_str() {
    for (s, pat, rep) in [("a%sb%s", "%s", "X"), ("aaa", "aa", "b"), ("", "x", "y"), ("abc", "abcd", "z"), ("ééé", "é", "e")] {
        assert_eq!(contains_str(s, pat), s.contains(pat));
        assert_eq!(replace_str(s, pat, rep), s.replace(pat, rep));
    }
    assert!(contains_str("abc", ""));
    assert!(str_eq("zoo", "zoo"));
    assert!(!str_eq("zoo", "Zoo"));
}
