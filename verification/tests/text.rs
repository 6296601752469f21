use rnp::text::{
    bytes_contain_nul, char_is_whitespace, chars_equal, chars_of, contains_nul, csv_split, join, join_path, owned,
    replace_all, str_eq, string_of_chars, string_of_range, trim,
};

#[test]
fn trim_strips_unicode_whitespace_both_ends() {
    assert_eq!(trim("  a b \t\n"), "a b");
    assert_eq!(trim(""), "");
    assert_eq!(trim("   "), "");
    // U+3000 IDEOGRAPHIC SPACE and U+00A0 NO-BREAK SPACE are whitespace
    assert_eq!(trim("\u{3000}x\u{a0}"), "x");
    assert_eq!(trim("x"), "x");
}

#[test]
fn csv_split_trims_and_drops_empties() {
    assert_eq!(csv_split(" a , ,b,, "), vec!["a".to_string(), "b".to_string()]);
    assert_eq!(csv_split(""), Vec::<String>::new());
    assert_eq!(csv_split(",,,"), Vec::<String>::new());
    assert_eq!(csv_split("one"), vec!["one".to_string()]);
    assert_eq!(csv_split("a b, c"), vec!["a b".to_string(), "c".to_string()]);
}

#[test]
fn replace_all_matches_std_replace() {
    let cases = [
        ("x{version}y{version}", "{version}", "1.2"),
        ("aaaa", "aa", "b"),
        ("abc", "d", "e"),
        ("", "a", "b"),
        ("abab", "ab", ""),
        ("{version", "{version}", "9"),
    ];
    for (s, p, r) in cases {
        assert_eq!(replace_all(s, p, r), s.replace(p, r), "{s:?} {p:?} {r:?}");
    }
}

#[test]
fn join_and_join_path() {
    let parts = vec!["a".to_string(), "b".to_string(), "c".to_string()];
    assert_eq!(join(&parts, ";"), "a;b;c");
    assert_eq!(join(&[], ","), "");
    assert_eq!(join(&["x".to_string()], ","), "x");
    assert_eq!(join_path("/a", "b"), "/a/b");
    assert_eq!(join_path("/a/", "b"), "/a/b");
    assert_eq!(join_path("", "b"), "b");
    assert_eq!(join_path("/a", "/b"), "/b");
}

#[test]
fn nul_detection_and_equality() {
    assert!(contains_nul("a\0"));
    assert!(!contains_nul("abc"));
    assert!(bytes_contain_nul(&[1, 0, 2]));
    assert!(!bytes_contain_nul(&[1, 2]));
    assert!(str_eq("abc", "abc"));
    assert!(!str_eq("abc", "abd"));
    assert!(!str_eq("ab", "abc"));
    assert!(chars_equal(&['a'], &['a']));
    assert!(!chars_equal(&['a'], &['b']));
}

#[test]
fn char_conversions() {
    let cs = chars_of("héllo");
    assert_eq!(cs, vec!['h', 'é', 'l', 'l', 'o']);
    assert_eq!(string_of_chars(&cs), "héllo");
    assert_eq!(string_of_range(&cs, 1, 3), "él");
    assert_eq!(owned("x"), "x".to_string());
}

#[test]
fn whitespace_matches_std_on_every_char() {
    for u in 0u32..=0x10FFFF {
        if let Some(c) = char::from_u32(u) {
            assert_eq!(char_is_whitespace(c), c.is_whitespace(), "U+{u:04X}");
        }
    }
}

#[test]
fn csv_split_trims_unicode_spaces() {
    assert_eq!(
        csv_split(" zlib , ,bzip2\u{2003}"),
        vec!["zlib".to_string(), "bzip2".to_string()]
    );
}
