use fs_gui_engine_iced::strings::{str_after_last, str_equals, string_replace, string_take_chars};

#[test]
fn after_last_separator() {
    assert_eq!(str_after_last("a/b/c", '/'), "c");
    assert_eq!(str_after_last("abc", '/'), "abc");
    assert_eq!(str_after_last("abc/", '/'), "");
    assert_eq!(str_after_last("", '/'), "");
}

#[test]
fn equality_by_characters() {
    assert!(str_equals("store", "store"));
    assert!(!str_equals("store", "stor"));
    assert!(!str_equals("store", "Store"));
    assert!(str_equals("", ""));
}

#[test]
fn replace_is_left_to_right_non_overlapping() {
    assert_eq!(string_replace("aaa", "aa", "b"), "ba");
    assert_eq!(string_replace("xyz", "q", "b"), "xyz");
    assert_eq!(string_replace("a-b-c", "-", "+="), "a+=b+=c");
    assert_eq!(string_replace("", "-", "+"), "");
}

#[test]
fn replace_empty_pattern_like_std() {
    assert_eq!(string_replace("abc", "", "x"), "abc".replace("", "x"));
    assert_eq!(string_replace("abc", "", "x"), "xaxbxcx");
    assert_eq!(string_replace("", "", "x"), "x");
    assert_eq!(string_replace("\u{e9}", "", "-"), "\u{e9}".replace("", "-"));
}

#[test]
fn take_chars_counts_characters() {
    assert_eq!(string_take_chars("\u{1f514}bell", 2), "\u{1f514}b");
    assert_eq!(string_take_chars("ab", 5), "ab");
}
