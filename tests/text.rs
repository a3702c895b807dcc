use forex_notify::text::replace;

#[test]
fn replace_left_to_right_without_overlap() {
    assert_eq!(replace("aaa", "aa", "b"), "ba");
    assert_eq!(replace("abcabc", "bc", "X"), "aXaX");
    assert_eq!(replace("", "x", "y"), "");
    assert_eq!(replace("漢字{rate}", "{rate}", "1"), "漢字1");
    assert_eq!(replace("{rat}", "{rate}", "1"), "{rat}");
}

