use oa_notifier::text::{
    chars_of, concat_str, contains_str, decimal_string, find_str, is_space_char, replace_str,
    same_text, split_words, string_of, substring,
};

#[test]
fn replace_takes_occurrences_from_the_left() {
    assert_eq!(replace_str("aaa", "aa", "b"), "ba");
    assert_eq!(replace_str("a&nbsp;b&nbsp;", "&nbsp;", ""), "ab");
    assert_eq!(replace_str("x<br>y<br>", "<br>", "\n"), "x\ny\n");
}

#[test]
fn replace_without_occurrence_keeps_text() {
    assert_eq!(replace_str("通知一", "[置顶]", ""), "通知一");
    assert_eq!(replace_str("", "ab", "c"), "");
}

#[test]
fn replace_agrees_with_std() {
    let cases = [
        ("<p>a</p><p>b</p>", "</p>", "</p>\n"),
        ("\u{2002}x\u{2002}\u{2002}", "\u{2002}", "  "),
        ("abababa", "aba", "-"),
        ("[置顶][置顶]标题", "[置顶]", ""),
    ];
    for (s, from, to) in cases.iter() {
        assert_eq!(replace_str(s, from, to), s.replace(from, to));
    }
}

#[test]
fn find_gives_character_positions() {
    assert_eq!(find_str("ab@@first@@c", "@@first@@"), Some(2));
    assert_eq!(find_str("中文@@first@@", "@@first@@"), Some(2));
    assert_eq!(find_str("abc", "d"), None);
    assert_eq!(find_str("abc", ""), Some(0));
}

#[test]
fn contains_matches_std() {
    assert!(contains_str("今天 10:00", "今天"));
    assert!(!contains_str("昨天", "今天"));
    assert!(contains_str("x", ""));
    assert!(!contains_str("", "x"));
}

#[test]
fn words_split_on_unicode_whitespace() {
    assert_eq!(split_words("  招生  就业\u{3000}奖学金\t"), vec!["招生", "就业", "奖学金"]);
    assert!(split_words(" \u{a0}\n ").is_empty());
    assert_eq!(split_words("one"), vec!["one"]);
    let s = "a b\u{2028}c\u{85}d";
    let expected: Vec<&str> = s.split_whitespace().collect();
    assert_eq!(split_words(s), expected);
}

#[test]
fn whitespace_matches_std() {
    for c in ['\t', '\n', ' ', '\u{a0}', '\u{1680}', '\u{2005}', '\u{202f}', '\u{3000}', 'a', '\u{200b}'] {
        assert_eq!(is_space_char(c), c.is_whitespace());
    }
}

#[test]
fn decimal_renders_numbers() {
    assert_eq!(decimal_string(0), "0");
    assert_eq!(decimal_string(7), "7");
    assert_eq!(decimal_string(10), "10");
    assert_eq!(decimal_string(1234567890), "1234567890");
    assert_eq!(decimal_string(u64::MAX), u64::MAX.to_string());
}

#[test]
fn chars_round_trip() {
    let v = chars_of("置顶ab");
    assert_eq!(v, vec!['置', '顶', 'a', 'b']);
    assert_eq!(string_of(&v), "置顶ab");
    assert_eq!(substring(&v, 1, 3), "顶a");
    assert_eq!(concat_str("ab", "置顶"), "ab置顶");
    assert!(same_text("搜索  ", "搜索  "));
    assert!(!same_text("搜索 ", "搜索  "));
}
