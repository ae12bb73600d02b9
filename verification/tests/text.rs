use navitag::text::{chars_of, decimal, found_at, replace_all, trim};

#[test]
fn replace_every_occurrence_from_the_left() {
    assert_eq!(replace_all("aaa", "aa", "b"), "ba");
    assert_eq!(replace_all("abcabc", "bc", "X"), "aXaX");
    assert_eq!(replace_all("abcabc", "abc", ""), "");
    assert_eq!(replace_all("hello", "l", "LL"), "heLLLLo");
}

#[test]
fn replace_leaves_text_without_the_pattern() {
    assert_eq!(replace_all("hello", "xyz", "q"), "hello");
    assert_eq!(replace_all("", "a", "b"), "");
    assert_eq!(replace_all("ab", "abc", "q"), "ab");
}

#[test]
fn replace_with_an_empty_pattern_changes_nothing() {
    assert_eq!(replace_all("hello", "", "q"), "hello");
    assert_eq!(replace_all("", "", "q"), "");
}

#[test]
fn replace_counts_characters_not_bytes() {
    assert_eq!(replace_all("héllo wörld", "ö", "oe"), "héllo woerld");
    assert_eq!(replace_all("日本語日本", "日本", "x"), "x語x");
}

#[test]
fn chars_are_read_in_order() {
    assert_eq!(chars_of("aé日"), vec!['a', 'é', '日']);
    assert!(chars_of("").is_empty());
}

#[test]
fn found_at_compares_in_place() {
    let text = chars_of("abcabd");
    let pattern = chars_of("abd");
    assert!(!found_at(&text, &pattern, 0));
    assert!(found_at(&text, &pattern, 3));
    assert!(found_at(&text, &chars_of(""), 6));
    assert!(!found_at(&text, &chars_of(""), 7));
    assert!(!found_at(&text, &pattern, 4));
    assert!(!found_at(&text, &pattern, usize::MAX));
}

#[test]
fn decimal_digits() {
    assert_eq!(decimal(0), "0");
    assert_eq!(decimal(7), "7");
    assert_eq!(decimal(10), "10");
    assert_eq!(decimal(909), "909");
    assert_eq!(decimal(1234567890), "1234567890");
    assert_eq!(decimal(usize::MAX), usize::MAX.to_string());
}

#[test]
fn trim_drops_white_space_at_both_ends() {
    assert_eq!(trim("  a b  "), "a b");
    assert_eq!(trim("\t\n a\r\n"), "a");
    assert_eq!(trim("a"), "a");
    assert_eq!(trim(""), "");
    assert_eq!(trim("   "), "");
    assert_eq!(trim("\u{a0}\u{2003}x\u{3000}\u{85}"), "x");
    assert_eq!(trim("\u{200b}x"), "\u{200b}x");
    for text in ["  é  ", " 日本 語 ", "x ", " x", "\u{1680}\u{2028}"] {
        assert_eq!(trim(text), text.trim());
    }
}
