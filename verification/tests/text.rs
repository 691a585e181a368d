use music_presence::text::{chars_of, contains_text, decimal_string, replace_text, same_text};

#[test]
fn decimal_numerals() {
    assert_eq!(decimal_string(0), "0");
    assert_eq!(decimal_string(7), "7");
    assert_eq!(decimal_string(10), "10");
    assert_eq!(decimal_string(4242), "4242");
    assert_eq!(decimal_string(1_000_000), "1000000");
    assert_eq!(decimal_string(u32::MAX), "4294967295");
}

#[test]
fn decimal_numerals_agree_with_the_standard_ones() {
    for n in [1u32, 9, 11, 99, 100, 101, 12345, 907, 65535, 65536, 4_000_000_000] {
        assert_eq!(decimal_string(n), n.to_string());
    }
}

#[test]
fn characters_come_in_order() {
    assert_eq!(chars_of(""), Vec::<char>::new());
    assert_eq!(chars_of("abc"), vec!['a', 'b', 'c']);
    assert_eq!(chars_of("né ♪"), vec!['n', 'é', ' ', '♪']);
}

#[test]
fn substring_search() {
    assert!(contains_text("org.mpris.MediaPlayer2.chromium.instance4242", "4242"));
    assert!(contains_text("4242", "4242"));
    assert!(contains_text("x4242", "4242"));
    assert!(contains_text("4242x", "4242"));
    assert!(!contains_text("424", "4242"));
    assert!(!contains_text("42-42", "4242"));
    assert!(!contains_text("", "4242"));
    assert!(contains_text("abc", ""));
    assert!(contains_text("", ""));
    assert!(contains_text("aab", "ab"));
    assert!(contains_text("ééa", "éa"));
}

#[test]
fn text_equality() {
    assert!(same_text("", ""));
    assert!(same_text("Song A", "Song A"));
    assert!(!same_text("Song A", "Song B"));
    assert!(!same_text("Song A", "Song"));
    assert!(!same_text("song a", "Song A"));
}

#[test]
fn replacement() {
    assert_eq!(replace_text("a/100x100bb.jpg", "100x100", "600x600"), "a/600x600bb.jpg");
    assert_eq!(replace_text("100x100", "100x100", "600x600"), "600x600");
    assert_eq!(replace_text("100x100100x100", "100x100", "6"), "66");
    assert_eq!(replace_text("no size here", "100x100", "600x600"), "no size here");
    assert_eq!(replace_text("short", "longer than the text", "x"), "short");
    assert_eq!(replace_text("", "a", "b"), "");
    assert_eq!(replace_text("aaa", "aa", "b"), "ba");
    assert_eq!(replace_text("abab", "ab", ""), "");
    assert_eq!(replace_text("xéyéz", "é", "e"), "xeyez");
    assert_eq!(replace_text("abc", "", "x"), "abc");
}

#[test]
fn replacement_agrees_with_the_standard_one() {
    let texts = ["", "a", "aaaa", "abcabc", "100x100/100x100", "x100x10100x100", "ababa"];
    let patterns = ["a", "aa", "abc", "100x100", "aba", "b"];
    for text in texts {
        for pattern in patterns {
            assert_eq!(replace_text(text, pattern, "<>"), text.replace(pattern, "<>"));
        }
    }
}
