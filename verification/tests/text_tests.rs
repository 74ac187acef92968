use dayz_launcher::text::{concat_str, contains_str, decimal_string, split_whitespace, str_eq, string_of_chars, chars_of};

#[test]
fn decimal_rendering() {
    assert_eq!(decimal_string(0), "0");
    assert_eq!(decimal_string(7), "7");
    assert_eq!(decimal_string(10), "10");
    assert_eq!(decimal_string(2302), "2302");
    assert_eq!(decimal_string(u64::MAX), u64::MAX.to_string());
}

#[test]
fn substring_search() {
    assert!(contains_str("chernarus", "nar"));
    assert!(contains_str("chernarus", ""));
    assert!(contains_str("", ""));
    assert!(!contains_str("", "a"));
    assert!(contains_str("chernarus", "chernarus"));
    assert!(!contains_str("cherno", "chernarus"));
    assert!(contains_str("zażółć", "żół"));
    assert!(!contains_str("abcabd", "abe"));
}

#[test]
fn whitespace_words() {
    assert_eq!(split_whitespace(""), Vec::<String>::new());
    assert_eq!(split_whitespace("   "), Vec::<String>::new());
    assert_eq!(split_whitespace("a"), vec!["a"]);
    assert_eq!(split_whitespace(" a  b\tc\n"), vec!["a", "b", "c"]);
    assert_eq!(split_whitespace("x\u{2003}y\u{85}z"), vec!["x", "y", "z"]);
    let s = "  -noBenchmark \t -skipIntro\u{3000}-x ";
    let ours: Vec<String> = split_whitespace(s);
    let std_words: Vec<String> = s.split_whitespace().map(|w| w.to_string()).collect();
    assert_eq!(ours, std_words);
}

#[test]
fn string_helpers() {
    assert!(str_eq("abc", "abc"));
    assert!(!str_eq("abc", "abd"));
    assert!(!str_eq("abc", "ab"));
    assert_eq!(concat_str("-connect=", "1.2.3.4:1"), "-connect=1.2.3.4:1");
    assert_eq!(string_of_chars(&chars_of("żółw")), "żółw");
}

#[test]
fn whitespace_set_agrees_with_std_on_every_char() {
    for u in 0u32..=0x10FFFF {
        if let Some(c) = char::from_u32(u) {
            assert_eq!(dayz_launcher::text::is_whitespace(c), c.is_whitespace(), "U+{:04X}", u);
        }
    }
}

#[test]
fn decimal_agrees_with_display() {
    let mut n: u64 = 1;
    while n < u64::MAX / 3 {
        assert_eq!(decimal_string(n), n.to_string());
        assert_eq!(decimal_string(n - 1), (n - 1).to_string());
        n = n * 3 + 1;
    }
}

#[test]
fn substring_search_agrees_with_std() {
    let hay = ["", "a", "ab", "aab", "abab", "chernarus", "żółty żółw"];
    let needles = ["", "a", "b", "ab", "ba", "aab", "rus", "żółw", "w ż", "x"];
    for h in hay.iter() {
        for q in needles.iter() {
            assert_eq!(contains_str(h, q), h.contains(q), "{:?} in {:?}", q, h);
        }
    }
}
