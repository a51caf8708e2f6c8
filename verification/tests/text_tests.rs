use crab_launcher::text::{chars_of, compare_chars, contains, ellipse_string, replace_all, str_equal, NameOrder};

#[test]
fn contains_finds_substrings() {
    assert!(contains("Firefox Web Browser", "Web"));
    assert!(contains("abc", ""));
    assert!(contains("", ""));
    assert!(!contains("", "a"));
    assert!(!contains("abc", "abcd"));
    assert!(!contains("Firefox", "fox "));
    assert!(contains("żółw", "ół"));
}

#[test]
fn replace_all_matches_std_replace() {
    let cases = [
        ("a{X}b{X}c", "{X}", "1"),
        ("aaa", "aa", "b"),
        ("no placeholder", "{X}", "1"),
        ("{X}", "{X}", ""),
        ("ab{X}", "{X}", "{X}{X}"),
        ("łódź {X} łódź", "{X}", "żółw"),
        ("ab", "", "x"),
        ("", "", "x"),
        ("żó", "", ""),
    ];
    for (s, p, r) in cases {
        assert_eq!(replace_all(s, p, r), s.replace(p, r));
    }
    assert_eq!(replace_all("aaa", "aa", "b"), "ba");
    assert_eq!(replace_all("ab", "", "x"), "xaxbx");
}

#[test]
fn compare_chars_orders_like_strings() {
    let pairs = [("a", "b"), ("b", "a"), ("abc", "abc"), ("ab", "abc"), ("abc", "ab"), ("", ""), ("Z", "a"), ("é", "z")];
    for (a, b) in pairs {
        let expected = match a.cmp(b) {
            std::cmp::Ordering::Less => NameOrder::Less,
            std::cmp::Ordering::Equal => NameOrder::Equal,
            std::cmp::Ordering::Greater => NameOrder::Greater,
        };
        assert_eq!(compare_chars(&chars_of(a), &chars_of(b)), expected);
    }
}

#[test]
fn ellipse_string_shortens_long_names() {
    assert_eq!(ellipse_string("short", 10), "short");
    assert_eq!(ellipse_string("exactly10!", 10), "exactly10!");
    assert_eq!(ellipse_string("a longer name here", 8), "a longer...");
    assert_eq!(ellipse_string("źdźbło trawy", 6), "źdźbło...");
    assert_eq!(ellipse_string("", 0), "");
}

#[test]
fn str_equal_compares_characters() {
    assert!(str_equal("ShowWindow", "ShowWindow"));
    assert!(!str_equal("ShowWindow", "showwindow"));
    assert!(!str_equal("Show", "ShowWindow"));
    assert!(str_equal("", ""));
}

#[test]
fn chars_of_keeps_every_character() {
    assert_eq!(chars_of("a€b"), vec!['a', '€', 'b']);
    assert!(chars_of("").is_empty());
}
