use avd_health_monitor::text::{
    chars_of, contains, split_on, starts_with, strip_leading, to_decimal, trim,
};

#[test]
fn decimal_numerals() {
    assert_eq!(to_decimal(0), "0");
    assert_eq!(to_decimal(7), "7");
    assert_eq!(to_decimal(10), "10");
    assert_eq!(to_decimal(443), "443");
    assert_eq!(to_decimal(65535), "65535");
    assert_eq!(to_decimal(1234567890), "1234567890");
    assert_eq!(to_decimal(u64::MAX), u64::MAX.to_string());
}

#[test]
fn leading_repetitions_are_stripped() {
    assert_eq!(strip_leading("*.wvd.microsoft.com", "*."), "wvd.microsoft.com");
    assert_eq!(strip_leading("*.*.x", "*."), "x");
    assert_eq!(strip_leading("*x", "*."), "*x");
    assert_eq!(strip_leading("x*.", "*."), "x*.");
    assert_eq!(strip_leading("", "*."), "");
    assert_eq!(strip_leading("*.", "*."), "");
    assert_eq!(strip_leading("abc", ""), "abc");
    assert_eq!(strip_leading("\\\\\\host", "\\"), "host");
    assert_eq!(strip_leading("ééa", "é"), "a");
}

#[test]
fn substrings() {
    assert!(contains("c:\\program files\\x", "program files"));
    assert!(contains("abc", ""));
    assert!(contains("", ""));
    assert!(contains("abc", "abc"));
    assert!(contains("abc", "c"));
    assert!(!contains("abc", "abcd"));
    assert!(!contains("", "a"));
    assert!(!contains("ababab", "abb"));
}

#[test]
fn pieces_between_separators() {
    assert_eq!(split_on("a;b;c", ';'), vec!["a", "b", "c"]);
    assert_eq!(split_on("", ';'), vec![""]);
    assert_eq!(split_on(";", ';'), vec!["", ""]);
    assert_eq!(split_on("a;;b;", ';'), vec!["a", "", "b", ""]);
    assert_eq!(split_on("no separator", ';'), vec!["no separator"]);
    for text in ["a;b;c", "", ";", "a;;b;", ";é;"] {
        let expected: Vec<String> = text.split(';').map(|s| s.to_string()).collect();
        assert_eq!(split_on(text, ';'), expected);
    }
}

#[test]
fn white_space_is_trimmed_at_both_ends() {
    assert_eq!(trim("  a b \t\n"), "a b");
    assert_eq!(trim(""), "");
    assert_eq!(trim(" \u{a0}\u{2003} "), "");
    assert_eq!(trim("x"), "x");
    for text in ["  a b \t\n", "", "   ", "x", " é ", "\u{3000}x\u{3000}"] {
        assert_eq!(trim(text), text.trim());
    }
}

#[test]
fn prefixes() {
    assert!(starts_with("\\\\host\\share", "\\\\"));
    assert!(starts_with("abc", ""));
    assert!(starts_with("abc", "abc"));
    assert!(!starts_with("abc", "abcd"));
    assert!(!starts_with("abc", "b"));
    assert!(!starts_with("", "a"));
}

#[test]
fn characters() {
    assert_eq!(chars_of("aé\u{1F600}"), vec!['a', 'é', '\u{1F600}']);
    assert!(chars_of("").is_empty());
}
