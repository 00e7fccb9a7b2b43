use syntari_desktop_lib::text::{
    byte_len, decimal_string, one_decimal_string, split_lines, str_contains, str_contains_char,
    str_ends_with, str_eq, str_starts_with, to_chars, trim_chars, trim_matching_chars,
};

fn text(v: &Vec<char>) -> String {
    v.iter().collect()
}

#[test]
fn substring_search_finds_what_std_finds() {
    assert!(str_contains("hello world", "lo w"));
    assert!(str_contains("hello", ""));
    assert!(!str_contains("hello", "world"));
    assert!(!str_contains("ab", "abc"));
    assert!(str_contains("a..b", ".."));
    assert!(str_starts_with("/etc/passwd", "/etc/"));
    assert!(!str_starts_with("/home/etc/", "/etc/"));
    assert!(str_ends_with("main.rs", ".rs"));
    assert!(!str_ends_with("rs", "main.rs"));
    assert!(str_eq("abc", "abc"));
    assert!(!str_eq("abc", "abd"));
    assert!(str_contains_char("a$b", '$'));
    assert!(!str_contains_char("ab", '$'));
}

#[test]
fn lines_are_split_as_std_splits_them() {
    for sample in ["", "a", "a\n", "a\nb", "a\r\nb\r\n", "\n", "\n\n", "a\r", "a\rb\n", "x\n\r\ny"] {
        let chars = to_chars(sample);
        let lines: Vec<String> = split_lines(&chars).iter().map(text).collect();
        let expected: Vec<String> = sample.lines().map(|l| l.to_string()).collect();
        assert_eq!(lines, expected, "sample {:?}", sample);
    }
}

#[test]
fn trimming_matches_std() {
    for sample in ["", "  ", " a b ", "\t\nx\u{3000}", "x", "\u{a0}y\u{2003}"] {
        let chars = to_chars(sample);
        assert_eq!(text(&trim_chars(&chars)), sample.trim());
    }
    let quoted = to_chars("\"\"serde\"");
    assert_eq!(text(&trim_matching_chars(&quoted, '"')), "serde");
}

#[test]
fn decimal_digits_of_numbers() {
    assert_eq!(decimal_string(0), "0");
    assert_eq!(decimal_string(7), "7");
    assert_eq!(decimal_string(10), "10");
    assert_eq!(decimal_string(2097152), "2097152");
    assert_eq!(decimal_string(u64::MAX), "18446744073709551615");
}

#[test]
fn one_decimal_agrees_with_float_formatting() {
    let unit: u64 = 1_048_576;
    for size in [
        0u64, 1, 52_428, 52_429, 104_857, 104_858, 1_048_576, 1_048_577, 1_310_720, 1_572_864,
        2_097_152, 67_108_864, 67_108_865, 268_435_457, 3_145_728 + 157_286, 999_999_999_999,
    ] {
        let expected = format!("{:.1}", size as f64 / 1024.0 / 1024.0);
        assert_eq!(one_decimal_string(size, unit), expected, "size {}", size);
    }
    assert_eq!(one_decimal_string(1280, 1024), "1.2");
    assert_eq!(one_decimal_string(1792, 1024), "1.8");
    assert_eq!(one_decimal_string(1024 * 1024 - 1, 1024), "1024.0");
}

#[test]
fn byte_length_counts_utf8_bytes() {
    assert_eq!(byte_len("abc"), 3);
    assert_eq!(byte_len("é"), 2);
    assert_eq!(byte_len(""), 0);
}
