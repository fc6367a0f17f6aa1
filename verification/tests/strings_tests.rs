use rnl::strings::{
    contains_text, first_line, i64_to_decimal, join, parse_i32, split, split_whitespace,
    starts_with, trim, u64_to_decimal,
};

#[test]
fn trim_removes_surrounding_whitespace() {
    assert_eq!(trim("  linux \t\n"), "linux");
    assert_eq!(trim("   "), "");
    assert_eq!(trim("a b"), "a b");
    assert_eq!(trim("\u{2003}x\u{2003}"), "x");
}

#[test]
fn split_keeps_empty_pieces() {
    assert_eq!(split("linux,macos", ','), vec!["linux", "macos"]);
    assert_eq!(split("", ','), vec![""]);
    assert_eq!(split("a,,b,", ','), vec!["a", "", "b", ""]);
}

#[test]
fn join_puts_separator_between_items() {
    let items = vec!["a".to_string(), "b".to_string(), "c".to_string()];
    assert_eq!(join(&items, ", "), "a, b, c");
    assert_eq!(join(&Vec::new(), ", "), "");
    assert_eq!(join(&vec!["only".to_string()], "-"), "only");
}

#[test]
fn split_whitespace_drops_empty_words() {
    assert_eq!(
        split_whitespace("  -I/usr/include\t-lgtk-4 \n -pthread  "),
        vec!["-I/usr/include", "-lgtk-4", "-pthread"]
    );
    assert!(split_whitespace("   ").is_empty());
    assert!(split_whitespace("").is_empty());
}

#[test]
fn starts_with_and_contains() {
    assert!(starts_with("-lgtk", "-l"));
    assert!(!starts_with("-L", "-l"));
    assert!(starts_with("abc", ""));
    assert!(!starts_with("a", "ab"));
    assert!(contains_text("bunx: command not found", "not found"));
    assert!(contains_text("abc", ""));
    assert!(!contains_text("ab", "abc"));
    assert!(!contains_text("No such", "No such file"));
}

#[test]
fn first_line_stops_at_newline() {
    assert_eq!(first_line("v1.2.3\nsecond"), "v1.2.3");
    assert_eq!(first_line("v1.2.3\r\nsecond"), "v1.2.3");
    assert_eq!(first_line("single"), "single");
    assert_eq!(first_line(""), "");
    assert_eq!(first_line("\nsecond"), "");
}

#[test]
fn decimals_of_integers() {
    assert_eq!(u64_to_decimal(0), "0");
    assert_eq!(u64_to_decimal(1234567890), "1234567890");
    assert_eq!(u64_to_decimal(u64::MAX), "18446744073709551615");
    assert_eq!(i64_to_decimal(-42), "-42");
    assert_eq!(i64_to_decimal(i64::MIN), "-9223372036854775808");
    assert_eq!(i64_to_decimal(7), "7");
}

#[test]
fn parse_i32_as_std_does() {
    for s in [
        "0", "42", "-7", "+3", "007", "2147483647", "-2147483648", "2147483648", "-2147483649",
        "", "-", "+", "12a", " 1", "1 ", "99999999999999999999", "--1", "+-1",
    ] {
        assert_eq!(parse_i32(s), s.parse::<i32>().ok(), "input {:?}", s);
    }
    assert_eq!(parse_i32("12"), Some(12));
    assert_eq!(parse_i32("x"), None);
}
