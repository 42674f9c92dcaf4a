use sigil::text::{
    char_is_whitespace, chars_of, decimal_string, parse_i32_chars, parse_trimmed_i32,
    push_decimal, push_digits, split_lines, str_contains, str_eq, str_is_blank, string_of,
    trim_bounds,
};

#[test]
fn decimal_notation() {
    assert_eq!(decimal_string(0), "0");
    assert_eq!(decimal_string(7), "7");
    assert_eq!(decimal_string(10), "10");
    assert_eq!(decimal_string(-1), "-1");
    assert_eq!(decimal_string(1234567890), "1234567890");
    assert_eq!(decimal_string(i64::MAX), "9223372036854775807");
    assert_eq!(decimal_string(i64::MIN), "-9223372036854775808");
    for n in -1100i64..1100 {
        assert_eq!(decimal_string(n), n.to_string());
    }
    for shift in 0..63 {
        let n = 1i64 << shift;
        assert_eq!(decimal_string(n), n.to_string());
        assert_eq!(decimal_string(-n), (-n).to_string());
        assert_eq!(decimal_string(n - 1), (n - 1).to_string());
    }
}

#[test]
fn digits_are_appended() {
    let mut s = String::from("n=");
    push_digits(&mut s, 0);
    push_digits(&mut s, 405);
    push_digits(&mut s, u64::MAX);
    assert_eq!(s, "n=040518446744073709551615");
    let mut t = String::from("x");
    push_decimal(&mut t, -30);
    push_decimal(&mut t, 30);
    assert_eq!(t, "x-3030");
}

#[test]
fn characters_round_trip() {
    let text = "héllo, 世界! \u{1F600}";
    let chars = chars_of(text);
    assert_eq!(chars, text.chars().collect::<Vec<char>>());
    assert_eq!(string_of(&chars, 0, chars.len()), text);
    assert_eq!(string_of(&chars, 7, 9), "世界");
    assert_eq!(string_of(&chars, 3, 3), "");
    assert!(chars_of("").is_empty());
}

#[test]
fn white_space_is_that_of_the_standard_library() {
    for code in 0u32..=0x10FFFF {
        if let Some(c) = char::from_u32(code) {
            assert_eq!(char_is_whitespace(c), c.is_whitespace(), "U+{:04X}", code);
        }
    }
}

#[test]
fn blank_texts() {
    assert!(str_is_blank(""));
    assert!(str_is_blank(" "));
    assert!(str_is_blank(" \t\r\n\u{3000}\u{a0}"));
    assert!(!str_is_blank("a"));
    assert!(!str_is_blank("  a  "));
    assert!(!str_is_blank("\u{200b}"));
    for s in ["", " ", "x", " x", "x ", "\n\n", "命令", " 命令 ", "\u{2028}"] {
        assert_eq!(str_is_blank(s), s.trim().is_empty(), "{:?}", s);
    }
}

#[test]
fn trimming() {
    for s in [
        "",
        " ",
        "a",
        "  a",
        "a  ",
        "  a b  ",
        "\t\r\n0 \r\n",
        "\u{3000}名称\u{3000}",
        "   ",
        "a\u{a0}",
    ] {
        let chars = chars_of(s);
        let (a, b) = trim_bounds(&chars);
        assert!(a <= b && b <= chars.len());
        assert_eq!(string_of(&chars, a, b), s.trim(), "{:?}", s);
    }
}

#[test]
fn parsing_integers() {
    let cases: [(&str, Option<i32>); 24] = [
        ("0", Some(0)),
        ("3", Some(3)),
        ("-3", Some(-3)),
        ("+3", Some(3)),
        ("007", Some(7)),
        ("-0", Some(0)),
        ("2147483647", Some(i32::MAX)),
        ("-2147483648", Some(i32::MIN)),
        ("2147483648", None),
        ("-2147483649", None),
        ("99999999999999999999999999", None),
        ("", None),
        ("-", None),
        ("+", None),
        ("+-1", None),
        ("--1", None),
        ("1-", None),
        ("12a", None),
        ("a12", None),
        ("1 2", None),
        ("1.0", None),
        ("0x10", None),
        ("١٢", None),
        ("00000000000000000000000012", Some(12)),
    ];
    for (text, expected) in cases {
        let chars = chars_of(text);
        assert_eq!(parse_i32_chars(&chars, 0, chars.len()), expected, "{:?}", text);
        assert_eq!(expected, text.parse::<i32>().ok(), "{:?}", text);
    }
    let chars = chars_of("ab-45cd");
    assert_eq!(parse_i32_chars(&chars, 2, 5), Some(-45));
    assert_eq!(parse_i32_chars(&chars, 2, 6), None);
    assert_eq!(parse_i32_chars(&chars, 3, 3), None);
}

#[test]
fn parsing_exit_codes() {
    assert_eq!(parse_trimmed_i32("0 \r\n"), Some(0));
    assert_eq!(parse_trimmed_i32("  -1073741510\n"), Some(-1073741510));
    assert_eq!(parse_trimmed_i32("1"), Some(1));
    assert_eq!(parse_trimmed_i32(""), None);
    assert_eq!(parse_trimmed_i32("\r\n"), None);
    assert_eq!(parse_trimmed_i32("1 2"), None);
    for s in ["255", " 255", "255 ", "+9", "- 9", "9\u{3000}", "\t-9\t"] {
        assert_eq!(parse_trimmed_i32(s), s.trim().parse::<i32>().ok(), "{:?}", s);
    }
}

#[test]
fn splitting_lines() {
    let cases: [(&str, Vec<&str>); 14] = [
        ("", vec![]),
        ("a", vec!["a"]),
        ("a\n", vec!["a"]),
        ("a\r\n", vec!["a"]),
        ("a\nb", vec!["a", "b"]),
        ("a\r\nb\r\n", vec!["a", "b"]),
        ("\n", vec![""]),
        ("\n\n", vec!["", ""]),
        ("a\n\nb", vec!["a", "", "b"]),
        ("a\r", vec!["a\r"]),
        ("a\rb\n", vec!["a\rb"]),
        ("a\r\r\n", vec!["a\r"]),
        ("\r\n", vec![""]),
        ("你好\n世界\r\n", vec!["你好", "世界"]),
    ];
    for (text, expected) in cases {
        assert_eq!(split_lines(text), expected, "{:?}", text);
        assert_eq!(text.lines().collect::<Vec<&str>>(), expected, "{:?}", text);
    }
}

#[test]
fn comparing_and_searching() {
    assert!(str_eq("", ""));
    assert!(str_eq("en-US", "en-US"));
    assert!(!str_eq("en-US", "en-us"));
    assert!(!str_eq("en-US", "en-US "));
    assert!(!str_eq("", "a"));
    assert!(str_eq("语言", "语言"));

    assert!(str_contains("value not found here", "not found"));
    assert!(str_contains("not found", "not found"));
    assert!(str_contains("xnot found", "not found"));
    assert!(!str_contains("not foun", "not found"));
    assert!(!str_contains("", "not found"));
    assert!(str_contains("", ""));
    assert!(str_contains("abc", ""));
    assert!(str_contains("aab", "ab"));
    assert!(str_contains("abababc", "ababc"));
    assert!(str_contains("系统找不到指定的文件。", "系统找不到"));
    assert!(!str_contains("系统找到", "系统找不到"));
}
