use json_tool::text::{
    chars_contain, is_blank_text, is_whitespace_char, push_decimal, push_mebibytes, push_spaces,
    text_contains, text_equals, to_chars,
};

fn decimal_of(n: u64) -> String {
    let mut out = String::new();
    push_decimal(&mut out, n);
    out
}

fn mebibytes_of(bytes: u64) -> String {
    let mut out = String::new();
    push_mebibytes(&mut out, bytes);
    out
}

#[test]
fn whitespace_is_the_unicode_property() {
    let mut code: u32 = 0;
    while code <= 0x10FFFF {
        if let Some(c) = char::from_u32(code) {
            assert_eq!(is_whitespace_char(c), c.is_whitespace(), "U+{:04X}", code);
        }
        code += 1;
    }
}

#[test]
fn blank_is_what_trims_to_nothing() {
    for text in ["", " ", "\t\r\n", "\u{2003}\u{3000}\u{85}", " a ", "\u{200b}", "a", " \u{feff}", "  []  "] {
        assert_eq!(is_blank_text(text), text.trim().is_empty(), "{:?}", text);
    }
    assert!(is_blank_text(""));
    assert!(is_blank_text(" \n\u{a0}"));
    assert!(!is_blank_text(" . "));
}

#[test]
fn characters_of_a_text() {
    assert_eq!(to_chars("aé日"), vec!['a', 'é', '日']);
    assert_eq!(to_chars(""), Vec::<char>::new());
}

#[test]
fn substring_search_agrees_with_std() {
    let hays = ["", "a", "ab", "abcabd", "aaa", "expected `,` or `}` at line 1", "日本語のテキスト"];
    let needles = ["", "a", "b", "ab", "abd", "abda", "aaaa", "`,` or `}`", "語の", "の語"];
    for hay in hays {
        for needle in needles {
            assert_eq!(text_contains(hay, needle), hay.contains(needle), "{:?} in {:?}", needle, hay);
        }
    }
    assert!(text_contains("xxabc", "abc"));
    assert!(!text_contains("xxab", "abc"));
    assert!(text_contains("", ""));
    assert!(chars_contain(&to_chars("héllo"), &to_chars("éll")));
    assert!(!chars_contain(&to_chars("hello"), &to_chars("éll")));
}

#[test]
fn equality_of_texts() {
    assert!(text_equals("json", "json"));
    assert!(text_equals("", ""));
    assert!(!text_equals("json", "jso"));
    assert!(!text_equals("json", "jsoN"));
    assert!(!text_equals("json", "JSON"));
    assert!(!text_equals("", "a"));
}

#[test]
fn decimal_numerals() {
    assert_eq!(decimal_of(0), "0");
    assert_eq!(decimal_of(7), "7");
    assert_eq!(decimal_of(10), "10");
    assert_eq!(decimal_of(1234567890), "1234567890");
    assert_eq!(decimal_of(u64::MAX), "18446744073709551615");
    let mut n: u64 = 1;
    while n < u64::MAX / 7 {
        assert_eq!(decimal_of(n), n.to_string());
        assert_eq!(decimal_of(n - 1), (n - 1).to_string());
        n *= 7;
    }
    let mut out = String::from("n=");
    push_decimal(&mut out, 42);
    assert_eq!(out, "n=42");
}

#[test]
fn spaces_are_appended() {
    let mut out = String::from("x");
    push_spaces(&mut out, 0);
    assert_eq!(out, "x");
    push_spaces(&mut out, 4);
    assert_eq!(out, "x    ");
}

#[test]
fn mebibytes_have_two_decimals() {
    assert_eq!(mebibytes_of(0), "0.00");
    assert_eq!(mebibytes_of(1), "0.00");
    assert_eq!(mebibytes_of(5242), "0.00");
    assert_eq!(mebibytes_of(5243), "0.01");
    assert_eq!(mebibytes_of(1048576), "1.00");
    assert_eq!(mebibytes_of(6 * 1048576), "6.00");
    assert_eq!(mebibytes_of(5 * 1048576 + 1), "5.00");
    assert_eq!(mebibytes_of(11 * 1048576 + 524288), "11.50");
    assert_eq!(mebibytes_of(1234567890), "1177.38");
}

#[test]
fn mebibytes_halfway_go_to_the_even_hundredth() {
    // 5.125 MiB and 5.135 MiB lie exactly between two hundredths.
    assert_eq!(mebibytes_of(5373952), "5.12");
    assert_eq!(mebibytes_of(5373952 + 10485 + 1), "5.14");
    assert_eq!(mebibytes_of(131072), "0.12");
    assert_eq!(mebibytes_of(3 * 131072), "0.38");
}

#[test]
fn mebibytes_round_halves_as_two_decimal_rendering_does() {
    // 0.375 and 5.375 MiB lie halfway and go up to the even hundredth;
    // 5.125 MiB lies halfway and goes down to it.
    for bytes in [393216u64, 5373952, 5636096] {
        assert_eq!(mebibytes_of(bytes), format!("{:.2}", bytes as f64 / 1048576.0), "{} bytes", bytes);
    }
    assert_eq!(mebibytes_of(393216), "0.38");
    assert_eq!(mebibytes_of(5373952), "5.12");
    assert_eq!(mebibytes_of(5636096), "5.38");
}

#[test]
fn mebibytes_agree_with_floating_point_rendering() {
    let mut bytes: u64 = 0;
    while bytes < 64 * 1048576 {
        let expected = format!("{:.2}", bytes as f64 / (1024.0 * 1024.0));
        assert_eq!(mebibytes_of(bytes), expected, "{} bytes", bytes);
        bytes += 4099;
    }
    let mut odd: u64 = 1;
    while odd < 400 {
        let tie = odd * 131072;
        let expected = format!("{:.2}", tie as f64 / (1024.0 * 1024.0));
        assert_eq!(mebibytes_of(tie), expected, "{} bytes", tie);
        odd += 2;
    }
}
