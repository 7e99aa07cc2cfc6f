use datalens_mcp::text::{
    chars_of, contains, decimal_text, is_whitespace, join, parse_u64, starts_with, strip_trailing,
    text_eq, trim, truncate_utf8,
};

#[test]
fn truncate_utf8_keeps_char_boundaries() {
    let input = "abc\u{f0}\u{178}\u{2122}\u{201a}\u{f0}\u{178}\u{2122}\u{201a}";
    let out = truncate_utf8(input, 5);
    assert!(out.starts_with("abc"));
    assert!(!out.contains('\u{fffd}'));
}

#[test]
fn truncate_utf8_returns_short_input_unchanged() {
    assert_eq!(truncate_utf8("hello", 5), "hello");
    assert_eq!(truncate_utf8("hello", 2000), "hello");
    assert_eq!(truncate_utf8("", 0), "");
}

#[test]
fn truncate_utf8_cuts_at_the_limit_and_appends_the_marker() {
    assert_eq!(truncate_utf8("hello world", 5), "hello...(truncated)");
    assert_eq!(truncate_utf8("hello", 0), "...(truncated)");
}

#[test]
fn truncate_utf8_walks_back_to_a_boundary() {
    // Each smiling face takes four bytes: a cut inside one drops it whole.
    let input = "ab\u{1F642}\u{1F642}";
    assert_eq!(truncate_utf8(input, 2), "ab...(truncated)");
    assert_eq!(truncate_utf8(input, 3), "ab...(truncated)");
    assert_eq!(truncate_utf8(input, 5), "ab...(truncated)");
    assert_eq!(truncate_utf8(input, 6), "ab\u{1F642}...(truncated)");
    assert_eq!(truncate_utf8(input, 9), "ab\u{1F642}...(truncated)");
    assert_eq!(truncate_utf8(input, 10), input);
}

#[test]
fn truncate_utf8_stays_within_its_budget_for_every_cutoff() {
    let input = "a\u{e9}\u{20ac}\u{1F642}z\u{e9}\u{20ac}";
    let marker = "...(truncated)";
    for max in 0..=input.len() + 2 {
        let out = truncate_utf8(input, max);
        assert!(out.len() <= max + marker.len());
        if input.len() <= max {
            assert_eq!(out, input);
        } else {
            let kept = out.strip_suffix(marker).expect("a cut copy ends with the marker");
            assert!(input.starts_with(kept));
            assert!(kept.len() <= max);
            let next = input[kept.len()..].chars().next().expect("something was cut");
            assert!(kept.len() + next.len_utf8() > max);
        }
    }
}

#[test]
fn truncate_utf8_applies_the_diagnostic_limit() {
    let body = "x".repeat(2001);
    let out = truncate_utf8(&body, 2000);
    assert_eq!(out.len(), 2000 + "...(truncated)".len());
    assert!(out.ends_with("...(truncated)"));
}

#[test]
fn is_whitespace_agrees_with_the_standard_library() {
    for code in 0..=0x10FFFFu32 {
        if let Some(c) = char::from_u32(code) {
            assert_eq!(is_whitespace(c), c.is_whitespace(), "U+{:04X}", code);
        }
    }
}

#[test]
fn trim_agrees_with_the_standard_library() {
    let samples = [
        "",
        " ",
        "abc",
        "  abc",
        "abc  ",
        " \t\r\n abc def \n",
        "\u{a0}x\u{3000}",
        "\u{2028}\u{2029}",
        "a b",
        " \u{1F642} ",
    ];
    for sample in samples {
        assert_eq!(trim(sample), sample.trim(), "{:?}", sample);
    }
}

#[test]
fn starts_with_compares_prefixes() {
    assert!(starts_with("OAuth abc", "OAuth "));
    assert!(!starts_with("oauth abc", "OAuth "));
    assert!(!starts_with("OAuth", "OAuth "));
    assert!(starts_with("abc", ""));
    assert!(starts_with("", ""));
    assert!(!starts_with("", "a"));
}

#[test]
fn contains_finds_substrings() {
    assert!(contains("connection closed: initialized request", "initialized request"));
    assert!(contains("abc", ""));
    assert!(contains("", ""));
    assert!(contains("abc", "abc"));
    assert!(contains("xxabc", "abc"));
    assert!(!contains("ab", "abc"));
    assert!(!contains("abd", "abc"));
    assert!(contains("a\u{1F642}b", "\u{1F642}b"));
}

#[test]
fn strip_trailing_removes_every_trailing_slash() {
    assert_eq!(strip_trailing("https://api.datalens.tech/", '/'), "https://api.datalens.tech");
    assert_eq!(strip_trailing("https://api.datalens.tech///", '/'), "https://api.datalens.tech");
    assert_eq!(strip_trailing("https://api.datalens.tech", '/'), "https://api.datalens.tech");
    assert_eq!(strip_trailing("///", '/'), "");
    assert_eq!(strip_trailing("", '/'), "");
    assert_eq!(strip_trailing("a/b", '/'), "a/b");
}

#[test]
fn parse_u64_agrees_with_the_standard_library() {
    let samples = [
        "",
        "0",
        "7",
        "30",
        "+5",
        "+",
        "-1",
        "-0",
        "007",
        " 5",
        "5 ",
        "1_000",
        "12a",
        "1.5",
        "18446744073709551615",
        "18446744073709551616",
        "99999999999999999999999",
        "+18446744073709551615",
        "++1",
        "\u{661}",
    ];
    for sample in samples {
        assert_eq!(parse_u64(sample), sample.parse::<u64>().ok(), "{:?}", sample);
    }
}

#[test]
fn decimal_text_writes_numbers_without_leading_zeros() {
    assert_eq!(decimal_text(0), "0");
    assert_eq!(decimal_text(9), "9");
    assert_eq!(decimal_text(10), "10");
    assert_eq!(decimal_text(500), "500");
    assert_eq!(decimal_text(u64::MAX), "18446744073709551615");
    for n in [1u64, 26, 99, 100, 101, 65535, 1234567890] {
        assert_eq!(decimal_text(n), n.to_string());
    }
}

#[test]
fn text_eq_and_join_and_chars_of() {
    assert!(text_eq("abc", "abc"));
    assert!(!text_eq("abc", "abd"));
    assert!(!text_eq("abc", "ab"));
    assert!(text_eq("", ""));
    assert_eq!(join("OAuth ", "abc"), "OAuth abc");
    assert_eq!(chars_of("a\u{e9}\u{1F642}"), vec!['a', '\u{e9}', '\u{1F642}']);
}
