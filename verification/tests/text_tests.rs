use gridix::text::{
    byte_length, chars_of, clip, find_text, has_text, locate, occurs_here, offset_of,
    parse_number, push_decimal, push_decimal_u64, push_range, push_replaced, same_text,
    split_lines, starts_with, string_of, string_of_range, trim_bounds, trimmed, truncate_str,
    try_clip, try_clip_start, width_of,
};

fn chars(s: &str) -> Vec<char> {
    s.chars().collect()
}

fn lines(s: &str) -> Vec<String> {
    split_lines(&chars(s)).iter().map(|l| l.iter().collect()).collect()
}

#[test]
fn characters_and_strings_convert_both_ways() {
    assert_eq!(chars_of("a€b"), vec!['a', '€', 'b']);
    assert_eq!(string_of(&vec!['选', 'x']), "选x");
    assert!(chars_of("").is_empty());
    assert!(same_text("abc", "abc"));
    assert!(!same_text("abc", "abd"));
    assert!(!same_text("abc", "ab"));
    assert!(same_text("", ""));
}

#[test]
fn trimming_cuts_whitespace_at_both_ends() {
    assert_eq!(trim_bounds(&chars("  a b \n")), (2, 5));
    assert_eq!(trim_bounds(&chars("   ")), (3, 3));
    assert_eq!(trim_bounds(&chars("")), (0, 0));
    assert_eq!(string_of(&trimmed(&chars("\t\u{a0}x y\u{3000}"))), "x y");
    for s in ["", " ", "a", " a ", "\r\n a \u{2003}b\t", "选 择 "] {
        assert_eq!(string_of(&trimmed(&chars(s))), s.trim(), "{:?}", s);
    }
}

#[test]
fn lines_split_as_the_standard_library_splits_them() {
    assert_eq!(lines("a\nb"), vec!["a", "b"]);
    assert_eq!(lines("a\n"), vec!["a"]);
    assert_eq!(lines("a\r\nb\r\n"), vec!["a", "b"]);
    assert_eq!(lines("a\rb\r"), vec!["a\rb\r"]);
    assert_eq!(lines("a\r\n\r\n"), vec!["a", ""]);
    assert_eq!(lines("\n"), vec![""]);
    assert!(lines("").is_empty());
    for s in ["", "\n", "\r", "\r\n", "a", "a\n\nb", "x\r\r\ny", "\n\n\n", "end\r", "a\r\n"] {
        let want: Vec<String> = s.lines().map(|l| l.to_string()).collect();
        assert_eq!(lines(s), want, "{:?}", s);
    }
}

#[test]
fn search_finds_the_first_occurrence() {
    assert_eq!(find_text(&chars("abcabc"), &chars("bc")), Some(1));
    assert_eq!(find_text(&chars("abc"), &chars("abcd")), None);
    assert_eq!(find_text(&chars("abc"), &chars("")), Some(0));
    assert_eq!(find_text(&chars(""), &chars("")), Some(0));
    assert_eq!(find_text(&chars("aab"), &chars("ab")), Some(1));
    assert_eq!(find_text(&chars("选择from"), &chars("from")), Some(2));
    assert!(starts_with(&chars("SELECT 1"), "SELECT"));
    assert!(!starts_with(&chars("SELEC"), "SELECT"));
    assert!(starts_with(&chars("x"), ""));
    assert!(has_text(&chars("连接失败了"), "失败"));
    assert!(!has_text(&chars("ok"), "Error"));
}

#[test]
fn byte_offsets_follow_utf8() {
    assert_eq!(width_of('a'), 1);
    assert_eq!(width_of('é'), 2);
    assert_eq!(width_of('€'), 3);
    assert_eq!(width_of('😀'), 4);
    assert_eq!(width_of('\u{7f}'), 1);
    assert_eq!(width_of('\u{80}'), 2);
    assert_eq!(width_of('\u{7ff}'), 2);
    assert_eq!(width_of('\u{800}'), 3);
    assert_eq!(width_of('\u{ffff}'), 3);
    assert_eq!(width_of('\u{10000}'), 4);
    assert_eq!(byte_length("a€b"), 5);
    let v = chars("a€b😀");
    assert_eq!(offset_of(&v, 0), 0);
    assert_eq!(offset_of(&v, 2), 4);
    assert_eq!(offset_of(&v, 4), 9);
    assert_eq!(locate(&v, 0), (0, true));
    assert_eq!(locate(&v, 1), (1, true));
    assert_eq!(locate(&v, 2), (1, false));
    assert_eq!(locate(&v, 4), (2, true));
    assert_eq!(locate(&v, 5), (3, true));
    assert_eq!(locate(&v, 8), (3, false));
    assert_eq!(locate(&v, 9), (4, true));
    assert_eq!(locate(&v, 10), (4, false));
}

#[test]
fn numbers_parse_as_unsigned_integers() {
    assert_eq!(parse_number(&chars("0")), Some(0));
    assert_eq!(parse_number(&chars("42")), Some(42));
    assert_eq!(parse_number(&chars("+7")), Some(7));
    assert_eq!(parse_number(&chars("007")), Some(7));
    assert_eq!(parse_number(&chars("")), None);
    assert_eq!(parse_number(&chars("+")), None);
    assert_eq!(parse_number(&chars("-1")), None);
    assert_eq!(parse_number(&chars("++1")), None);
    assert_eq!(parse_number(&chars("1 ")), None);
    assert_eq!(parse_number(&chars("1_000")), None);
    assert_eq!(parse_number(&chars("١٢")), None);
    let max = usize::MAX.to_string();
    assert_eq!(parse_number(&chars(&max)), Some(usize::MAX));
    let over = format!("{}0", max);
    assert_eq!(parse_number(&chars(&over)), None);
    let next = (usize::MAX as u128 + 1).to_string();
    assert_eq!(parse_number(&chars(&next)), None);
    for s in ["18446744073709551616", "00000000000000000000000001", "9", "+0"] {
        assert_eq!(parse_number(&chars(s)), s.parse::<usize>().ok(), "{:?}", s);
    }
}

#[test]
fn numbers_print_in_base_ten_and_read_back() {
    for n in [0usize, 1, 9, 10, 11, 99, 100, 1234567890, usize::MAX] {
        let mut out = chars("n=");
        push_decimal(&mut out, n);
        assert_eq!(string_of(&out), format!("n={}", n));
        assert_eq!(parse_number(&out[2..].to_vec()), Some(n));
    }
    let mut out = Vec::new();
    push_decimal_u64(&mut out, u64::MAX);
    assert_eq!(string_of(&out), "18446744073709551615");
}

#[test]
fn replacing_characters() {
    let mut out = chars(">");
    push_replaced(&mut out, "it's 'x'", '\'', "''");
    assert_eq!(string_of(&out), ">it''s ''x''");
    let mut out = Vec::new();
    push_replaced(&mut out, "a.b.c", '.', "");
    assert_eq!(string_of(&out), "abc");
    let mut out = Vec::new();
    push_replaced(&mut out, "", 'x', "y");
    assert!(out.is_empty());
}

#[test]
fn clipping_counts_bytes() {
    assert_eq!(clip("short", 50, 47), "short");
    let long = "x".repeat(51);
    assert_eq!(clip(&long, 50, 47), format!("{}...", "x".repeat(47)));
    let exact = "x".repeat(50);
    assert_eq!(clip(&exact, 50, 47), exact);
    let wide = "选".repeat(17);
    assert_eq!(try_clip(&wide, 50, 47), None);
    assert_eq!(try_clip(&wide, 50, 48), Some(format!("{}...", "选".repeat(16))));
    assert_eq!(try_clip(&wide, 51, 47), Some(wide.clone()));
    assert_eq!(try_clip("abc", 2, 5), None);
}

#[test]
fn truncating_counts_characters() {
    assert_eq!(truncate_str("customer_name", 6), "custom…");
    assert_eq!(truncate_str("name", 6), "name");
    assert_eq!(truncate_str("abcdef", 6), "abcdef");
    assert_eq!(truncate_str("用户名称列表项", 6), "用户名称列表…");
    assert_eq!(truncate_str("abc", 0), "…");
    assert_eq!(truncate_str("", 0), "");
}

#[test]
fn ranges_of_characters_are_copied() {
    let v = chars_of("héllo");
    assert_eq!(string_of_range(&v, 1, 4), "éll");
    assert_eq!(string_of_range(&v, 2, 2), "");
    assert_eq!(string_of_range(&v, 0, 5), "héllo");
    let mut out = chars_of("ab");
    push_range(&mut out, &v, 3, 5);
    assert_eq!(string_of(&out), "ablo");
    push_range(&mut out, &v, 5, 5);
    assert_eq!(string_of(&out), "ablo");
}

#[test]
fn a_text_occurs_at_an_index_or_not() {
    let v = chars_of("select");
    assert!(occurs_here(&v, &chars_of("lec"), 2));
    assert!(!occurs_here(&v, &chars_of("lec"), 1));
    assert!(occurs_here(&v, &chars_of(""), 6));
    assert!(!occurs_here(&v, &chars_of(""), 7));
    assert!(!occurs_here(&v, &chars_of("ct"), 5));
    assert!(occurs_here(&v, &chars_of("ct"), 4));
    assert!(!occurs_here(&v, &chars_of("selects"), 0));
    assert!(!occurs_here(&v, &chars_of("t"), usize::MAX));
}

#[test]
fn a_long_text_is_cut_from_its_start() {
    assert_eq!(try_clip_start("short", 10, 7).as_deref(), Some("short"));
    assert_eq!(try_clip_start("0123456789abc", 10, 7).as_deref(), Some("...6789abc"));
    assert_eq!(try_clip_start("0123456789a", 10, 0).as_deref(), Some("..."));
    assert_eq!(try_clip_start("0123456789a", 10, 11).as_deref(), Some("...0123456789a"));
    assert_eq!(try_clip_start("0123456789a", 10, 12), None);
    assert_eq!(try_clip_start("目录目录目录", 10, 6).as_deref(), Some("...目录"));
    assert_eq!(try_clip_start("目录目录目录", 10, 7), None);
}
