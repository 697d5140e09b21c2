use altbase_epic::text::{
    blank, contains, lines, parse_u64, same_text, to_decimal, to_lower, trim, trim_slashes,
};

#[test]
fn trim_takes_white_space_off_both_ends() {
    assert_eq!(trim(" \tab c\u{3000}\r\n"), "ab c");
    assert_eq!(trim("\u{a0}\u{2003}x\u{85}"), "x");
    assert_eq!(trim("  "), "");
    assert_eq!(trim(""), "");
    assert_eq!(trim("\u{200b}x"), "\u{200b}x");
}

#[test]
fn trim_agrees_with_str_trim_on_every_character() {
    let mut code = 0u32;
    while code <= 0x10ffff {
        if let Some(c) = char::from_u32(code) {
            let text = format!("{c}x{c}");
            assert_eq!(trim(&text), text.trim(), "{code:x}");
        }
        // Past the blocks that hold white space, a coarse step will do.
        code += if code < 0x4000 { 1 } else { 97 };
    }
}

#[test]
fn blank_is_what_trims_to_nothing() {
    assert!(blank(""));
    assert!(blank(" \t\n\u{3000}"));
    assert!(!blank(" . "));
}

#[test]
fn lower_case_is_ascii_only() {
    assert_eq!(to_lower("AbZ[@`{0"), "abz[@`{0");
    assert_eq!(to_lower("\u{c4}\u{130}K"), "\u{c4}\u{130}k");
}

#[test]
fn contains_finds_a_part_anywhere() {
    assert!(contains("abcabd", "abd"));
    assert!(contains("abc", "abc"));
    assert!(contains("abc", ""));
    assert!(contains("", ""));
    assert!(!contains("ab", "abc"));
    assert!(!contains("aab", "b a"));
}

#[test]
fn trailing_slashes_go_and_others_stay() {
    assert_eq!(trim_slashes("http://a/b//"), "http://a/b");
    assert_eq!(trim_slashes("///"), "");
    assert_eq!(trim_slashes("/a"), "/a");
}

#[test]
fn numbers_read_back() {
    for n in [0u64, 7, 10, 99, 100, 3_540_000, u64::MAX - 1, u64::MAX] {
        assert_eq!(to_decimal(n), n.to_string());
        assert_eq!(parse_u64(&to_decimal(n)), Some(n));
    }
}

#[test]
fn numbers_are_read_as_str_parse_reads_them() {
    let cases = [
        "", "+", "-1", "+5", "++5", "007", "18446744073709551615", "18446744073709551616",
        "99999999999999999999", "1 ", " 1", "1_000", "1a", "\u{661}", "+0",
    ];
    for text in cases {
        assert_eq!(parse_u64(text), text.parse::<u64>().ok(), "{text:?}");
    }
}

#[test]
fn lines_are_those_of_str_lines() {
    let cases = [
        "", "a", "a\n", "a\nb", "a\r\nb\r\n", "\n", "\n\n", "a\r", "a\rb\n", "\r\n", "a\n\r", "\r\r\n",
    ];
    for text in cases {
        let expected: Vec<String> = text.lines().map(|line| line.to_string()).collect();
        assert_eq!(lines(text), expected, "{text:?}");
    }
}

#[test]
fn texts_are_the_same_character_by_character() {
    assert!(same_text("send", "send"));
    assert!(!same_text("send", "Send"));
    assert!(!same_text("send", "sen"));
}
