use zotexon::text::{
    append_decimal, char_is_whitespace, chars_of, find_char, has_prefix, parse_u64_window,
    skip_leading, skip_trailing, skip_whitespace, skip_whitespace_back,
    window_equals,
};

fn text(v: &[char], from: usize, to: usize) -> String {
    v[from..to].iter().collect()
}

fn trimmed(s: &str) -> String {
    let v = chars_of(s);
    let a = skip_whitespace(&v, 0, v.len());
    let b = skip_whitespace_back(&v, a, v.len());
    text(&v, a, b)
}

fn parsed(s: &str) -> Option<u64> {
    let v = chars_of(s);
    parse_u64_window(&v, 0, v.len())
}

#[test]
fn white_space_is_what_the_standard_library_calls_white_space() {
    for code in 0u32..=0x10ffff {
        if let Some(c) = char::from_u32(code) {
            assert_eq!(char_is_whitespace(c), c.is_whitespace(), "U+{:04X}", code);
        }
    }
}

#[test]
fn characters_come_out_in_order() {
    assert_eq!(chars_of(""), Vec::<char>::new());
    assert_eq!(chars_of("a\u{e9}\u{1f600}z"), vec!['a', '\u{e9}', '\u{1f600}', 'z']);
}

#[test]
fn trimming_agrees_with_the_standard_library() {
    for s in [
        "",
        " ",
        "a",
        "  a b  ",
        "\t\r\nx\u{a0}\u{2003}",
        "\u{3000}\u{3000}",
        "x\u{200b}",
        " \u{feff}x ",
    ] {
        assert_eq!(trimmed(s), s.trim(), "{:?}", s);
    }
}

#[test]
fn numbers_are_read_as_the_standard_library_reads_them() {
    for s in [
        "",
        "0",
        "7",
        "007",
        "+7",
        "+",
        "-7",
        "++7",
        "7+",
        " 7",
        "7 ",
        "1_000",
        "12a",
        "\u{661}",
        "18446744073709551615",
        "18446744073709551616",
        "99999999999999999999999",
        "00000000000000000000000000001",
    ] {
        assert_eq!(parsed(s), s.parse::<u64>().ok(), "{:?}", s);
    }
}

#[test]
fn numbers_are_written_as_the_standard_library_writes_them() {
    for n in [0u64, 1, 9, 10, 11, 99, 100, 101, 12345, u64::MAX / 10, u64::MAX] {
        assert_eq!(append_decimal(String::from("v"), n), format!("v{}", n));
    }
}

#[test]
fn windows_of_a_text() {
    let v = chars_of("xxabcabcd>>");
    let abc = chars_of("abc");
    assert!(has_prefix(&v, 2, v.len(), &abc));
    assert!(!has_prefix(&v, 0, v.len(), &abc));
    assert!(!has_prefix(&v, 2, 4, &abc));
    assert!(has_prefix(&v, 2, 2, &chars_of("")));
    assert!(window_equals(&v, 2, 5, &abc));
    assert!(!window_equals(&v, 2, 6, &abc));
    assert_eq!(skip_leading(&v, 0, v.len(), 'x'), 2);
    assert_eq!(skip_trailing(&v, 0, v.len(), '>'), 9);
    assert_eq!(find_char(&v, 0, v.len(), 'c'), 4);
    assert_eq!(find_char(&v, 5, v.len(), 'c'), 7);
    assert_eq!(find_char(&v, 0, v.len(), '?'), v.len());
}
