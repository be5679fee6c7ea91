use streambed::text::{
    chars_of, decimal_string, find_char, parse_number, push_decimal, slice, split_spans,
    starts_with, str_eq, Span,
};

fn fields(s: &str, sep: char) -> Vec<String> {
    let chars = chars_of(s);
    split_spans(&chars, sep).into_iter().map(|span| slice(s, span).to_string()).collect()
}

#[test]
fn chars_of_keeps_every_char_in_order() {
    assert_eq!(chars_of("a\u{1F}é"), vec!['a', '\u{1F}', 'é']);
    assert_eq!(chars_of(""), Vec::<char>::new());
}

#[test]
fn str_eq_compares_chars() {
    assert!(str_eq("H264", "H264"));
    assert!(!str_eq("H264", "H265"));
    assert!(!str_eq("H264", "H26"));
    assert!(str_eq("", ""));
}

#[test]
fn starts_with_needs_the_whole_prefix() {
    assert!(starts_with("udp://226.1.1.1:5000", "udp://"));
    assert!(!starts_with("udp:/", "udp://"));
    assert!(!starts_with("rtsp://cam", "udp://"));
    assert!(starts_with("anything", ""));
}

#[test]
fn find_char_gives_first_occurrence_or_length() {
    let v = chars_of("a,b,c");
    assert_eq!(find_char(&v, 0, ','), 1);
    assert_eq!(find_char(&v, 2, ','), 3);
    assert_eq!(find_char(&v, 4, ','), 5);
    assert_eq!(find_char(&v, 5, ','), 5);
}

#[test]
fn split_keeps_empty_fields() {
    assert_eq!(fields("a,b,,c", ','), vec!["a", "b", "", "c"]);
    assert_eq!(fields("", ','), vec![""]);
    assert_eq!(fields(",", ','), vec!["", ""]);
    assert_eq!(fields("abc", ','), vec!["abc"]);
}

#[test]
fn slice_counts_chars_not_bytes() {
    assert_eq!(slice("é,ü", Span { start: 2, end: 3 }), "ü");
}

#[test]
fn parse_number_accepts_plain_digits() {
    assert_eq!(parse_number("6000", 65535), Some(6000));
    assert_eq!(parse_number("0", 65535), Some(0));
    assert_eq!(parse_number("007", 255), Some(7));
    assert_eq!(parse_number("+42", 65535), Some(42));
}

#[test]
fn parse_number_holds_the_limit() {
    assert_eq!(parse_number("65535", 65535), Some(65535));
    assert_eq!(parse_number("65536", 65535), None);
    assert_eq!(parse_number("18446744073709551615", u64::MAX), Some(u64::MAX));
    assert_eq!(parse_number("18446744073709551616", u64::MAX), None);
    assert_eq!(parse_number("99999999999999999999999999", u64::MAX), None);
    assert_eq!(parse_number("5", 0), None);
    assert_eq!(parse_number("0", 0), Some(0));
}

#[test]
fn parse_number_rejects_what_is_no_number() {
    assert_eq!(parse_number("", 100), None);
    assert_eq!(parse_number("+", 100), None);
    assert_eq!(parse_number("-1", 100), None);
    assert_eq!(parse_number("++1", 100), None);
    assert_eq!(parse_number("1 ", 100), None);
    assert_eq!(parse_number(" 1", 100), None);
    assert_eq!(parse_number("1a", 100), None);
    assert_eq!(parse_number("٣", 100), None);
}

#[test]
fn decimal_string_writes_without_leading_zeros() {
    assert_eq!(decimal_string(0), "0");
    assert_eq!(decimal_string(7), "7");
    assert_eq!(decimal_string(10), "10");
    assert_eq!(decimal_string(90_000), "90000");
    assert_eq!(decimal_string(u64::MAX), "18446744073709551615");
}

#[test]
fn push_decimal_appends() {
    let mut s = String::from("Flow");
    push_decimal(&mut s, 12);
    assert_eq!(s, "Flow12");
}

#[test]
fn written_numbers_parse_back() {
    for n in [0u64, 1, 9, 10, 99, 100, 5000, 65535, 4_294_967_295, u64::MAX] {
        assert_eq!(parse_number(&decimal_string(n), u64::MAX), Some(n));
    }
}
