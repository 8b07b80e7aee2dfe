use rtspy::text::{decimal_string, is_white_space, push_decimal, trim_text};

#[test]
fn decimal_of_zero_is_single_digit() {
    assert_eq!(decimal_string(0), "0");
}

#[test]
fn decimal_of_small_and_large_numbers() {
    assert_eq!(decimal_string(7), "7");
    assert_eq!(decimal_string(10), "10");
    assert_eq!(decimal_string(42), "42");
    assert_eq!(decimal_string(1_000_000), "1000000");
    assert_eq!(decimal_string(u64::MAX), "18446744073709551615");
}

#[test]
fn decimal_reads_back_as_the_number() {
    for n in [0u64, 1, 9, 10, 99, 100, 12345, 4294967295, u64::MAX] {
        let s = decimal_string(n);
        assert!(s.chars().all(|c| c.is_ascii_digit()));
        assert!(s == "0" || !s.starts_with('0'));
        assert_eq!(s.parse::<u64>().unwrap(), n);
    }
}

#[test]
fn push_decimal_appends() {
    let mut s = String::from("n=");
    push_decimal(&mut s, 305);
    assert_eq!(s, "n=305");
}

#[test]
fn trim_removes_leading_and_trailing_white_space() {
    assert_eq!(trim_text("  rtsp://127.0.0.1:8554/live \r\n"), "rtsp://127.0.0.1:8554/live");
    assert_eq!(trim_text("rtsp://cam/a b"), "rtsp://cam/a b");
    assert_eq!(trim_text("\t a \t b \t"), "a \t b");
}

#[test]
fn trim_handles_unicode_white_space() {
    assert_eq!(trim_text("\u{3000}\u{2003}url\u{00A0}\u{2029}"), "url");
    assert_eq!(trim_text("\u{200B}x"), "\u{200B}x");
}

#[test]
fn trim_of_blank_text_is_empty() {
    assert_eq!(trim_text(""), "");
    assert_eq!(trim_text(" \n\t "), "");
}

#[test]
fn trim_is_idempotent() {
    for s in ["  a  ", "b", "", "  ", "\nc d\n"] {
        let once = trim_text(s);
        assert_eq!(trim_text(&once), once);
        assert_eq!(once, s.trim());
    }
}

#[test]
fn white_space_is_the_set_std_tests() {
    for n in 0u32..=0x10FFFF {
        if let Some(c) = char::from_u32(n) {
            assert_eq!(is_white_space(c), c.is_whitespace(), "U+{:04X}", n);
        }
    }
}
