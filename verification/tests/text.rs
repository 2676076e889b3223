use tmux_adapter::text::{parse_decimal, push_decimal, read_lossy};

fn written(n: u64) -> String {
    let mut out = String::new();
    push_decimal(&mut out, n);
    out
}

#[test]
fn decimal_numerals_are_read() {
    assert_eq!(parse_decimal("0"), Some(0));
    assert_eq!(parse_decimal("7"), Some(7));
    assert_eq!(parse_decimal("1700000000"), Some(1_700_000_000));
    assert_eq!(parse_decimal("18446744073709551615"), Some(u64::MAX));
}

#[test]
fn leading_zeros_are_accepted() {
    assert_eq!(parse_decimal("007"), Some(7));
    assert_eq!(parse_decimal("0000000000000000000000000000001"), Some(1));
}

#[test]
fn a_numeral_that_does_not_fit_is_refused() {
    assert_eq!(parse_decimal("18446744073709551616"), None);
    assert_eq!(parse_decimal("99999999999999999999999"), None);
}

#[test]
fn what_is_no_numeral_is_refused() {
    assert_eq!(parse_decimal(""), None);
    assert_eq!(parse_decimal("-1"), None);
    assert_eq!(parse_decimal("+1"), None);
    assert_eq!(parse_decimal(" 1"), None);
    assert_eq!(parse_decimal("1 "), None);
    assert_eq!(parse_decimal("1.0"), None);
    assert_eq!(parse_decimal("12a"), None);
    assert_eq!(parse_decimal("\u{0661}"), None);
    assert_eq!(parse_decimal("1\u{00e9}"), None);
}

#[test]
fn numbers_are_written_without_leading_zeros() {
    assert_eq!(written(0), "0");
    assert_eq!(written(9), "9");
    assert_eq!(written(10), "10");
    assert_eq!(written(1234567890), "1234567890");
    assert_eq!(written(u64::MAX), "18446744073709551615");
}

#[test]
fn push_decimal_appends() {
    let mut out = String::from("main:");
    push_decimal(&mut out, 42);
    assert_eq!(out, "main:42");
}

#[test]
fn writing_then_reading_gives_the_number() {
    for n in [0u64, 1, 9, 10, 99, 100, 65535, 4294967296, u64::MAX - 1, u64::MAX] {
        assert_eq!(parse_decimal(&written(n)), Some(n));
    }
}

#[test]
fn valid_text_is_read_as_it_is() {
    assert_eq!(read_lossy(b""), "");
    assert_eq!(read_lossy(b"hello\n"), "hello\n");
    assert_eq!(read_lossy("gr\u{00fc}n \u{2713}".as_bytes()), "gr\u{00fc}n \u{2713}");
    assert_eq!(read_lossy(b"\x1b[31mred\x1b[0m"), "\u{1b}[31mred\u{1b}[0m");
}

#[test]
fn invalid_bytes_are_replaced() {
    assert_eq!(read_lossy(b"a\xffb"), "a\u{fffd}b");
    assert_eq!(read_lossy(b"\xc3"), "\u{fffd}");
    assert_eq!(read_lossy(b"ok \xf0\x9f\x92 end"), "ok \u{fffd} end");
}
