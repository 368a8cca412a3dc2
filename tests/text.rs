use upg_desktop::text::{decimal_string, last_nonempty_line_of, signed_decimal_string};

#[test]
fn decimal_rendering() {
    assert_eq!(decimal_string(0), "0");
    assert_eq!(decimal_string(7), "7");
    assert_eq!(decimal_string(10), "10");
    assert_eq!(decimal_string(1200), "1200");
    assert_eq!(decimal_string(u64::MAX), "18446744073709551615");
}

#[test]
fn signed_decimal_rendering() {
    assert_eq!(signed_decimal_string(0), "0");
    assert_eq!(signed_decimal_string(-1), "-1");
    assert_eq!(signed_decimal_string(i32::MIN), "-2147483648");
    assert_eq!(signed_decimal_string(i32::MAX), "2147483647");
}

#[test]
fn last_line_skips_empty_lines_and_carriage_returns() {
    assert_eq!(last_nonempty_line_of("error: missing dep\nfatal: aborting"), Some("fatal: aborting".to_string()));
    assert_eq!(last_nonempty_line_of("a\nb\n\n"), Some("b".to_string()));
    assert_eq!(last_nonempty_line_of("first\r\nsecond\r\n"), Some("second".to_string()));
    assert_eq!(last_nonempty_line_of("\r\n\n"), None);
    assert_eq!(last_nonempty_line_of(""), None);
    assert_eq!(last_nonempty_line_of("only"), Some("only".to_string()));
    assert_eq!(last_nonempty_line_of("héllo\nwörld ✓\n"), Some("wörld ✓".to_string()));
}
