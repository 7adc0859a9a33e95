use tshare::decimal::{parse_u16, push_decimal};
use tshare::protocol::{parse_resize_command, resize_command, session_ended_message, RESIZE_PREFIX, SESSION_ENDED};

fn numeral(n: u64) -> Vec<u8> {
    let mut out = Vec::new();
    push_decimal(&mut out, n);
    out
}

#[test]
fn decimal_numerals() {
    assert_eq!(numeral(0), b"0".to_vec());
    assert_eq!(numeral(7), b"7".to_vec());
    assert_eq!(numeral(10), b"10".to_vec());
    assert_eq!(numeral(12345), b"12345".to_vec());
    assert_eq!(numeral(u64::MAX), b"18446744073709551615".to_vec());
}

#[test]
fn decimal_numeral_appends() {
    let mut out = b"x=".to_vec();
    push_decimal(&mut out, 42);
    assert_eq!(out, b"x=42".to_vec());
}

#[test]
fn u16_reading_matches_std() {
    let cases: [&str; 16] = [
        "0", "8080", "+42", "+", "", "-1", "65535", "65536", "007", "1a", "++1", "+-1", " 1", "99999999999", "+0", "-",
    ];
    for case in cases {
        assert_eq!(parse_u16(case.as_bytes()), case.parse::<u16>().ok(), "reading {:?}", case);
    }
}

#[test]
fn resize_command_text() {
    assert_eq!(resize_command(120, 30), b"RESIZE:120:30".to_vec());
    assert_eq!(resize_command(0, 0), b"RESIZE:0:0".to_vec());
    assert_eq!(resize_command(70000, 5), b"RESIZE:70000:5".to_vec());
}

#[test]
fn resize_command_reads_back() {
    for (cols, rows) in [(120u16, 30u16), (0, 0), (65535, 65535), (80, 24), (1, 65535)] {
        let cmd = resize_command(cols as u64, rows as u64);
        assert_eq!(parse_resize_command(&cmd), Some((cols, rows)));
    }
}

#[test]
fn oversized_resize_is_not_a_command() {
    assert_eq!(parse_resize_command(&resize_command(65536, 30)), None);
    assert_eq!(parse_resize_command(&resize_command(80, 1_000_000)), None);
}

#[test]
fn resize_parsing_cases() {
    assert_eq!(parse_resize_command(b"RESIZE:100:40"), Some((100, 40)));
    assert_eq!(parse_resize_command(b"RESIZE:+100:+40"), Some((100, 40)));
    assert_eq!(parse_resize_command(b"RESIZE:1:2:3"), None);
    assert_eq!(parse_resize_command(b"RESIZE::2"), None);
    assert_eq!(parse_resize_command(b"RESIZE:1:"), None);
    assert_eq!(parse_resize_command(b"RESIZE:12"), None);
    assert_eq!(parse_resize_command(b"RESIZE:"), None);
    assert_eq!(parse_resize_command(b"RESIZE"), None);
    assert_eq!(parse_resize_command(b"resize:1:2"), None);
    assert_eq!(parse_resize_command(b" RESIZE:1:2"), None);
    assert_eq!(parse_resize_command(b"RESIZE:1 :2"), None);
    assert_eq!(parse_resize_command(b"RESIZE:-1:2"), None);
    assert_eq!(parse_resize_command(b"hello"), None);
    assert_eq!(parse_resize_command(b""), None);
    assert_eq!(parse_resize_command(&[0x52, 0x45, 0xff, 0xfe]), None);
}

#[test]
fn protocol_texts() {
    assert_eq!(RESIZE_PREFIX, "RESIZE:");
    assert_eq!(SESSION_ENDED, "__TSHARE_SESSION_ENDED__");
    assert_eq!(session_ended_message(), b"__TSHARE_SESSION_ENDED__".to_vec());
}
