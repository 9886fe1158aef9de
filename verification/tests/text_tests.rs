use muku::text::{decimal, last_slash_segment, parse_u64, signed_decimal_string, str_eq};

#[test]
fn decimal_rendering() {
    assert_eq!(decimal(0), "0");
    assert_eq!(decimal(7), "7");
    assert_eq!(decimal(1234567890), "1234567890");
    assert_eq!(decimal(u64::MAX), u64::MAX.to_string());
    assert_eq!(signed_decimal_string(-42), "-42");
    assert_eq!(signed_decimal_string(i64::MIN), i64::MIN.to_string());
    assert_eq!(signed_decimal_string(i64::MAX), i64::MAX.to_string());
}

#[test]
fn parse_matches_std() {
    let cases = [
        "", "+", "-", "0", "+0", "-0", "007", "+12", "12a", " 12", "18446744073709551615",
        "18446744073709551616", "99999999999999999999", "+18446744073709551615", "１２", "++1",
    ];
    for c in cases {
        assert_eq!(parse_u64(c), c.parse::<u64>().ok(), "case {:?}", c);
    }
}

#[test]
fn decimal_parse_round_trip() {
    for n in [0u64, 1, 9, 10, 99, 100, 65535, 1 << 40, u64::MAX - 1, u64::MAX] {
        assert_eq!(parse_u64(&decimal(n)), Some(n));
    }
}

#[test]
fn last_segment_after_slash() {
    assert_eq!(last_slash_segment("bytes 100-199/5000"), "5000");
    assert_eq!(last_slash_segment("no slash"), "no slash");
    assert_eq!(last_slash_segment("a/b/"), "");
    assert_eq!(last_slash_segment(""), "");
    assert_eq!(last_slash_segment("/x"), "x");
}

#[test]
fn slices_compare_by_characters() {
    assert!(str_eq("ムク", "ムク"));
    assert!(!str_eq("ムク", "ムカ"));
    assert!(str_eq("", ""));
}
