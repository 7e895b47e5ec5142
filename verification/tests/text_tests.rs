use ln_multihop::text::{
    i64_to_decimal, parse_u64, str_eq, trim, trim_end_matches, u64_to_decimal, IntErrorKind,
};

#[test]
fn str_eq_compares_characters() {
    assert!(str_eq("CHANNELD_NORMAL", "CHANNELD_NORMAL"));
    assert!(!str_eq("CHANNELD_NORMAL", "CHANNELD_AWAITING_LOCKIN"));
    assert!(!str_eq("abc", "abcd"));
    assert!(str_eq("", ""));
    assert!(str_eq("héllo", "héllo"));
}

#[test]
fn u64_rendering_matches_to_string() {
    for n in [0u64, 7, 10, 101, 3010, 100000000, u64::MAX] {
        assert_eq!(u64_to_decimal(n), n.to_string());
    }
    assert_eq!(u64_to_decimal(18446744073709551615), "18446744073709551615");
}

#[test]
fn i64_rendering_matches_to_string() {
    for n in [0i64, 42, -5, -1000, i64::MAX, i64::MIN] {
        assert_eq!(i64_to_decimal(n), n.to_string());
    }
    assert_eq!(i64_to_decimal(i64::MIN), "-9223372036854775808");
}

#[test]
fn parse_accepts_what_from_str_accepts() {
    assert_eq!(parse_u64("101"), Ok(101));
    assert_eq!(parse_u64("+7"), Ok(7));
    assert_eq!(parse_u64("007"), Ok(7));
    assert_eq!(parse_u64("18446744073709551615"), Ok(u64::MAX));
}

#[test]
fn parse_errors_match_from_str() {
    assert_eq!(parse_u64(""), Err(IntErrorKind::Empty));
    assert_eq!(parse_u64("+"), Err(IntErrorKind::InvalidDigit));
    assert_eq!(parse_u64("-"), Err(IntErrorKind::InvalidDigit));
    assert_eq!(parse_u64("-5"), Err(IntErrorKind::InvalidDigit));
    assert_eq!(parse_u64("12a"), Err(IntErrorKind::InvalidDigit));
    assert_eq!(parse_u64(" 1"), Err(IntErrorKind::InvalidDigit));
    assert_eq!(parse_u64("18446744073709551616"), Err(IntErrorKind::PosOverflow));
    assert_eq!(parse_u64("99999999999999999999x"), Err(IntErrorKind::PosOverflow));
    for s in ["", "+", "-5", "12a", "18446744073709551616", "99999999999999999999x", "٣"] {
        assert!(s.parse::<u64>().is_err());
        assert!(parse_u64(s).is_err());
    }
}

#[test]
fn parse_reads_back_rendering() {
    for n in [0u64, 1, 9, 10, 65535, 4294967296, u64::MAX - 1, u64::MAX] {
        assert_eq!(parse_u64(&u64_to_decimal(n)), Ok(n));
    }
}

#[test]
fn trim_removes_unicode_white_space() {
    assert_eq!(trim("  \t101\n"), "101");
    assert_eq!(trim("\u{3000}x y\u{a0}\u{2028}"), "x y");
    assert_eq!(trim(" \n\t "), "");
    assert_eq!(trim(""), "");
    assert_eq!(trim("abc"), "abc");
    for s in ["  a b  ", "\u{85}q\u{202f}", "\r\n", "zz"] {
        assert_eq!(trim(s), s.trim());
    }
}

#[test]
fn trim_twice_is_trim_once() {
    for s in ["  a b  ", "\u{85}q\u{202f}", "\r\n", "zz", ""] {
        let once = trim(s);
        assert_eq!(trim(&once), once);
    }
}

#[test]
fn trim_end_matches_strips_every_trailing_copy() {
    assert_eq!(trim_end_matches("1000msat", "msat"), "1000");
    assert_eq!(trim_end_matches("5msatmsat", "msat"), "5");
    assert_eq!(trim_end_matches("msat", "msat"), "");
    assert_eq!(trim_end_matches("msat5", "msat"), "msat5");
    assert_eq!(trim_end_matches("aaa", "aa"), "a");
    assert_eq!(trim_end_matches("abc", ""), "abc");
    for (s, p) in [("1000msat", "msat"), ("aaa", "aa"), ("xmsatmsat", "msat"), ("abc", "")] {
        assert_eq!(trim_end_matches(s, p), s.trim_end_matches(p));
    }
}

#[test]
fn appended_copy_is_ignored() {
    assert_eq!(trim_end_matches("1001msat", "msat"), trim_end_matches("1001", "msat"));
    assert_eq!(trim_end_matches("xmsatmsat", "msat"), trim_end_matches("xmsat", "msat"));
}
