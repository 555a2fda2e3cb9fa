use vidspeed::decimal::{decimal_text, parse_u64, parse_unsigned, signed_decimal_text, ParseFailure};
use vidspeed::text::split_text;

#[test]
fn parse_accepts_plain_and_plus_signed_digits() {
    assert_eq!(parse_u64("0"), Some(0));
    assert_eq!(parse_u64("500"), Some(500));
    assert_eq!(parse_u64("+17"), Some(17));
    assert_eq!(parse_u64("007"), Some(7));
    assert_eq!(parse_u64("18446744073709551615"), Some(u64::MAX));
}

#[test]
fn parse_rejects_what_str_parse_rejects() {
    for text in ["", "+", "-1", " 1", "1 ", "1_000", "12a", "0x10", "++1", "18446744073709551616", "99999999999999999999x"] {
        assert_eq!(parse_u64(text), None, "{:?}", text);
        assert!(text.parse::<u64>().is_err(), "{:?}", text);
    }
}

#[test]
fn parse_agrees_with_std_on_samples() {
    for text in ["1", "42", "+0", "4294967296", "18446744073709551615"] {
        assert_eq!(parse_u64(text), text.parse::<u64>().ok());
    }
}

#[test]
fn decimal_text_prints_like_to_string() {
    for n in [0u64, 7, 10, 305, 1_000_000, u64::MAX] {
        assert_eq!(decimal_text(n), n.to_string());
    }
    assert_eq!(decimal_text(305), "305");
}

#[test]
fn signed_decimal_text_prints_like_to_string() {
    for n in [0i64, -1, 1, -255, i64::MIN, i64::MAX] {
        assert_eq!(signed_decimal_text(n), n.to_string());
    }
    assert_eq!(signed_decimal_text(-1), "-1");
}

#[test]
fn decimal_round_trip() {
    for n in [0u64, 9, 10, 123456789, u64::MAX] {
        assert_eq!(parse_u64(&decimal_text(n)), Some(n));
    }
}

#[test]
fn split_gives_every_piece() {
    assert_eq!(split_text("a,b,,c", ','), vec!["a", "b", "", "c"]);
    assert_eq!(split_text("http://localhost:3000", ','), vec!["http://localhost:3000"]);
    assert_eq!(split_text("", ','), vec![""]);
    assert_eq!(split_text(",", ','), vec!["", ""]);
}

#[test]
fn split_then_join_gives_back_the_text() {
    for text in ["a,b,,c", "", ",", "x", "é,ü,,"] {
        let pieces = split_text(text, ',');
        assert_eq!(pieces.join(","), text);
        assert!(pieces.iter().all(|p| !p.contains(',')));
        let expected: Vec<String> = text.split(',').map(|p| p.to_string()).collect();
        assert_eq!(pieces, expected);
    }
}

#[test]
fn parse_failures_match_std() {
    for text in ["", "+", "-", "-1", "+-1", "a", "1a", "12 ", "18446744073709551616", "99999999999999999999x",
                 "x99999999999999999999", "184467440737095516150", "é", "00000000000000000000018446744073709551615"] {
        let ours = parse_unsigned(text, u64::MAX);
        match text.parse::<u64>() {
            Ok(v) => assert_eq!(ours, Ok(v), "{:?}", text),
            Err(e) => {
                let failure = ours.unwrap_err();
                assert_eq!(failure.message(), e.to_string(), "{:?}", text);
            }
        }
        let small = parse_unsigned(text, u32::MAX as u64);
        match text.parse::<u32>() {
            Ok(v) => assert_eq!(small, Ok(v as u64), "{:?}", text),
            Err(e) => assert_eq!(small.unwrap_err().message(), e.to_string(), "{:?}", text),
        }
    }
    assert_eq!(parse_unsigned("", 10), Err(ParseFailure::Empty));
    assert_eq!(parse_unsigned("+", 10), Err(ParseFailure::InvalidDigit));
    assert_eq!(parse_unsigned("11", 10), Err(ParseFailure::PosOverflow));
    assert_eq!(parse_unsigned("10", 10), Ok(10));
}
