use sumup::decimal::{decimal_digits, parse_u64, ParseIntErrorKind};

fn chars(s: &str) -> Vec<char> {
    s.chars().collect()
}

#[test]
fn parses_plain_and_signed_numbers() {
    assert_eq!(parse_u64(&chars("0")), Ok(0));
    assert_eq!(parse_u64(&chars("1712750400")), Ok(1712750400));
    assert_eq!(parse_u64(&chars("+42")), Ok(42));
    assert_eq!(parse_u64(&chars("18446744073709551615")), Ok(u64::MAX));
}

#[test]
fn rejects_like_std() {
    for text in ["", "+", "-", "-1", "12a", "1 2", "x", "18446744073709551616", "99999999999999999999x"] {
        let expected = text.parse::<u64>().map_err(|e| format!("{:?}", e.kind()));
        let got = parse_u64(&chars(text)).map_err(|k| format!("{:?}", k));
        assert_eq!(got, expected, "input {:?}", text);
    }
    assert_eq!(parse_u64(&chars("")), Err(ParseIntErrorKind::Empty));
    assert_eq!(parse_u64(&chars("-5")), Err(ParseIntErrorKind::InvalidDigit));
    assert_eq!(parse_u64(&chars("18446744073709551616")), Err(ParseIntErrorKind::PosOverflow));
}

#[test]
fn writes_decimal_digits() {
    assert_eq!(decimal_digits(0), b"0".to_vec());
    assert_eq!(decimal_digits(7), b"7".to_vec());
    assert_eq!(decimal_digits(1712750400), b"1712750400".to_vec());
    assert_eq!(decimal_digits(u64::MAX), u64::MAX.to_string().into_bytes());
}

#[test]
fn written_digits_read_back() {
    for n in [0u64, 9, 10, 99, 100, 123456789, u64::MAX - 1, u64::MAX] {
        let text: Vec<char> = decimal_digits(n).into_iter().map(|b| b as char).collect();
        assert_eq!(parse_u64(&text), Ok(n));
    }
}
