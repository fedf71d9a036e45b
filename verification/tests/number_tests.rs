use homehelper::numbers::{i32_to_string, i64_to_string, parse_hex_u64, parse_i32, u64_to_string,
    ParseError};

#[test]
fn decimal_parse_plain() {
    assert_eq!(parse_i32("0"), Ok(0));
    assert_eq!(parse_i32("42"), Ok(42));
    assert_eq!(parse_i32("007"), Ok(7));
}

#[test]
fn decimal_parse_signs() {
    assert_eq!(parse_i32("+12"), Ok(12));
    assert_eq!(parse_i32("-98"), Ok(-98));
    assert_eq!(parse_i32("-0"), Ok(0));
}

#[test]
fn decimal_parse_limits() {
    assert_eq!(parse_i32("2147483647"), Ok(i32::MAX));
    assert_eq!(parse_i32("-2147483648"), Ok(i32::MIN));
    assert_eq!(parse_i32("2147483648"), Err(ParseError::InvalidInt));
    assert_eq!(parse_i32("-2147483649"), Err(ParseError::InvalidInt));
}

#[test]
fn decimal_parse_rejects_garbage() {
    assert_eq!(parse_i32(""), Err(ParseError::InvalidInt));
    assert_eq!(parse_i32("+"), Err(ParseError::InvalidInt));
    assert_eq!(parse_i32("-"), Err(ParseError::InvalidInt));
    assert_eq!(parse_i32("1x"), Err(ParseError::InvalidInt));
    assert_eq!(parse_i32(" 1"), Err(ParseError::InvalidInt));
    assert_eq!(parse_i32("1.0"), Err(ParseError::InvalidInt));
}

#[test]
fn decimal_parse_matches_std() {
    for s in ["0", "42", "+12", "-98", "2147483648", "", "x", "007", "-2147483648"] {
        assert_eq!(parse_i32(s).ok(), s.parse::<i32>().ok(), "input {:?}", s);
    }
}

#[test]
fn hex_parse_plain() {
    assert_eq!(parse_hex_u64("0"), Ok(0));
    assert_eq!(parse_hex_u64("ff"), Ok(255));
    assert_eq!(parse_hex_u64("DeadBEEF"), Ok(0xdead_beef));
    assert_eq!(parse_hex_u64("+a"), Ok(10));
}

#[test]
fn hex_parse_limits() {
    assert_eq!(parse_hex_u64("ffffffffffffffff"), Ok(u64::MAX));
    assert_eq!(parse_hex_u64("10000000000000000"), Err(ParseError::InvalidInt));
}

#[test]
fn hex_parse_rejects_garbage() {
    assert_eq!(parse_hex_u64(""), Err(ParseError::InvalidInt));
    assert_eq!(parse_hex_u64("-1"), Err(ParseError::InvalidInt));
    assert_eq!(parse_hex_u64("0x1f"), Err(ParseError::InvalidInt));
    assert_eq!(parse_hex_u64("g"), Err(ParseError::InvalidInt));
}

#[test]
fn hex_parse_matches_std() {
    for s in ["0", "ff", "DeadBEEF", "+a", "ffffffffffffffff", "10000000000000000", "", "-1"] {
        assert_eq!(
            parse_hex_u64(s).ok(),
            u64::from_str_radix(s, 16).ok(),
            "input {:?}",
            s
        );
    }
}

#[test]
fn formatting_decimal() {
    assert_eq!(u64_to_string(0), "0");
    assert_eq!(u64_to_string(5000), "5000");
    assert_eq!(u64_to_string(u64::MAX), "18446744073709551615");
    assert_eq!(i64_to_string(-1), "-1");
    assert_eq!(i64_to_string(i64::MIN), "-9223372036854775808");
    assert_eq!(i32_to_string(-98), "-98");
    assert_eq!(i32_to_string(7), "7");
}
