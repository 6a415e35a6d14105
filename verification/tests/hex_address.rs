use std::num::IntErrorKind;

use futurecop_mod::server::{parse_hex_address, HexAddressError};

fn expected(text: &str) -> Result<i64, HexAddressError> {
    i64::from_str_radix(text, 16).map_err(|e| match e.kind() {
        IntErrorKind::Empty => HexAddressError::Empty,
        IntErrorKind::InvalidDigit => HexAddressError::InvalidDigit,
        IntErrorKind::PosOverflow => HexAddressError::PosOverflow,
        IntErrorKind::NegOverflow => HexAddressError::NegOverflow,
        other => panic!("unexpected kind {:?}", other),
    })
}

#[test]
fn hex_addresses_read_like_std() {
    let samples = [
        "", "0", "1f", "1F", "+ff", "-10", "-", "+", "12g", "0x10", "00000000000000000000001",
        "7fffffffffffffff", "8000000000000000", "-8000000000000000", "-8000000000000001",
        "ffffffffffffffffff-", "-ffffffffffffffffffz", "ü", "abcdef", "ABCDEF", "--1", "+-1",
    ];
    for text in samples {
        assert_eq!(parse_hex_address(text), expected(text), "text {:?}", text);
    }
}

#[test]
fn hex_address_values() {
    assert_eq!(parse_hex_address("511fd0"), Ok(0x511fd0));
    assert_eq!(parse_hex_address("-10"), Ok(-16));
    assert_eq!(parse_hex_address("-8000000000000000"), Ok(i64::MIN));
    assert_eq!(parse_hex_address("7fffffffffffffff"), Ok(i64::MAX));
}

#[test]
fn hex_address_errors() {
    assert_eq!(parse_hex_address(""), Err(HexAddressError::Empty));
    assert_eq!(parse_hex_address("-"), Err(HexAddressError::InvalidDigit));
    assert_eq!(parse_hex_address("8000000000000000"), Err(HexAddressError::PosOverflow));
    assert_eq!(parse_hex_address("-8000000000000001"), Err(HexAddressError::NegOverflow));
    assert_eq!(parse_hex_address("ffffffffffffffffff-"), Err(HexAddressError::PosOverflow));
    assert_eq!(HexAddressError::Empty.message(), "cannot parse integer from empty string");
    assert_eq!(HexAddressError::InvalidDigit.message(), "invalid digit found in string");
    assert_eq!(HexAddressError::PosOverflow.message(), "number too large to fit in target type");
    assert_eq!(HexAddressError::NegOverflow.message(), "number too small to fit in target type");
    let std_message = i64::from_str_radix("zz", 16).unwrap_err().to_string();
    assert_eq!(HexAddressError::InvalidDigit.message(), std_message);
}
