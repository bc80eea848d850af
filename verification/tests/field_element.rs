use core::str::FromStr;

use starknet_core::types::{FieldElement, FromStrError};

const MODULUS: &str =
    "3618502788666131213697322783095070105623107215331596699973092056135872020481";
const MODULUS_MINUS_ONE: &str =
    "3618502788666131213697322783095070105623107215331596699973092056135872020480";

#[test]
fn decimal_digits_are_read_most_significant_first() {
    assert_eq!(FieldElement::from_dec_str("12"), Ok(FieldElement::from(12u8)));
    assert_ne!(FieldElement::from_dec_str("12"), Ok(FieldElement::from(21u8)));
    assert_eq!(
        FieldElement::from_dec_str("18446744073709551615"),
        Ok(FieldElement::from(u64::MAX))
    );
    assert_eq!(
        FieldElement::from_dec_str("340282366920938463463374607431768211455"),
        Ok(FieldElement::from(u128::MAX))
    );
}

#[test]
fn integers_of_every_width_convert_exactly() {
    assert_eq!(FieldElement::from(255u8), FieldElement::from(255u128));
    assert_eq!(FieldElement::from(65535u16), FieldElement::from(65535u128));
    assert_eq!(FieldElement::from(4294967295u32), FieldElement::from(4294967295u128));
    assert_eq!(
        FieldElement::from(18446744073709551615u64),
        FieldElement::from(18446744073709551615u128)
    );
    assert_eq!(FieldElement::from(0u8), FieldElement::from_dec_str("0").unwrap());
    assert_ne!(FieldElement::from(0u8), FieldElement::from(1u8));
}

#[test]
fn values_past_one_limb_are_kept_apart() {
    let two_to_128 = FieldElement::from_dec_str("340282366920938463463374607431768211456").unwrap();
    assert_ne!(two_to_128, FieldElement::from(0u8));
    assert_ne!(two_to_128, FieldElement::from(u128::MAX));
    assert_eq!(format!("{:?}", two_to_128), "FieldElement { high: 1, low: 0 }");
    let ten_to_40 = FieldElement::from_dec_str("10000000000000000000000000000000000000000").unwrap();
    assert_eq!(
        format!("{:?}", ten_to_40),
        "FieldElement { high: 29, low: 131811359292784559562136384478721867776 }"
    );
}

#[test]
fn leading_zeros_do_not_change_the_value() {
    assert_eq!(
        FieldElement::from_dec_str("000123"),
        FieldElement::from_dec_str("123")
    );
    let padded = format!("{}{}", "0".repeat(200), MODULUS_MINUS_ONE);
    assert_eq!(
        FieldElement::from_dec_str(&padded),
        FieldElement::from_dec_str(MODULUS_MINUS_ONE)
    );
}

#[test]
fn empty_string_reads_as_zero() {
    assert_eq!(FieldElement::from_dec_str(""), Ok(FieldElement::from(0u8)));
}

#[test]
fn largest_element_is_one_below_the_modulus() {
    let largest = FieldElement::from_dec_str(MODULUS_MINUS_ONE).unwrap();
    assert_eq!(
        format!("{:?}", largest),
        "FieldElement { high: 10633823966279327296825105735305134080, low: 0 }"
    );
}

#[test]
fn modulus_and_beyond_are_out_of_range() {
    assert_eq!(FieldElement::from_dec_str(MODULUS), Err(FromStrError::OutOfRange));
    assert_eq!(
        FieldElement::from_dec_str(
            "3618502788666131213697322783095070105623107215331596699973092056135872020482"
        ),
        Err(FromStrError::OutOfRange)
    );
    assert_eq!(
        FieldElement::from_dec_str(
            "115792089237316195423570985008687907853269984665640564039457584007913129639935"
        ),
        Err(FromStrError::OutOfRange)
    );
    let huge = "9".repeat(500);
    assert_eq!(FieldElement::from_dec_str(&huge), Err(FromStrError::OutOfRange));
}

#[test]
fn anything_but_digits_is_an_invalid_character() {
    assert_eq!(FieldElement::from_dec_str("12a"), Err(FromStrError::InvalidCharacter));
    assert_eq!(FieldElement::from_dec_str("a12"), Err(FromStrError::InvalidCharacter));
    assert_eq!(FieldElement::from_dec_str("-1"), Err(FromStrError::InvalidCharacter));
    assert_eq!(FieldElement::from_dec_str("+1"), Err(FromStrError::InvalidCharacter));
    assert_eq!(FieldElement::from_dec_str(" 1"), Err(FromStrError::InvalidCharacter));
    assert_eq!(FieldElement::from_dec_str("1 "), Err(FromStrError::InvalidCharacter));
    assert_eq!(FieldElement::from_dec_str("0x10"), Err(FromStrError::InvalidCharacter));
    assert_eq!(FieldElement::from_dec_str("1_000"), Err(FromStrError::InvalidCharacter));
    assert_eq!(FieldElement::from_dec_str("/"), Err(FromStrError::InvalidCharacter));
    assert_eq!(FieldElement::from_dec_str(":"), Err(FromStrError::InvalidCharacter));
    assert_eq!(FieldElement::from_dec_str("１２"), Err(FromStrError::InvalidCharacter));
    assert_eq!(FieldElement::from_dec_str("12é"), Err(FromStrError::InvalidCharacter));
}

#[test]
fn invalid_character_is_reported_before_out_of_range() {
    let text = format!("{}x", MODULUS);
    assert_eq!(FieldElement::from_dec_str(&text), Err(FromStrError::InvalidCharacter));
    let text = format!("{}x", "9".repeat(300));
    assert_eq!(FieldElement::from_dec_str(&text), Err(FromStrError::InvalidCharacter));
}

#[test]
fn from_str_reads_decimal_like_from_dec_str() {
    assert_eq!(FieldElement::from_str("123"), FieldElement::from_dec_str("123"));
    assert_eq!(FieldElement::from_str(MODULUS), Err(FromStrError::OutOfRange));
    assert_eq!(FieldElement::from_str("12a"), Err(FromStrError::InvalidCharacter));
    assert_eq!("42".parse::<FieldElement>(), Ok(FieldElement::from(42u8)));
}
