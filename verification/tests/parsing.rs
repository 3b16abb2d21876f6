use stctrl::funds::{parse_amount, FundsError};
use stctrl::keys::{string_to_public_key, PUBLIC_KEY_LEN};

#[test]
fn parses_plain_number() {
    assert_eq!(parse_amount(&b"50".to_vec()).unwrap(), 50);
}

#[test]
fn parses_zero_and_leading_zeros() {
    assert_eq!(parse_amount(&b"0".to_vec()).unwrap(), 0);
    assert_eq!(parse_amount(&b"007".to_vec()).unwrap(), 7);
}

#[test]
fn parses_leading_plus() {
    assert_eq!(parse_amount(&b"+7".to_vec()).unwrap(), 7);
}

#[test]
fn parses_largest_amount() {
    let max = b"340282366920938463463374607431768211455".to_vec();
    assert_eq!(parse_amount(&max).unwrap(), u128::MAX);
}

#[test]
fn rejects_amount_past_the_range() {
    let too_big = b"340282366920938463463374607431768211456".to_vec();
    assert!(matches!(parse_amount(&too_big), Err(FundsError::ParseAmountError)));
}

#[test]
fn rejects_empty_amount() {
    assert!(matches!(parse_amount(&Vec::new()), Err(FundsError::ParseAmountError)));
    assert!(matches!(parse_amount(&b"+".to_vec()), Err(FundsError::ParseAmountError)));
}

#[test]
fn rejects_non_digit_amount() {
    assert!(matches!(parse_amount(&b"12a".to_vec()), Err(FundsError::ParseAmountError)));
    assert!(matches!(parse_amount(&b"-5".to_vec()), Err(FundsError::ParseAmountError)));
    assert!(matches!(parse_amount(&b"1 2".to_vec()), Err(FundsError::ParseAmountError)));
}

#[test]
fn decodes_hex_key() {
    let mut literal = Vec::new();
    for i in 0..PUBLIC_KEY_LEN {
        literal.push(b"0123456789abcdef"[(i / 16) % 16]);
        literal.push(b"0123456789abcdef"[i % 16]);
    }
    let pk = string_to_public_key(&literal).unwrap();
    assert_eq!(pk.bytes.len(), PUBLIC_KEY_LEN);
    for (i, b) in pk.bytes.iter().enumerate() {
        assert_eq!(*b, i as u8);
    }
}

#[test]
fn decodes_uppercase_hex_key() {
    let literal = b"FF".iter().cycle().take(64).cloned().collect::<Vec<u8>>();
    let pk = string_to_public_key(&literal).unwrap();
    assert_eq!(pk.bytes, vec![0xffu8; PUBLIC_KEY_LEN]);
}

#[test]
fn rejects_key_of_wrong_length() {
    assert!(string_to_public_key(&b"00".to_vec()).is_none());
    let long = b"0".iter().cycle().take(65).cloned().collect::<Vec<u8>>();
    assert!(string_to_public_key(&long).is_none());
}

#[test]
fn rejects_key_with_non_hex_digit() {
    let mut literal = b"0".iter().cycle().take(64).cloned().collect::<Vec<u8>>();
    literal[63] = b'g';
    assert!(string_to_public_key(&literal).is_none());
}
