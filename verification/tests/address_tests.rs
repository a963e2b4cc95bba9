use ed25519_dalek::{PublicKey, SecretKey};
use slatepack_core::address::parse_recipient_public_key;
use slatepack_core::errors::SlatepackError;

fn hex_of_bytes(b: &[u8]) -> String {
    let mut s = String::new();
    for x in b {
        s.push_str(&format!("{:02x}", x));
    }
    s
}

fn some_public_key() -> PublicKey {
    PublicKey::from(&SecretKey::from_bytes(&[42u8; 32]).unwrap())
}

#[test]
fn bare_hex_and_composite_address_parse_to_the_same_key() {
    let key = some_public_key();
    let bare = hex_of_bytes(key.as_bytes());
    let composite = format!("{}@mqs.example.com:443", bare);
    let from_bare = parse_recipient_public_key(&bare).unwrap();
    let from_composite = parse_recipient_public_key(&composite).unwrap();
    assert_eq!(from_bare, from_composite);
    assert_eq!(from_bare, key);
}

#[test]
fn upper_case_hex_is_accepted() {
    let key = some_public_key();
    let upper = hex_of_bytes(key.as_bytes()).to_uppercase();
    assert_eq!(parse_recipient_public_key(&upper).unwrap(), key);
}

#[test]
fn everything_after_the_first_separator_is_ignored() {
    let key = some_public_key();
    let addr = format!("{}@left@right:1", hex_of_bytes(key.as_bytes()));
    assert_eq!(parse_recipient_public_key(&addr).unwrap(), key);
}

#[test]
fn short_key_is_rejected_with_its_length() {
    let addr = hex_of_bytes(&[0xabu8; 31]);
    let e = parse_recipient_public_key(&addr).unwrap_err();
    assert_eq!(e, SlatepackError::InvalidKeyLength { expected: 32, actual: 31 });
}

#[test]
fn long_key_is_rejected_with_its_length() {
    let addr = hex_of_bytes(&[0xabu8; 33]);
    let e = parse_recipient_public_key(&addr).unwrap_err();
    assert_eq!(e, SlatepackError::InvalidKeyLength { expected: 32, actual: 33 });
}

#[test]
fn non_hex_characters_are_rejected_as_encoding_error() {
    let e = parse_recipient_public_key("zz00zz00").unwrap_err();
    assert_eq!(e, SlatepackError::InvalidEncoding);
}

#[test]
fn odd_length_hex_is_rejected_as_encoding_error() {
    let e = parse_recipient_public_key("abc").unwrap_err();
    assert_eq!(e, SlatepackError::InvalidEncoding);
}

#[test]
fn empty_key_part_is_rejected_by_length() {
    let e = parse_recipient_public_key("@mqs.example.com:443").unwrap_err();
    assert_eq!(e, SlatepackError::InvalidKeyLength { expected: 32, actual: 0 });
}

#[test]
fn bytes_off_the_curve_are_rejected_as_invalid_key() {
    // Find 32 bytes that the ed25519 library itself refuses, so the test does
    // not depend on which encodings decompress.
    let mut bad = None;
    for b0 in 0u8..=255 {
        let mut bytes = [0u8; 32];
        bytes[0] = b0;
        if PublicKey::from_bytes(&bytes).is_err() {
            bad = Some(bytes);
            break;
        }
    }
    let bad = bad.expect("some single-byte y coordinate must be off the curve");
    let e = parse_recipient_public_key(&hex_of_bytes(&bad)).unwrap_err();
    assert_eq!(e, SlatepackError::InvalidKey);
}
