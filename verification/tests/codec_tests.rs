use ed25519_dalek::{PublicKey, SecretKey};
use slatepack_core::codec::{encode_slatepack, encode_slatepack_with_keys, prepare_decode, report_decoded_keys};
use slatepack_core::errors::SlatepackError;
use slatepack_core::purpose::SlateSignState;

fn hex_of_bytes(b: &[u8]) -> String {
    let mut s = String::new();
    for x in b {
        s.push_str(&format!("{:02x}", x));
    }
    s
}

fn two_party_state(sigs: &[bool]) -> SlateSignState {
    SlateSignState { num_participants: 2, sig_present: sigs.to_vec() }
}

const SLATE_JSON: &str = "{\"ver\":\"4:2\",\"sta\":\"S1\",\"amt\":\"100000\"}";

#[test]
fn unencrypted_encode_uses_placeholder_keys() {
    let state = two_party_state(&[false, false]);
    let req = encode_slatepack(SLATE_JSON, &state, None).unwrap();
    assert_eq!(req.slate_json, SLATE_JSON);
    assert!(req.recipient.is_none());
    assert_eq!(req.sender_secret.as_bytes(), &[1u8; 32]);
    let expected_public = PublicKey::from(&SecretKey::from_bytes(&[1u8; 32]).unwrap());
    assert_eq!(req.sender_public, expected_public);
}

#[test]
fn encode_with_recipient_but_no_key_is_refused() {
    let state = two_party_state(&[false, false]);
    let recipient = PublicKey::from(&SecretKey::from_bytes(&[9u8; 32]).unwrap());
    let addr = hex_of_bytes(recipient.as_bytes());
    let r = encode_slatepack(SLATE_JSON, &state, Some(&addr));
    assert_eq!(r.unwrap_err(), SlatepackError::MissingSenderKey);
    let r2 = encode_slatepack_with_keys(SLATE_JSON, &state, Some(&addr), None);
    assert_eq!(r2.unwrap_err(), SlatepackError::MissingSenderKey);
}

#[test]
fn encrypted_encode_carries_copied_sender_and_recipient() {
    let state = two_party_state(&[true, false]);
    let sender_secret = SecretKey::from_bytes(&[7u8; 32]).unwrap();
    let recipient = PublicKey::from(&SecretKey::from_bytes(&[9u8; 32]).unwrap());
    let addr = format!("{}@mqs.example.com:443", hex_of_bytes(recipient.as_bytes()));
    let req =
        encode_slatepack_with_keys(SLATE_JSON, &state, Some(&addr), Some(&sender_secret)).unwrap();
    assert_eq!(req.sender_secret.as_bytes(), &[7u8; 32]);
    assert_eq!(req.sender_public, PublicKey::from(&sender_secret));
    assert_eq!(req.recipient, Some(recipient));
    assert_eq!(req.slate_json, SLATE_JSON);
}

#[test]
fn decode_with_wallet_key_is_fatal_on_failure() {
    let wallet_secret = SecretKey::from_bytes(&[5u8; 32]).unwrap();
    let plan = prepare_decode(Some(&wallet_secret));
    assert_eq!(plan.key.as_bytes(), &[5u8; 32]);
    assert_eq!(plan.on_failure, SlatepackError::DecryptionFailed);
}

#[test]
fn decode_without_wallet_tries_placeholder_then_asks_for_wallet() {
    let plan = prepare_decode(None);
    assert_eq!(plan.key.as_bytes(), &[1u8; 32]);
    assert_eq!(plan.on_failure, SlatepackError::RequiresWalletContext);
}

#[test]
fn decoded_keys_are_reported_as_hex() {
    let sender = PublicKey::from(&SecretKey::from_bytes(&[9u8; 32]).unwrap());
    let recipient = PublicKey::from(&SecretKey::from_bytes(&[11u8; 32]).unwrap());
    let (s, r) = report_decoded_keys(Some(&sender), Some(&recipient));
    assert_eq!(s.unwrap(), hex_of_bytes(sender.as_bytes()));
    assert_eq!(r.unwrap(), hex_of_bytes(recipient.as_bytes()));
    let (none_s, none_r) = report_decoded_keys(None, None);
    assert!(none_s.is_none());
    assert!(none_r.is_none());
}
