//! The boundary to the ed25519 key library and to std's string conversion.
//! Every item here is trusted: Verus believes the stated contracts and does
//! not look at the bodies.
use vstd::prelude::*;

verus! {

#[verifier::external_type_specification]
#[verifier::external_body]
pub struct ExPublicKey(ed25519_dalek::PublicKey);

#[verifier::external_type_specification]
#[verifier::external_body]
pub struct ExSecretKey(ed25519_dalek::SecretKey);

/// The 32 bytes a secret key holds.
pub uninterp spec fn sk_bytes(k: ed25519_dalek::SecretKey) -> Seq<u8>;

/// The 32 bytes of a public key's compressed point encoding.
pub uninterp spec fn pk_bytes(k: ed25519_dalek::PublicKey) -> Seq<u8>;

/// The public key bytes that ed25519 derives from the given secret key bytes.
pub uninterp spec fn pubkey_of(sk: Seq<u8>) -> Seq<u8>;

/// Whether 32 bytes decompress to a point of the ed25519 curve, and so form
/// a valid public key encoding.
pub uninterp spec fn is_valid_pubkey(b: Seq<u8>) -> bool;

/// Relies on ed25519_dalek::SecretKey::from_bytes: it accepts exactly the
/// byte strings of length 32, and the key it returns holds those bytes.
#[verifier::external_body]
pub fn secret_from_bytes(b: &[u8]) -> (r: Option<ed25519_dalek::SecretKey>)
    ensures
        r is Some <==> b@.len() == 32,
        r is Some ==> sk_bytes(r.unwrap()) == b@,
{
    ed25519_dalek::SecretKey::from_bytes(b).ok()
}

/// Relies on ed25519_dalek::SecretKey::to_bytes: it returns the key's 32 bytes.
#[verifier::external_body]
pub fn secret_to_bytes(k: &ed25519_dalek::SecretKey) -> (r: Vec<u8>)
    ensures
        r@ == sk_bytes(*k),
        r@.len() == 32,
{
    k.to_bytes().to_vec()
}

/// Relies on ed25519_dalek::PublicKey::from(&SecretKey): the derived public
/// key is a function of the secret key's bytes alone.
#[verifier::external_body]
pub fn public_from_secret(k: &ed25519_dalek::SecretKey) -> (r: ed25519_dalek::PublicKey)
    ensures
        pk_bytes(r) == pubkey_of(sk_bytes(*k)),
        pk_bytes(r).len() == 32,
{
    ed25519_dalek::PublicKey::from(k)
}

/// Relies on ed25519_dalek::PublicKey::from_bytes: it accepts exactly the
/// byte strings of length 32 that decompress to a curve point, and the key
/// it returns holds those bytes.
#[verifier::external_body]
pub fn public_from_bytes(b: &[u8]) -> (r: Option<ed25519_dalek::PublicKey>)
    ensures
        r is Some <==> (b@.len() == 32 && is_valid_pubkey(b@)),
        r is Some ==> pk_bytes(r.unwrap()) == b@,
{
    ed25519_dalek::PublicKey::from_bytes(b).ok()
}

/// Relies on ed25519_dalek::PublicKey::as_bytes: it returns the key's 32 bytes.
#[verifier::external_body]
pub fn public_to_bytes(k: &ed25519_dalek::PublicKey) -> (r: Vec<u8>)
    ensures
        r@ == pk_bytes(*k),
        r@.len() == 32,
{
    k.as_bytes().to_vec()
}

/// Relies on String::from_utf8: bytes below 128 are ASCII, hence valid
/// UTF-8, and convert to the string whose characters are those bytes.
#[verifier::external_body]
pub fn string_from_ascii(b: Vec<u8>) -> (r: String)
    requires
        forall|i: int| 0 <= i < b@.len() ==> b@[i] < 128,
    ensures
        r@.len() == b@.len(),
        forall|i: int| 0 <= i < b@.len() ==> r@[i] == b@[i] as char,
{
    String::from_utf8(b).unwrap()
}

} // verus!
