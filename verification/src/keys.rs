//! Sender-key resolution: a fresh copy of an explicit secret, or the fixed
//! placeholder keypair that stands in for encryption identity on the
//! unencrypted path. Secrets are produced as independently owned values, so
//! each caller can drop its copy as soon as the operation using it returns.
use vstd::prelude::*;
use crate::externals::{
    pk_bytes, public_from_secret, pubkey_of, secret_from_bytes, secret_to_bytes, sk_bytes,
};

verus! {

/// The bytes of the fixed placeholder secret key: thirty-two ones. The
/// placeholder is public by design and serves only slatepacks that carry no
/// real encryption.
pub open spec fn placeholder_secret_bytes() -> Seq<u8> {
    Seq::new(32, |i: int| 1u8)
}

/// The fixed placeholder keypair `(public, secret)` of the unencrypted
/// convention.
pub fn placeholder_keypair() -> (r: (ed25519_dalek::PublicKey, ed25519_dalek::SecretKey))
    ensures
        sk_bytes(r.1) == placeholder_secret_bytes(),
        pk_bytes(r.0) == pubkey_of(placeholder_secret_bytes()),
{
    let mut bytes: Vec<u8> = Vec::new();
    let mut i: usize = 0;
    while i < 32
        invariant
            i <= 32,
            bytes@.len() == i,
            forall|k: int| 0 <= k < i ==> bytes@[k] == 1u8,
        decreases 32 - i,
    {
        bytes.push(1u8);
        i = i + 1;
    }
    proof {
        assert(bytes@ =~= placeholder_secret_bytes());
    }
    let secret = match secret_from_bytes(bytes.as_slice()) {
        Some(s) => s,
        None => vstd::pervasive::unreached(),
    };
    let public = public_from_secret(&secret);
    (public, secret)
}

/// An independently owned copy of `secret`, holding the same bytes. The
/// secret key type is not duplicable by ordinary assignment, so resolution
/// rebuilds one from the key's bytes.
pub fn copy_secret(secret: &ed25519_dalek::SecretKey) -> (r: ed25519_dalek::SecretKey)
    ensures
        sk_bytes(r) == sk_bytes(*secret),
{
    let b = secret_to_bytes(secret);
    match secret_from_bytes(b.as_slice()) {
        Some(s) => s,
        None => vstd::pervasive::unreached(),
    }
}

/// Resolves the sender keypair `(public, secret)` for one operation: a
/// fresh copy of the explicit secret when one is supplied, the fixed
/// placeholder pair otherwise. A wallet-derived secret reaches this
/// resolver as an explicit one; the placeholder must never serve an
/// encryption request, which the encode dispatcher enforces.
pub fn resolve_sender_key(explicit: Option<&ed25519_dalek::SecretKey>) -> (r: (
    ed25519_dalek::PublicKey,
    ed25519_dalek::SecretKey,
))
    ensures
        match explicit {
            Some(k) => sk_bytes(r.1) == sk_bytes(*k),
            None => sk_bytes(r.1) == placeholder_secret_bytes(),
        },
        pk_bytes(r.0) == pubkey_of(sk_bytes(r.1)),
{
    match explicit {
        Some(k) => {
            let secret = copy_secret(k);
            let public = public_from_secret(&secret);
            (public, secret)
        },
        None => placeholder_keypair(),
    }
}

} // verus!
