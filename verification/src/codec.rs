//! The encode and decode dispatchers: the encrypted-versus-plain decision,
//! key resolution and stage inference on encode, and the key choice with
//! its failure classification on decode. The envelope codec that turns the
//! prepared request into armored text - and armored text back into a slate -
//! is an outside collaborator driven by the caller.
use vstd::prelude::*;
use crate::address::{key_segment, parse_outcome, parse_recipient_public_key};
use crate::errors::SlatepackError;
use crate::externals::{pk_bytes, public_to_bytes, pubkey_of, sk_bytes};
use crate::hex::{bytes_to_hex_string, hex_of};
use crate::keys::{copy_secret, placeholder_keypair, placeholder_secret_bytes};
use crate::purpose::{infer_slate_purpose, stage_for, ProtocolStage, SlateSignState};
use vstd::string::StringSliceAdditionalSpecFns;

verus! {

/// Everything the outside envelope encoder is to be invoked with: the slate
/// payload passed through unchanged, the inferred protocol stage, the
/// resolved sender keypair, and the recipient key when the envelope is to
/// be encrypted. The caller adds only the fixed target envelope version and
/// its choice of randomness.
#[derive(Debug)]
pub struct EncodeRequest {
    /// The slate's JSON form, exactly as given.
    pub slate_json: String,
    /// The protocol-stage tag to embed in the envelope.
    pub stage: ProtocolStage,
    /// The sender's public key.
    pub sender_public: ed25519_dalek::PublicKey,
    /// The sender's secret key: an independently owned copy, to be dropped
    /// when the encode call using it returns.
    pub sender_secret: ed25519_dalek::SecretKey,
    /// The recipient's public key; present exactly when the envelope is to
    /// be encrypted.
    pub recipient: Option<ed25519_dalek::PublicKey>,
}

/// Prepares the encoding of a slate, choosing between the encrypted and the
/// plain path. `sign_state` is the slate's participant-signature state, read
/// off the already-validated slate. Without a recipient address the request
/// carries the placeholder keypair and no recipient; with one, a real sender
/// secret is required - the placeholder must never serve encryption - and
/// the address must parse to a valid recipient key.
pub fn encode_slatepack_with_keys(
    slate_json: &str,
    sign_state: &SlateSignState,
    recipient_address: Option<&str>,
    sender_secret: Option<&ed25519_dalek::SecretKey>,
) -> (r: Result<EncodeRequest, SlatepackError>)
    ensures
        r is Ok ==> ({
            let q = r.unwrap();
            &&& q.slate_json@ == slate_json@
            &&& q.stage == stage_for(sign_state.num_participants as int, sign_state.sig_present@)
            &&& pk_bytes(q.sender_public) == pubkey_of(sk_bytes(q.sender_secret))
        }),
        match recipient_address {
            None => r is Ok && sk_bytes(r.unwrap().sender_secret) == placeholder_secret_bytes()
                && r.unwrap().recipient is None,
            Some(addr) => match sender_secret {
                None => r == Err::<EncodeRequest, SlatepackError>(SlatepackError::MissingSenderKey),
                Some(sk) => ({
                    let outcome = parse_outcome(key_segment(addr.spec_bytes()));
                    match r {
                        Ok(q) => outcome is Ok && q.recipient is Some && pk_bytes(
                            q.recipient.unwrap(),
                        ) == outcome->Ok_0 && sk_bytes(q.sender_secret) == sk_bytes(*sk),
                        Err(e) => outcome is Err && e == outcome->Err_0,
                    }
                }),
            },
        },
{
    let (sender_public, sender_secret_key, recipient) = match recipient_address {
        Some(addr) => {
            let explicit = match sender_secret {
                Some(sk) => sk,
                None => {
                    return Err(SlatepackError::MissingSenderKey);
                },
            };
            let secret = copy_secret(explicit);
            let public = crate::externals::public_from_secret(&secret);
            let recipient_key = match parse_recipient_public_key(addr) {
                Ok(k) => k,
                Err(e) => {
                    return Err(e);
                },
            };
            (public, secret, Some(recipient_key))
        },
        None => {
            let (public, secret) = placeholder_keypair();
            (public, secret, None)
        },
    };
    let stage = infer_slate_purpose(sign_state);
    Ok(
        EncodeRequest {
            slate_json: slate_json.to_owned(),
            stage,
            sender_public,
            sender_secret: sender_secret_key,
            recipient,
        },
    )
}

/// Prepares the encoding of a slate without an explicit sender secret: the
/// plain path when no recipient address is given, and - since encryption
/// demands a real key - a `MissingSenderKey` failure when one is.
pub fn encode_slatepack(
    slate_json: &str,
    sign_state: &SlateSignState,
    recipient_address: Option<&str>,
) -> (r: Result<EncodeRequest, SlatepackError>)
    ensures
        r is Ok ==> ({
            let q = r.unwrap();
            &&& q.slate_json@ == slate_json@
            &&& q.stage == stage_for(sign_state.num_participants as int, sign_state.sig_present@)
            &&& pk_bytes(q.sender_public) == pubkey_of(sk_bytes(q.sender_secret))
        }),
        match recipient_address {
            None => r is Ok && sk_bytes(r.unwrap().sender_secret) == placeholder_secret_bytes()
                && r.unwrap().recipient is None,
            Some(addr) => r == Err::<EncodeRequest, SlatepackError>(
                SlatepackError::MissingSenderKey,
            ),
        },
{
    encode_slatepack_with_keys(slate_json, sign_state, recipient_address, None)
}

/// How an incoming envelope is to be opened: with which secret key, and
/// which error to report when the open attempt fails.
#[derive(Debug)]
pub struct DecodePlan {
    /// The secret key to hand the envelope codec.
    pub key: ed25519_dalek::SecretKey,
    /// The error a failed open surfaces as.
    pub on_failure: SlatepackError,
}

/// Decides how to open an incoming envelope. With wallet context the open
/// is keyed by the wallet's derived secret, and a failure is fatal:
/// `DecryptionFailed`, no fallback. Without, the fixed placeholder key of
/// the unencrypted convention is tried, and a failure reports
/// `RequiresWalletContext` - the envelope cannot be told apart from an
/// encrypted one the caller holds no key for.
pub fn prepare_decode(wallet_key: Option<&ed25519_dalek::SecretKey>) -> (r: DecodePlan)
    ensures
        match wallet_key {
            Some(k) => sk_bytes(r.key) == sk_bytes(*k) && r.on_failure
                == SlatepackError::DecryptionFailed,
            None => sk_bytes(r.key) == placeholder_secret_bytes() && r.on_failure
                == SlatepackError::RequiresWalletContext,
        },
{
    match wallet_key {
        Some(k) => DecodePlan { key: copy_secret(k), on_failure: SlatepackError::DecryptionFailed },
        None => {
            let (_public, secret) = placeholder_keypair();
            DecodePlan { key: secret, on_failure: SlatepackError::RequiresWalletContext }
        },
    }
}

/// Renders the optional sender and recipient public keys recovered from an
/// opened envelope for display: each as its lower-case hexadecimal bytes.
pub fn report_decoded_keys(
    sender: Option<&ed25519_dalek::PublicKey>,
    recipient: Option<&ed25519_dalek::PublicKey>,
) -> (r: (Option<String>, Option<String>))
    ensures
        (r.0 is Some <==> sender is Some),
        sender is Some ==> r.0.unwrap()@ == hex_of(pk_bytes(*sender.unwrap())),
        (r.1 is Some <==> recipient is Some),
        recipient is Some ==> r.1.unwrap()@ == hex_of(pk_bytes(*recipient.unwrap())),
{
    let sender_info = match sender {
        Some(k) => {
            let b = public_to_bytes(k);
            Some(bytes_to_hex_string(b.as_slice()))
        },
        None => None,
    };
    let recipient_info = match recipient {
        Some(k) => {
            let b = public_to_bytes(k);
            Some(bytes_to_hex_string(b.as_slice()))
        },
        None => None,
    };
    (sender_info, recipient_info)
}

} // verus!
