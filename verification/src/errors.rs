//! The error kinds this core reports. Each kind names one distinct way an
//! encode or decode request can fail, so callers can map them to distinct
//! exit or retry behaviour.
use vstd::prelude::*;

verus! {

#[derive(Debug, PartialEq, Eq, Structural)]
pub enum SlatepackError {
    /// The input JSON does not deserialize to a valid slate.
    InvalidSlate,
    /// Address or key material is not valid hexadecimal.
    InvalidEncoding,
    /// Decoded key material is not exactly 32 bytes.
    InvalidKeyLength { expected: usize, actual: usize },
    /// Decoded bytes do not form a valid key point.
    InvalidKey,
    /// Encryption was requested without a usable sender secret.
    MissingSenderKey,
    /// An open attempt keyed by the wallet failed.
    DecryptionFailed,
    /// An open attempt without wallet context failed; the envelope may be
    /// encrypted, and the caller must retry with wallet access.
    RequiresWalletContext,
    /// A decoded slate could not be serialized back to JSON.
    SlateSerializationFailed,
}

} // verus!
