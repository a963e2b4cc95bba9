//! Core logic for moving transaction slates between their JSON form and the
//! armored slatepack envelope: recipient-address parsing, protocol-stage
//! inference, sender-key resolution, and the encrypted-versus-plain decision
//! taken on encode and decode. The envelope codec itself, slate parsing and
//! wallet key derivation are outside collaborators; the caller drives them
//! with the values this crate prepares and checks.

pub mod address;
pub mod codec;
pub mod errors;
pub mod externals;
pub mod hex;
pub mod keys;
pub mod purpose;
