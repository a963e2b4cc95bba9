//! Recipient-address parsing: extracting a raw ed25519 public key from
//! either a bare hexadecimal key string or a composite `key@host:port`
//! style address, whose routing part this core ignores.
use vstd::prelude::*;
use crate::errors::SlatepackError;
use crate::externals::{is_valid_pubkey, pk_bytes, public_from_bytes};
use crate::hex::{hex_decode, hex_decode_spec, hex_ok};
use vstd::string::StringSliceAdditionalSpecFns;

verus! {

/// The ASCII code of `@`, the separator between key and routing parts.
pub const AT_BYTE: u8 = 64;

/// The index of the first `@` in `s`, or `s.len()` when there is none.
pub open spec fn at_pos(s: Seq<u8>) -> int
    decreases s.len(),
{
    if s.len() == 0 {
        0
    } else if s[0] == AT_BYTE {
        0
    } else {
        1 + at_pos(s.drop_first())
    }
}

/// The part of an address that encodes the key: everything before the
/// first `@`, or the whole string when there is none.
pub open spec fn key_segment(s: Seq<u8>) -> Seq<u8> {
    s.take(at_pos(s))
}

/// What parsing an address yields, described over the byte string of its
/// key segment: the error kind reported, or the 32 decoded key bytes.
pub open spec fn parse_outcome(seg: Seq<u8>) -> Result<Seq<u8>, SlatepackError> {
    if !hex_ok(seg) {
        Err(SlatepackError::InvalidEncoding)
    } else if hex_decode_spec(seg).len() != 32 {
        Err(
            SlatepackError::InvalidKeyLength {
                expected: 32,
                actual: hex_decode_spec(seg).len() as usize,
            },
        )
    } else if !is_valid_pubkey(hex_decode_spec(seg)) {
        Err(SlatepackError::InvalidKey)
    } else {
        Ok(hex_decode_spec(seg))
    }
}

/// Parses a recipient identifier into the raw public key used as the
/// encryption target. The whole input is read as hexadecimal key material;
/// when it holds a `@`, only the part before the first `@` is, and the rest
/// is routing information this core ignores. The key material must be valid
/// hexadecimal (`InvalidEncoding` otherwise), decode to exactly 32 bytes
/// (`InvalidKeyLength` otherwise), and form a valid curve point
/// (`InvalidKey` otherwise).
pub fn parse_recipient_public_key(input: &str) -> (r: Result<
    ed25519_dalek::PublicKey,
    SlatepackError,
>)
    ensures
        ({
            let outcome = parse_outcome(key_segment(input.spec_bytes()));
            match r {
                Ok(k) => outcome is Ok && pk_bytes(k) == outcome->Ok_0,
                Err(e) => outcome is Err && e == outcome->Err_0,
            }
        }),
{
    let bytes = input.as_bytes();
    let seg = key_prefix(bytes);
    let decoded = match hex_decode(seg) {
        Some(d) => d,
        None => {
            return Err(SlatepackError::InvalidEncoding);
        },
    };
    if decoded.len() != 32 {
        return Err(
            SlatepackError::InvalidKeyLength { expected: 32, actual: decoded.len() },
        );
    }
    match public_from_bytes(decoded.as_slice()) {
        Some(k) => Ok(k),
        None => Err(SlatepackError::InvalidKey),
    }
}

/// The sub-slice of `s` before its first `@`, or all of `s` without one.
fn key_prefix(s: &[u8]) -> (r: &[u8])
    ensures
        r@ == key_segment(s@),
{
    let n = s.len();
    let mut i: usize = 0;
    while i < n
        invariant
            n == s@.len(),
            i <= n,
            forall|k: int| 0 <= k < i ==> s@[k] != AT_BYTE,
        decreases n - i,
    {
        if *vstd::slice::slice_index_get(s, i) == AT_BYTE {
            proof {
                lemma_at_pos_is(s@, i as int);
            }
            return vstd::slice::slice_subrange(s, 0, i);
        }
        i = i + 1;
    }
    proof {
        lemma_at_pos_is(s@, n as int);
        assert(s@.take(n as int) =~= s@);
    }
    s
}

/// When every byte before `j` differs from `@` and `j` is the length or
/// holds `@`, then `j` is where the first `@` stands.
proof fn lemma_at_pos_is(s: Seq<u8>, j: int)
    requires
        0 <= j <= s.len(),
        forall|k: int| 0 <= k < j ==> s[k] != AT_BYTE,
        j < s.len() ==> s[j] == AT_BYTE,
    ensures
        at_pos(s) == j,
    decreases j,
{
    if j == 0 {
    } else {
        assert(s[0] != AT_BYTE);
        assert forall|k: int| 0 <= k < j - 1 implies s.drop_first()[k] != AT_BYTE by {
            assert(s.drop_first()[k] == s[k + 1]);
        }
        if j < s.len() {
            assert(s.drop_first()[j - 1] == s[j]);
        }
        lemma_at_pos_is(s.drop_first(), j - 1);
    }
}

/// A key reported by decode parses back to itself: the lower-case
/// hexadecimal rendering of a valid 32-byte public key, taken as a bare
/// recipient address, parses to exactly those key bytes.
pub proof fn lemma_reported_key_parses_back(b: Seq<u8>)
    requires
        b.len() == 32,
        is_valid_pubkey(b),
    ensures
        parse_outcome(key_segment(crate::hex::hex_of(b).map_values(|c: char| c as u8)))
            == Ok::<Seq<u8>, SlatepackError>(b),
{
    let h = crate::hex::hex_of(b).map_values(|c: char| c as u8);
    crate::hex::lemma_hex_round_trip(b);
    assert forall|k: int| 0 <= k < h.len() implies h[k] != AT_BYTE by {
        assert(crate::hex::is_hex_byte(h[k]));
    }
    lemma_at_pos_is(h, h.len() as int);
    assert(key_segment(h) =~= h);
}

/// Routing information behind the first `@` never changes which key an
/// address denotes: an address made of a key part without `@`, the
/// separator, and any routing suffix parses exactly as the bare key part
/// does.
pub proof fn lemma_routing_suffix_ignored(key: Seq<u8>, rest: Seq<u8>)
    requires
        forall|k: int| 0 <= k < key.len() ==> key[k] != AT_BYTE,
    ensures
        key_segment(key + seq![AT_BYTE] + rest) == key,
        parse_outcome(key_segment(key + seq![AT_BYTE] + rest)) == parse_outcome(key_segment(key)),
{
    let s = key + seq![AT_BYTE] + rest;
    assert(s[key.len() as int] == AT_BYTE);
    assert forall|k: int| 0 <= k < key.len() implies s[k] != AT_BYTE by {
        assert(s[k] == key[k]);
    }
    lemma_at_pos_is(s, key.len() as int);
    assert(s.take(key.len() as int) =~= key);
    lemma_at_pos_is(key, key.len() as int);
    assert(key.take(key.len() as int) =~= key);
}

} // verus!
