//! Hexadecimal encoding and decoding of byte strings, as used for
//! recipient addresses and for the key material reported by decode.
use vstd::prelude::*;
use crate::externals::string_from_ascii;

verus! {

/// True when `b` is the ASCII code of a hexadecimal digit.
pub open spec fn is_hex_byte(b: u8) -> bool {
    (48 <= b && b <= 57) || (97 <= b && b <= 102) || (65 <= b && b <= 70)
}

/// The numeric value of the ASCII hexadecimal digit `b`.
pub open spec fn hex_val(b: u8) -> u8 {
    if 48 <= b && b <= 57 {
        (b - 48) as u8
    } else if 97 <= b && b <= 102 {
        (b - 87) as u8
    } else if 65 <= b && b <= 70 {
        (b - 55) as u8
    } else {
        0
    }
}

/// True when `s` is a well-formed hexadecimal string, read as its
/// ASCII bytes: even length, every byte a hexadecimal digit.
pub open spec fn hex_ok(s: Seq<u8>) -> bool {
    s.len() % 2 == 0 && (forall|i: int| 0 <= i < s.len() ==> is_hex_byte(s[i]))
}

/// The bytes denoted by the hexadecimal string `s`, two digits per byte.
pub open spec fn hex_decode_spec(s: Seq<u8>) -> Seq<u8> {
    Seq::new((s.len() / 2) as nat, |i: int| ((hex_val(s[2 * i]) * 16 + hex_val(s[2 * i + 1])) as u8))
}

/// The lower-case hexadecimal digit for the nibble `n`.
pub open spec fn hex_digit_char(n: u8) -> char {
    if n < 10 {
        ((n + 48) as u8) as char
    } else {
        ((n + 87) as u8) as char
    }
}

/// The lower-case hexadecimal rendering of `b`, two digits per byte.
pub open spec fn hex_of(b: Seq<u8>) -> Seq<char> {
    Seq::new((2 * b.len()) as nat, |i: int|
        if i % 2 == 0 {
            hex_digit_char((b[i / 2] / 16) as u8)
        } else {
            hex_digit_char((b[i / 2] % 16) as u8)
        })
}

/// Decides whether `b` is the ASCII code of a hexadecimal digit.
fn is_hex_byte_exec(b: u8) -> (r: bool)
    ensures
        r == is_hex_byte(b),
{
    (48 <= b && b <= 57) || (97 <= b && b <= 102) || (65 <= b && b <= 70)
}

/// The numeric value of the ASCII hexadecimal digit `b`.
fn hex_val_exec(b: u8) -> (r: u8)
    requires
        is_hex_byte(b),
    ensures
        r == hex_val(b),
        r < 16,
{
    if 48 <= b && b <= 57 {
        b - 48
    } else if 97 <= b && b <= 102 {
        b - 87
    } else {
        b - 55
    }
}

/// Decodes the hexadecimal string `s` (given as ASCII bytes) into the
/// bytes it denotes. Returns `None` exactly when `s` has odd length or
/// holds a byte that is not a hexadecimal digit.
pub fn hex_decode(s: &[u8]) -> (r: Option<Vec<u8>>)
    ensures
        r is Some <==> hex_ok(s@),
        r is Some ==> r.unwrap()@ == hex_decode_spec(s@),
{
    let n = s.len();
    if n % 2 != 0 {
        return None;
    }
    let mut out: Vec<u8> = Vec::new();
    let mut i: usize = 0;
    while i < n
        invariant
            n == s@.len(),
            n % 2 == 0,
            i % 2 == 0,
            i <= n,
            out@.len() == i / 2,
            forall|k: int| 0 <= k < i ==> is_hex_byte(s@[k]),
            forall|k: int| 0 <= k < i / 2 ==> out@[k] == hex_decode_spec(s@)[k],
        decreases n - i,
    {
        let hi = *vstd::slice::slice_index_get(s, i);
        let lo = *vstd::slice::slice_index_get(s, i + 1);
        if !is_hex_byte_exec(hi) {
            return None;
        }
        if !is_hex_byte_exec(lo) {
            return None;
        }
        let v = hex_val_exec(hi) * 16 + hex_val_exec(lo);
        out.push(v);
        i = i + 2;
    }
    proof {
        assert(out@ =~= hex_decode_spec(s@));
    }
    Some(out)
}

/// Encodes `b` as a lower-case hexadecimal string, two digits per byte.
pub fn bytes_to_hex_string(b: &[u8]) -> (r: String)
    ensures
        r@ == hex_of(b@),
{
    let n = b.len();
    let mut out: Vec<u8> = Vec::new();
    let mut j: usize = 0;
    while j < n
        invariant
            n == b@.len(),
            j <= n,
            out@.len() == 2 * (j as int),
            forall|i: int| 0 <= i < 2 * j ==> (#[trigger] out@[i]) < 128,
            forall|i: int| 0 <= i < 2 * j ==> hex_of(b@)[i] == (#[trigger] out@[i]) as char,
        decreases n - j,
    {
        let x = *vstd::slice::slice_index_get(b, j);
        let hi = hex_nibble_byte(x / 16);
        let lo = hex_nibble_byte(x % 16);
        out.push(hi);
        out.push(lo);
        proof {
            assert((2 * (j as int)) / 2 == j as int) by (nonlinear_arith);
            assert((2 * (j as int) + 1) / 2 == j as int) by (nonlinear_arith);
            assert((2 * (j as int)) % 2 == 0) by (nonlinear_arith);
            assert((2 * (j as int) + 1) % 2 == 1) by (nonlinear_arith);
            assert(hex_of(b@)[2 * (j as int)] == hex_digit_char((b@[j as int] / 16) as u8));
            assert(hex_of(b@)[2 * (j as int) + 1] == hex_digit_char((b@[j as int] % 16) as u8));
        }
        j = j + 1;
    }
    proof {
        assert forall|i: int| 0 <= i < out@.len() implies out@[i] < 128 by {
            assert(out@[i] < 128);
        }
    }
    let r = string_from_ascii(out);
    proof {
        assert(r@ =~= hex_of(b@));
    }
    r
}

/// A nibble survives the trip through its digit: the digit chosen for a
/// nibble is a hexadecimal digit, and its value is the nibble again.
proof fn lemma_nibble_round(n: u8)
    requires
        n < 16,
    ensures
        is_hex_byte(hex_digit_char(n) as u8),
        hex_val(hex_digit_char(n) as u8) == n,
{
}

/// Encoding then decoding gives the bytes back: the hexadecimal rendering
/// of any byte string is well-formed hexadecimal, and denotes exactly the
/// bytes it was made from.
pub proof fn lemma_hex_round_trip(b: Seq<u8>)
    ensures
        hex_ok(hex_of(b).map_values(|c: char| c as u8)),
        hex_decode_spec(hex_of(b).map_values(|c: char| c as u8)) == b,
{
    let h = hex_of(b).map_values(|c: char| c as u8);
    assert(h.len() == 2 * b.len());
    assert forall|i: int| 0 <= i < h.len() implies is_hex_byte(#[trigger] h[i]) by {
        assert(h[i] == hex_of(b)[i] as u8);
        if i % 2 == 0 {
            lemma_nibble_round((b[i / 2] / 16) as u8);
        } else {
            lemma_nibble_round((b[i / 2] % 16) as u8);
        }
    }
    assert forall|i: int| 0 <= i < b.len() implies hex_decode_spec(h)[i] == b[i] by {
        assert((2 * i) / 2 == i) by (nonlinear_arith);
        assert((2 * i) % 2 == 0) by (nonlinear_arith);
        assert((2 * i + 1) / 2 == i) by (nonlinear_arith);
        assert((2 * i + 1) % 2 == 1) by (nonlinear_arith);
        assert(h[2 * i] == hex_of(b)[2 * i] as u8);
        assert(h[2 * i + 1] == hex_of(b)[2 * i + 1] as u8);
        lemma_nibble_round((b[i] / 16) as u8);
        lemma_nibble_round((b[i] % 16) as u8);
        assert((b[i] / 16) * 16 + b[i] % 16 == b[i]);
    }
    assert(hex_decode_spec(h) =~= b);
}

/// The ASCII code of the lower-case hexadecimal digit for the nibble `n`.
fn hex_nibble_byte(n: u8) -> (r: u8)
    requires
        n < 16,
    ensures
        r < 128,
        r as char == hex_digit_char(n),
{
    if n < 10 {
        n + 48
    } else {
        n + 87
    }
}

} // verus!
