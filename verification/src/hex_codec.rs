//! Hex encoding and decoding of byte strings, and byte-order reversal of
//! hex-encoded hashes.
//!
//! Identifiers are conventionally displayed as big-endian hex, while the
//! Merkle reduction works on little-endian bytes, so every hash crosses this
//! module twice.

use crate::outcome::VerificationError;
use vstd::prelude::*;

verus! {

/// True of the sixteen lower-case hex digit characters.
pub open spec fn is_lower_hex_digit(c: char) -> bool {
    ||| c == '0' ||| c == '1' ||| c == '2' ||| c == '3'
    ||| c == '4' ||| c == '5' ||| c == '6' ||| c == '7'
    ||| c == '8' ||| c == '9' ||| c == 'a' ||| c == 'b'
    ||| c == 'c' ||| c == 'd' ||| c == 'e' ||| c == 'f'
}

/// True of the six upper-case hex digit characters.
pub open spec fn is_upper_hex_digit(c: char) -> bool {
    ||| c == 'A' ||| c == 'B' ||| c == 'C'
    ||| c == 'D' ||| c == 'E' ||| c == 'F'
}

/// True of every character that may appear in a hex-encoded string.
pub open spec fn is_hex_digit(c: char) -> bool {
    is_lower_hex_digit(c) || is_upper_hex_digit(c)
}

/// The numeric value of one hex digit.
pub open spec fn hex_digit_value(c: char) -> u8
    recommends
        is_hex_digit(c),
{
    if c == '0' { 0 } else if c == '1' { 1 } else if c == '2' { 2 }
    else if c == '3' { 3 } else if c == '4' { 4 } else if c == '5' { 5 }
    else if c == '6' { 6 } else if c == '7' { 7 } else if c == '8' { 8 }
    else if c == '9' { 9 } else if c == 'a' || c == 'A' { 10 }
    else if c == 'b' || c == 'B' { 11 } else if c == 'c' || c == 'C' { 12 }
    else if c == 'd' || c == 'D' { 13 } else if c == 'e' || c == 'E' { 14 }
    else { 15 }
}

/// The lower-case hex digit for a value below sixteen.
pub open spec fn hex_digit_char(v: u8) -> char
    recommends
        v < 16,
{
    if v == 0 { '0' } else if v == 1 { '1' } else if v == 2 { '2' }
    else if v == 3 { '3' } else if v == 4 { '4' } else if v == 5 { '5' }
    else if v == 6 { '6' } else if v == 7 { '7' } else if v == 8 { '8' }
    else if v == 9 { '9' } else if v == 10 { 'a' } else if v == 11 { 'b' }
    else if v == 12 { 'c' } else if v == 13 { 'd' } else if v == 14 { 'e' }
    else { 'f' }
}

/// A well-formed hex string: even length, hex digits throughout.
pub open spec fn valid_hex(s: Seq<char>) -> bool {
    &&& s.len() % 2 == 0
    &&& forall|i: int| 0 <= i < s.len() ==> is_hex_digit(#[trigger] s[i])
}

/// A well-formed hex string written entirely in lower case.
pub open spec fn lower_hex(s: Seq<char>) -> bool {
    &&& s.len() % 2 == 0
    &&& forall|i: int| 0 <= i < s.len() ==> is_lower_hex_digit(#[trigger] s[i])
}

/// The bytes a well-formed hex string denotes: each pair of digits is one
/// byte, high nibble first.
pub open spec fn bytes_of_hex(s: Seq<char>) -> Seq<u8>
    recommends
        valid_hex(s),
{
    Seq::new(s.len() / 2, |i: int| (hex_digit_value(s[2 * i]) * 16 + hex_digit_value(s[2 * i + 1])) as u8)
}

/// The lower-case hex encoding of a byte string: two digits per byte, high
/// nibble first.
pub open spec fn hex_of_bytes(b: Seq<u8>) -> Seq<char> {
    Seq::new(b.len() * 2, |i: int| if i % 2 == 0 {
        hex_digit_char((b[i / 2] / 16) as u8)
    } else {
        hex_digit_char((b[i / 2] % 16) as u8)
    })
}

/// Encoding then decoding gives the bytes back.
pub proof fn lemma_bytes_of_hex_of_bytes(b: Seq<u8>)
    ensures
        valid_hex(hex_of_bytes(b)),
        lower_hex(hex_of_bytes(b)),
        bytes_of_hex(hex_of_bytes(b)) == b,
{
    let s = hex_of_bytes(b);
    assert forall|i: int| 0 <= i < s.len() implies is_lower_hex_digit(#[trigger] s[i]) by {
        let v = if i % 2 == 0 { b[i / 2] / 16 } else { b[i / 2] % 16 };
        assert(v < 16);
    }
    assert(bytes_of_hex(s) =~= b) by {
        assert forall|i: int| 0 <= i < b.len() implies bytes_of_hex(s)[i] == b[i] by {
            assert(s[2 * i] == hex_digit_char((b[i] / 16) as u8));
            assert(s[2 * i + 1] == hex_digit_char((b[i] % 16) as u8));
            assert(hex_digit_value(s[2 * i]) == b[i] / 16);
            assert(hex_digit_value(s[2 * i + 1]) == b[i] % 16);
        }
    }
}

/// Decoding then encoding gives a lower-case hex string back.
pub proof fn lemma_hex_of_bytes_of_hex(s: Seq<char>)
    requires
        lower_hex(s),
    ensures
        hex_of_bytes(bytes_of_hex(s)) == s,
{
    let b = bytes_of_hex(s);
    assert(hex_of_bytes(b) =~= s) by {
        assert forall|i: int| 0 <= i < s.len() implies hex_of_bytes(b)[i] == s[i] by {
            let j = i / 2;
            assert(is_lower_hex_digit(s[2 * j]) && is_lower_hex_digit(s[2 * j + 1]));
            let h = hex_digit_value(s[2 * j]);
            let l = hex_digit_value(s[2 * j + 1]);
            assert(b[j] == (h * 16 + l) as u8);
            assert(h < 16 && l < 16);
            assert((h * 16 + l) / 16 == h && (h * 16 + l) % 16 == l) by (nonlinear_arith)
                requires h < 16 && l < 16;
            if i % 2 == 0 {
                assert(i == 2 * j);
                assert(hex_of_bytes(b)[i] == hex_digit_char((b[j] / 16) as u8));
            } else {
                assert(i == 2 * j + 1);
                assert(hex_of_bytes(b)[i] == hex_digit_char((b[j] % 16) as u8));
            }
        }
    }
}

/// A hex string re-encoded with its byte order reversed.
pub open spec fn spec_reverse_hex(s: Seq<char>) -> Seq<char>
    recommends
        valid_hex(s),
{
    hex_of_bytes(bytes_of_hex(s).reverse())
}

/// Reversing the byte order of a lower-case hex string twice gives the
/// string back.
pub proof fn lemma_reverse_hex_involutive(s: Seq<char>)
    requires
        lower_hex(s),
    ensures
        lower_hex(spec_reverse_hex(s)),
        spec_reverse_hex(spec_reverse_hex(s)) == s,
{
    let b = bytes_of_hex(s);
    lemma_bytes_of_hex_of_bytes(b.reverse());
    assert(b.reverse().reverse() =~= b);
    lemma_hex_of_bytes_of_hex(s);
}

/// Relies on hex::decode: it succeeds exactly on even-length strings of hex
/// digits (upper- and lower-case both accepted) and then returns the bytes
/// the string denotes, two digits per byte, high nibble first.
#[verifier::external_body]
pub(crate) fn hex_decode(s: &str) -> (r: Option<Vec<u8>>)
    ensures
        r is Some <==> valid_hex(s@),
        r matches Some(b) ==> b@ == bytes_of_hex(s@),
{
    match hex::decode(s) {
        Ok(b) => Some(b),
        Err(_) => None,
    }
}

/// Relies on hex::encode: two lower-case digits for each byte, high nibble
/// first.
#[verifier::external_body]
pub(crate) fn hex_encode(b: &Vec<u8>) -> (r: String)
    ensures
        r@ == hex_of_bytes(b@),
{
    hex::encode(b)
}

/// Copies a byte string in reverse order.
pub(crate) fn reverse_bytes(b: &Vec<u8>) -> (r: Vec<u8>)
    ensures
        r@ == b@.reverse(),
{
    let mut r: Vec<u8> = Vec::new();
    let mut i: usize = b.len();
    while i > 0
        invariant
            i <= b@.len(),
            r@.len() == b@.len() - i,
            forall|j: int| 0 <= j < r@.len() ==> r@[j] == b@[b@.len() - 1 - j],
        decreases i,
    {
        i = i - 1;
        r.push(b[i]);
    }
    proof {
        assert(r@ =~= b@.reverse());
    }
    r
}

/// Decodes a hex string, reverses its byte order, and re-encodes it in lower
/// case. Rejects strings that are not valid hex.
pub fn convert_endianness(hex_string: &str) -> (r: Result<String, VerificationError>)
    ensures
        r is Ok <==> valid_hex(hex_string@),
        r matches Ok(t) ==> t@ == spec_reverse_hex(hex_string@),
        !valid_hex(hex_string@) ==> r == Err::<String, VerificationError>(VerificationError::MalformedHash),
{
    match hex_decode(hex_string) {
        Some(bytes) => {
            let reversed = reverse_bytes(&bytes);
            Ok(hex_encode(&reversed))
        },
        None => Err(VerificationError::MalformedHash),
    }
}

} // verus!
