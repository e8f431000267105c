//! Extraction of the committed witness root from the coinbase transaction.
//!
//! The commitment output is recognised by a fixed byte prefix: OP_RETURN,
//! a push of 36 bytes, and the 4-byte commitment tag. The 32 bytes that
//! follow the prefix are the committed witness Merkle root. Outputs are
//! scanned in order and the first match wins.

use crate::block::Transaction;
use crate::block::Vout;
use crate::hex_codec::bytes_of_hex;
use crate::hex_codec::hex_decode;
use crate::hex_codec::hex_encode;
use crate::hex_codec::hex_of_bytes;
use crate::hex_codec::valid_hex;
use crate::outcome::VerificationError;
use vstd::prelude::*;

verus! {

/// The fixed byte prefix of a witness-commitment output script.
pub open spec fn witness_marker() -> Seq<u8> {
    seq![0x6au8, 0x24u8, 0xaau8, 0x21u8, 0xa9u8, 0xedu8]
}

/// The hex scripts of a transaction's outputs, in output order.
pub open spec fn vout_hexes(tx: Transaction) -> Seq<Seq<char>> {
    tx.vout@.map_values(|v: Vout| v.script_pub_key.hex@)
}

/// A script that carries the witness commitment: well-formed hex whose bytes
/// begin with the marker prefix and leave at least 32 bytes after it.
pub open spec fn is_commitment_script(s: Seq<char>) -> bool {
    &&& valid_hex(s)
    &&& bytes_of_hex(s).len() >= 38
    &&& bytes_of_hex(s).take(6) == witness_marker()
}

/// The 32 committed bytes immediately following the marker prefix.
pub open spec fn commitment_bytes(s: Seq<char>) -> Seq<u8>
    recommends
        is_commitment_script(s),
{
    bytes_of_hex(s).subrange(6, 38)
}

/// The committed bytes of the first matching script, scanning in order.
pub open spec fn first_commitment(hexes: Seq<Seq<char>>) -> Option<Seq<u8>>
    decreases hexes.len(),
{
    if hexes.len() == 0 {
        None
    } else if is_commitment_script(hexes[0]) {
        Some(commitment_bytes(hexes[0]))
    } else {
        first_commitment(hexes.drop_first())
    }
}

/// Compares the first six bytes of a buffer against the marker prefix.
fn check_marker(b: &Vec<u8>) -> (r: bool)
    requires
        b@.len() >= 6,
    ensures
        r == (b@.take(6) == witness_marker()),
{
    let r = b[0] == 0x6a && b[1] == 0x24 && b[2] == 0xaa && b[3] == 0x21 && b[4] == 0xa9 && b[5]
        == 0xed;
    proof {
        if r {
            assert(b@.take(6) =~= witness_marker());
        } else {
            if b@.take(6) == witness_marker() {
                assert(b@[0] == witness_marker()[0]);
                assert(b@[1] == witness_marker()[1]);
                assert(b@[2] == witness_marker()[2]);
                assert(b@[3] == witness_marker()[3]);
                assert(b@[4] == witness_marker()[4]);
                assert(b@[5] == witness_marker()[5]);
            }
        }
    }
    r
}

/// Copies the bytes of `b` with indexes in `start .. end`.
fn copy_range(b: &Vec<u8>, start: usize, end: usize) -> (r: Vec<u8>)
    requires
        start <= end <= b@.len(),
    ensures
        r@ == b@.subrange(start as int, end as int),
{
    let mut r: Vec<u8> = Vec::new();
    let mut i: usize = start;
    while i < end
        invariant
            start <= i <= end <= b@.len(),
            r@.len() == i - start,
            forall|j: int| 0 <= j < r@.len() ==> r@[j] == b@[start + j],
        decreases end - i,
    {
        r.push(b[i]);
        i = i + 1;
    }
    proof {
        assert(r@ =~= b@.subrange(start as int, end as int));
    }
    r
}

/// Scans the outputs in order and returns the first committed witness root,
/// as raw bytes.
pub(crate) fn extract_commitment_bytes(tx: &Transaction) -> (r: Option<Vec<u8>>)
    ensures
        r is Some <==> first_commitment(vout_hexes(*tx)) is Some,
        r matches Some(b) ==> Some(b@) == first_commitment(vout_hexes(*tx)),
{
    let ghost hexes: Seq<Seq<char>> = vout_hexes(*tx);
    proof {
        assert(hexes.skip(0) =~= hexes);
    }
    let mut i: usize = 0;
    while i < tx.vout.len()
        invariant
            i <= tx.vout@.len(),
            hexes == vout_hexes(*tx),
            hexes.len() == tx.vout@.len(),
            first_commitment(hexes.skip(i as int)) == first_commitment(hexes),
        decreases tx.vout@.len() - i,
    {
        proof {
            assert(hexes.skip(i as int)[0] == hexes[i as int]);
        }
        match hex_decode(tx.vout[i].script_pub_key.hex.as_str()) {
            Some(bytes) => {
                if bytes.len() >= 38 && check_marker(&bytes) {
                    let c = copy_range(&bytes, 6, 38);
                    proof {
                        assert(is_commitment_script(hexes[i as int]));
                        assert(c@ == commitment_bytes(hexes[i as int]));
                    }
                    return Some(c);
                }
            },
            None => {},
        }
        proof {
            assert(!is_commitment_script(hexes[i as int]));
            assert(hexes.skip(i as int).drop_first() =~= hexes.skip(i as int + 1));
        }
        i = i + 1;
    }
    proof {
        assert(hexes.skip(hexes.len() as int) =~= Seq::<Seq<char>>::empty());
    }
    None
}

/// Finds the committed witness root in the coinbase transaction's outputs
/// and returns it as a big-endian lower-case hex string; fails when no
/// output carries the marker prefix.
pub fn find_wtxid_root(tx: &Transaction) -> (r: Result<String, VerificationError>)
    ensures
        r is Ok <==> first_commitment(vout_hexes(*tx)) is Some,
        r matches Ok(c) ==> c@ == hex_of_bytes(first_commitment(vout_hexes(*tx)).unwrap()),
        r is Err ==> r == Err::<String, VerificationError>(
            VerificationError::WitnessCommitmentNotFound,
        ),
{
    match extract_commitment_bytes(tx) {
        Some(b) => Ok(hex_encode(&b)),
        None => Err(VerificationError::WitnessCommitmentNotFound),
    }
}

} // verus!
