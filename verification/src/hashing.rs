//! The hash primitive everything else builds on: SHA-256, applied twice for
//! every interior node of the Merkle tree.

use sha2::Digest;
use vstd::prelude::*;

verus! {

/// The SHA-256 digest of a byte string. It is never written out here: it is
/// whatever `sha2` computes, a function of the input bytes alone.
pub uninterp spec fn sha256_of(b: Seq<u8>) -> Seq<u8>;

/// The hash-of-hash applied to every concatenated pair of child nodes.
pub open spec fn double_sha256(b: Seq<u8>) -> Seq<u8> {
    sha256_of(sha256_of(b))
}

/// Relies on sha2::Sha256 (through the digest crate's `Digest::digest`):
/// a fixed 256-bit output computed from the input bytes alone.
#[verifier::external_body]
fn sha256(data: &Vec<u8>) -> (r: Vec<u8>)
    ensures
        r@ == sha256_of(data@),
        r@.len() == 32,
{
    sha2::Sha256::digest(data).to_vec()
}

/// Hashes a byte buffer twice with SHA-256, yielding a 32-byte digest.
pub fn digest(data: &Vec<u8>) -> (r: Vec<u8>)
    ensures
        r@ == double_sha256(data@),
        r@.len() == 32,
{
    let once = sha256(data);
    sha256(&once)
}

} // verus!
