//! The Merkle tree: iterative pairwise double-SHA-256 reduction of an
//! ordered sequence of hash leaves.
//!
//! Leaves arrive as big-endian hex strings; the reduction itself runs over
//! little-endian bytes, and the root is converted back to big-endian hex.
//! An odd level is padded by duplicating its last node — at every level,
//! not only the first.

use crate::hashing::digest;
use crate::hashing::double_sha256;
use crate::hex_codec::bytes_of_hex;
use crate::hex_codec::hex_decode;
use crate::hex_codec::hex_encode;
use crate::hex_codec::hex_of_bytes;
use crate::hex_codec::lemma_hex_of_bytes_of_hex;
use crate::hex_codec::lower_hex;
use crate::hex_codec::reverse_bytes;
use crate::hex_codec::valid_hex;
use crate::outcome::VerificationError;
use vstd::prelude::*;

verus! {

/// The views of a sequence of byte vectors.
pub open spec fn views_of(hs: Seq<Vec<u8>>) -> Seq<Seq<u8>> {
    hs.map_values(|v: Vec<u8>| v@)
}

/// The views of a sequence of strings.
pub open spec fn str_views(ls: Seq<String>) -> Seq<Seq<char>> {
    ls.map_values(|s: String| s@)
}

/// Every string of the sequence is well-formed hex.
pub open spec fn all_valid_hex(ls: Seq<Seq<char>>) -> bool {
    forall|i: int| 0 <= i < ls.len() ==> valid_hex(#[trigger] ls[i])
}

/// The little-endian byte form of one big-endian hex leaf.
pub open spec fn le_leaf(l: Seq<char>) -> Seq<u8>
    recommends
        valid_hex(l),
{
    bytes_of_hex(l).reverse()
}

/// All leaves, converted to the tree's internal little-endian byte form.
pub open spec fn le_leaves(ls: Seq<Seq<char>>) -> Seq<Seq<u8>> {
    ls.map_values(|l: Seq<char>| le_leaf(l))
}

/// One level with the odd-node padding rule applied: an odd level gets its
/// last node duplicated.
pub open spec fn pad_level(hs: Seq<Seq<u8>>) -> Seq<Seq<u8>>
    recommends
        hs.len() >= 1,
{
    if hs.len() % 2 == 1 {
        hs.push(hs.last())
    } else {
        hs
    }
}

/// The parent level: each adjacent pair of the padded level, concatenated
/// in pairing order and hashed twice.
pub open spec fn next_level(hs: Seq<Seq<u8>>) -> Seq<Seq<u8>>
    recommends
        hs.len() >= 1,
{
    Seq::new(
        pad_level(hs).len() / 2,
        |i: int| double_sha256(pad_level(hs)[2 * i] + pad_level(hs)[2 * i + 1]),
    )
}

/// The root of the pairwise reduction over little-endian byte hashes.
pub open spec fn merkle_root_le(hs: Seq<Seq<u8>>) -> Seq<u8>
    recommends
        hs.len() >= 1,
    decreases hs.len(),
{
    if hs.len() <= 1 {
        hs[0]
    } else {
        merkle_root_le(next_level(hs))
    }
}

/// The root's bytes in big-endian order, for big-endian hex leaves.
pub open spec fn root_bytes_be(ls: Seq<Seq<char>>) -> Seq<u8>
    recommends
        ls.len() >= 1,
{
    merkle_root_le(le_leaves(ls)).reverse()
}

/// The root as a big-endian lower-case hex string.
pub open spec fn spec_root_hex(ls: Seq<Seq<char>>) -> Seq<char>
    recommends
        ls.len() >= 1,
{
    hex_of_bytes(root_bytes_be(ls))
}

/// Copies a byte vector.
fn clone_bytes(v: &Vec<u8>) -> (r: Vec<u8>)
    ensures
        r@ == v@,
{
    let mut r: Vec<u8> = Vec::new();
    let mut i: usize = 0;
    while i < v.len()
        invariant
            i <= v@.len(),
            r@.len() == i,
            forall|j: int| 0 <= j < i ==> r@[j] == v@[j],
        decreases v@.len() - i,
    {
        r.push(v[i]);
        i = i + 1;
    }
    proof {
        assert(r@ =~= v@);
    }
    r
}

/// Concatenates two byte vectors, first operand's bytes first.
fn concat_bytes(a: &Vec<u8>, b: &Vec<u8>) -> (r: Vec<u8>)
    ensures
        r@ == a@ + b@,
{
    let mut r = clone_bytes(a);
    let mut i: usize = 0;
    while i < b.len()
        invariant
            i <= b@.len(),
            r@.len() == a@.len() + i,
            forall|j: int| 0 <= j < a@.len() ==> r@[j] == a@[j],
            forall|j: int| 0 <= j < i ==> r@[a@.len() + j] == b@[j],
        decreases b@.len() - i,
    {
        r.push(b[i]);
        i = i + 1;
    }
    proof {
        assert(r@ =~= a@ + b@);
    }
    r
}

/// Reduces one level of little-endian hashes to the single root.
fn reduce_to_root(hashes: Vec<Vec<u8>>) -> (r: Vec<u8>)
    requires
        hashes@.len() >= 1,
    ensures
        r@ == merkle_root_le(views_of(hashes@)),
{
    let ghost orig: Seq<Seq<u8>> = views_of(hashes@);
    let mut cur = hashes;
    while cur.len() > 1
        invariant
            cur@.len() >= 1,
            merkle_root_le(views_of(cur@)) == merkle_root_le(orig),
        decreases cur@.len(),
    {
        let ghost entry: Seq<Seq<u8>> = views_of(cur@);
        if cur.len() % 2 != 0 {
            let last = clone_bytes(&cur[cur.len() - 1]);
            cur.push(last);
        }
        proof {
            assert(views_of(cur@) =~= pad_level(entry));
            assert(cur@.len() % 2 == 0);
        }
        let ghost padded: Seq<Seq<u8>> = views_of(cur@);
        let mut next: Vec<Vec<u8>> = Vec::new();
        let mut k: usize = 0;
        while k < cur.len() - 1
            invariant
                views_of(cur@) == padded,
                cur@.len() % 2 == 0,
                cur@.len() >= 2,
                k % 2 == 0,
                k <= cur@.len(),
                next@.len() * 2 == k,
                forall|j: int| 0 <= j < next@.len() ==> (#[trigger] next@[j])@ == double_sha256(
                    padded[2 * j] + padded[2 * j + 1],
                ),
            decreases cur@.len() - k,
        {
            let cat = concat_bytes(&cur[k], &cur[k + 1]);
            let parent = digest(&cat);
            next.push(parent);
            k = k + 2;
        }
        proof {
            assert(views_of(next@) =~= next_level(entry)) by {
                assert(pad_level(entry) == padded);
                assert forall|j: int| 0 <= j < next@.len() implies views_of(next@)[j]
                    == next_level(entry)[j] by {
                    assert(views_of(next@)[j] == next@[j]@);
                }
            }
            assert(merkle_root_le(next_level(entry)) == merkle_root_le(entry));
        }
        cur = next;
    }
    proof {
        assert(merkle_root_le(views_of(cur@)) == views_of(cur@)[0]);
        assert(views_of(cur@)[0] == cur@[0]@);
    }
    let r = match cur.pop() {
        Some(v) => v,
        None => {
            proof {
                assert(false);
            }
            Vec::new()
        },
    };
    r
}

/// Decodes the big-endian hex leaves, reduces them, and returns the root's
/// bytes in big-endian order.
pub(crate) fn compute_root_bytes(leaves: &Vec<String>) -> (r: Result<
    Vec<u8>,
    VerificationError,
>)
    ensures
        leaves@.len() == 0 ==> r == Err::<Vec<u8>, VerificationError>(
            VerificationError::EmptyLeafSet,
        ),
        leaves@.len() > 0 && !all_valid_hex(str_views(leaves@)) ==> r == Err::<
            Vec<u8>,
            VerificationError,
        >(VerificationError::MalformedHash),
        leaves@.len() > 0 && all_valid_hex(str_views(leaves@)) ==> (r matches Ok(b) && b@
            == root_bytes_be(str_views(leaves@))),
{
    if leaves.len() == 0 {
        return Err(VerificationError::EmptyLeafSet);
    }
    let mut level: Vec<Vec<u8>> = Vec::new();
    let mut idx: usize = 0;
    while idx < leaves.len()
        invariant
            idx <= leaves@.len(),
            level@.len() == idx,
            forall|i: int| 0 <= i < idx ==> valid_hex(#[trigger] str_views(leaves@)[i]),
            forall|i: int| 0 <= i < idx ==> (#[trigger] level@[i])@ == le_leaf(
                str_views(leaves@)[i],
            ),
        decreases leaves@.len() - idx,
    {
        match hex_decode(leaves[idx].as_str()) {
            Some(bytes) => {
                let le = reverse_bytes(&bytes);
                level.push(le);
            },
            None => {
                proof {
                    assert(!valid_hex(str_views(leaves@)[idx as int]));
                }
                return Err(VerificationError::MalformedHash);
            },
        }
        idx = idx + 1;
    }
    proof {
        assert(views_of(level@) =~= le_leaves(str_views(leaves@)));
    }
    let root_le = reduce_to_root(level);
    let root_be = reverse_bytes(&root_le);
    Ok(root_be)
}

/// Computes the Merkle root of an ordered sequence of big-endian hex leaves,
/// as a big-endian lower-case hex string. An empty sequence and a malformed
/// leaf are caller errors.
pub fn compute_root(leaves: &Vec<String>) -> (r: Result<String, VerificationError>)
    ensures
        leaves@.len() == 0 ==> r == Err::<String, VerificationError>(
            VerificationError::EmptyLeafSet,
        ),
        leaves@.len() > 0 && !all_valid_hex(str_views(leaves@)) ==> r == Err::<
            String,
            VerificationError,
        >(VerificationError::MalformedHash),
        leaves@.len() > 0 && all_valid_hex(str_views(leaves@)) ==> (r matches Ok(root) && root@
            == spec_root_hex(str_views(leaves@))),
{
    match compute_root_bytes(leaves) {
        Ok(b) => Ok(hex_encode(&b)),
        Err(e) => Err(e),
    }
}

/// A single lower-case leaf is its own root: the conversion to little-endian
/// bytes and back cancels out.
pub proof fn lemma_single_leaf_root(l: Seq<char>)
    requires
        lower_hex(l),
    ensures
        spec_root_hex(seq![l]) == l,
{
    let ls = seq![l];
    assert(le_leaves(ls) =~= seq![le_leaf(l)]);
    assert(merkle_root_le(le_leaves(ls)) == le_leaf(l));
    assert(bytes_of_hex(l).reverse().reverse() =~= bytes_of_hex(l));
    lemma_hex_of_bytes_of_hex(l);
}

/// Explicitly duplicating the last leaf of an odd sequence of three or more
/// leaves gives the same root as the implicit odd-node padding rule.
pub proof fn lemma_odd_padding(ls: Seq<Seq<char>>)
    requires
        ls.len() >= 3,
        ls.len() % 2 == 1,
    ensures
        spec_root_hex(ls.push(ls.last())) == spec_root_hex(ls),
{
    let a = le_leaves(ls);
    let b = le_leaves(ls.push(ls.last()));
    assert(b =~= a.push(a.last()));
    assert(pad_level(b) =~= pad_level(a));
    assert(next_level(b) =~= next_level(a));
    assert(merkle_root_le(a) == merkle_root_le(next_level(a)));
    assert(merkle_root_le(b) == merkle_root_le(next_level(b)));
}

} // verus!
