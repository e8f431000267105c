//! The block data model and the validator that ties the pieces together:
//! it recomputes the two Merkle roots from the transaction list and compares
//! them against the header's committed root and the extracted witness
//! commitment.

use crate::hex_codec::bytes_of_hex;
use crate::hex_codec::hex_decode;
use crate::hex_codec::valid_hex;
use crate::merkle::all_valid_hex;
use crate::merkle::compute_root_bytes;
use crate::merkle::root_bytes_be;
use crate::merkle::str_views;
use crate::outcome::VerificationError;
use crate::outcome::VerificationResult;
use crate::witness::extract_commitment_bytes;
use crate::witness::first_commitment;
use crate::witness::vout_hexes;
use vstd::prelude::*;

verus! {

/// The header of a block. Hashes are big-endian hex strings.
pub struct Header {
    pub version: u32,
    pub merkleroot: String,
    pub time: u32,
    pub nonce: u32,
    pub bits: String,
    pub previousblockhash: String,
}

/// A script carried by a transaction output; only the raw hex bytes are
/// inspected here.
pub struct ScriptPubKey {
    pub assembly: String,
    pub desc: String,
    pub hex: String,
    pub address: Option<String>,
    pub script_type: String,
}

/// The signature script of a transaction input.
pub struct ScriptSig {
    pub assembly: String,
    pub hex: String,
}

/// The input of a transaction.
pub struct Vin {
    pub coinbase: Option<String>,
    pub txid: Option<String>,
    pub vout: Option<u32>,
    pub script_sig: Option<ScriptSig>,
    pub sequence: u32,
}

/// The output of a transaction. The value is in the chain's smallest unit.
pub struct Vout {
    pub value: u64,
    pub n: u32,
    pub script_pub_key: ScriptPubKey,
}

/// A transaction in a block. `txid` identifies it excluding witness data,
/// `hash` including it; both are big-endian hex strings.
pub struct Transaction {
    pub txid: String,
    pub hash: String,
    pub version: u32,
    pub size: u32,
    pub vsize: u32,
    pub locktime: u32,
    pub vin: Vec<Vin>,
    pub vout: Vec<Vout>,
}

/// A block: one header and its ordered transaction list. Position 0 is the
/// coinbase and overall order determines leaf order in both trees.
pub struct Block {
    pub header: Header,
    pub transactions: Vec<Transaction>,
}

/// The txid of every transaction, in sequence order.
pub open spec fn txids_of(txs: Seq<Transaction>) -> Seq<Seq<char>> {
    txs.map_values(|t: Transaction| t.txid@)
}

/// The wtxid (`hash` field) of every transaction, in sequence order.
pub open spec fn wtxids_of(txs: Seq<Transaction>) -> Seq<Seq<char>> {
    txs.map_values(|t: Transaction| t.hash@)
}

/// Whether the recomputed wtxid root matches the committed witness root.
/// This reads the wtxids and the coinbase outputs alone.
pub open spec fn wtxid_commitment_matches(txs: Seq<Transaction>) -> bool
    recommends
        txs.len() > 0,
{
    root_bytes_be(wtxids_of(txs)) == first_commitment(vout_hexes(txs[0])).unwrap()
}

/// What verifying a block returns, for every input: structural errors in
/// order of detection, then the first mismatching comparison, else Valid.
/// The txid root is compared against the header's Merkle root by byte value,
/// so hex case does not matter; the wtxid root is compared against the
/// extracted witness commitment.
pub open spec fn spec_verify(header: Header, txs: Seq<Transaction>) -> Result<
    VerificationResult,
    VerificationError,
> {
    let txids = txids_of(txs);
    let wtxids = wtxids_of(txs);
    if txs.len() == 0 {
        Err(VerificationError::EmptyLeafSet)
    } else if first_commitment(vout_hexes(txs[0])) is None {
        Err(VerificationError::WitnessCommitmentNotFound)
    } else if !(all_valid_hex(txids) && valid_hex(header.merkleroot@)) {
        Err(VerificationError::MalformedHash)
    } else if !all_valid_hex(wtxids) {
        Err(VerificationError::MalformedHash)
    } else if root_bytes_be(txids) != bytes_of_hex(header.merkleroot@) {
        Ok(VerificationResult::TxidMismatch)
    } else if !wtxid_commitment_matches(txs) {
        Ok(VerificationResult::WtxidMismatch)
    } else {
        Ok(VerificationResult::Valid)
    }
}

/// Compares two byte vectors for equality.
fn bytes_eq(a: &Vec<u8>, b: &Vec<u8>) -> (r: bool)
    ensures
        r == (a@ == b@),
{
    if a.len() != b.len() {
        return false;
    }
    let mut i: usize = 0;
    while i < a.len()
        invariant
            i <= a@.len(),
            a@.len() == b@.len(),
            forall|j: int| 0 <= j < i ==> a@[j] == b@[j],
        decreases a@.len() - i,
    {
        if a[i] != b[i] {
            return false;
        }
        i = i + 1;
    }
    proof {
        assert(a@ =~= b@);
    }
    true
}

impl Block {
    /// Builds a block from a header and an ordered transaction list.
    pub fn new(header: Header, transactions: Vec<Transaction>) -> (r: Block)
        ensures
            r.header == header,
            r.transactions == transactions,
    {
        Block { header, transactions }
    }

    /// Recomputes the Merkle root over all txids and the one over all
    /// wtxids, and compares them against the header's Merkle root and the
    /// coinbase's witness commitment respectively.
    pub fn verify(&self) -> (r: Result<VerificationResult, VerificationError>)
        ensures
            r == spec_verify(self.header, self.transactions@),
    {
        if self.transactions.len() == 0 {
            return Err(VerificationError::EmptyLeafSet);
        }
        let commitment: Vec<u8> = match extract_commitment_bytes(&self.transactions[0]) {
            Some(c) => c,
            None => {
                return Err(VerificationError::WitnessCommitmentNotFound);
            },
        };
        let mut txids: Vec<String> = Vec::new();
        let mut wtxids: Vec<String> = Vec::new();
        let mut i: usize = 0;
        while i < self.transactions.len()
            invariant
                i <= self.transactions@.len(),
                txids@.len() == i,
                wtxids@.len() == i,
                forall|j: int| 0 <= j < i ==> (#[trigger] txids@[j])@
                    == self.transactions@[j].txid@,
                forall|j: int| 0 <= j < i ==> (#[trigger] wtxids@[j])@
                    == self.transactions@[j].hash@,
            decreases self.transactions@.len() - i,
        {
            txids.push(self.transactions[i].txid.clone());
            wtxids.push(self.transactions[i].hash.clone());
            i = i + 1;
        }
        proof {
            assert(str_views(txids@) =~= txids_of(self.transactions@));
            assert(str_views(wtxids@) =~= wtxids_of(self.transactions@));
        }
        let txid_root = match compute_root_bytes(&txids) {
            Ok(b) => b,
            Err(e) => {
                return Err(e);
            },
        };
        let given_root = match hex_decode(self.header.merkleroot.as_str()) {
            Some(b) => b,
            None => {
                return Err(VerificationError::MalformedHash);
            },
        };
        let wtxid_root = match compute_root_bytes(&wtxids) {
            Ok(b) => b,
            Err(e) => {
                return Err(e);
            },
        };
        let txid_ok = bytes_eq(&txid_root, &given_root);
        let wtxid_ok = bytes_eq(&wtxid_root, &commitment);
        if !txid_ok {
            Ok(VerificationResult::TxidMismatch)
        } else if !wtxid_ok {
            Ok(VerificationResult::WtxidMismatch)
        } else {
            Ok(VerificationResult::Valid)
        }
    }
}

/// A header whose Merkle root and witness commitment were both derived from
/// the supplied transaction list by this same algorithm verifies as Valid.
pub proof fn lemma_derived_roots_verify(header: Header, txs: Seq<Transaction>)
    requires
        txs.len() > 0,
        all_valid_hex(txids_of(txs)),
        all_valid_hex(wtxids_of(txs)),
        valid_hex(header.merkleroot@),
        bytes_of_hex(header.merkleroot@) == root_bytes_be(txids_of(txs)),
        first_commitment(vout_hexes(txs[0])) == Some(root_bytes_be(wtxids_of(txs))),
    ensures
        spec_verify(header, txs) == Ok::<VerificationResult, VerificationError>(
            VerificationResult::Valid,
        ),
{
}

/// The wtxid comparison depends only on the wtxids and the coinbase
/// outputs: two transaction lists that agree on those agree on it, whatever
/// their txids.
pub proof fn lemma_wtxid_outcome_independent_of_txids(
    txs: Seq<Transaction>,
    txs2: Seq<Transaction>,
)
    requires
        txs.len() > 0,
        txs2.len() > 0,
        wtxids_of(txs2) == wtxids_of(txs),
        vout_hexes(txs2[0]) == vout_hexes(txs[0]),
    ensures
        wtxid_commitment_matches(txs2) == wtxid_commitment_matches(txs),
{
}

/// Changing only txids of an otherwise-valid block, in a way that changes
/// the recomputed txid root, flips the outcome to TxidMismatch; the wtxid
/// comparison, which reads only the wtxids and the coinbase outputs, is
/// untouched.
pub proof fn lemma_txid_mutation_flips_result(
    header: Header,
    txs: Seq<Transaction>,
    txs2: Seq<Transaction>,
)
    requires
        spec_verify(header, txs) == Ok::<VerificationResult, VerificationError>(
            VerificationResult::Valid,
        ),
        txs.len() > 0,
        txs2.len() == txs.len(),
        wtxids_of(txs2) == wtxids_of(txs),
        vout_hexes(txs2[0]) == vout_hexes(txs[0]),
        all_valid_hex(txids_of(txs2)),
        root_bytes_be(txids_of(txs2)) != root_bytes_be(txids_of(txs)),
    ensures
        spec_verify(header, txs2) == Ok::<VerificationResult, VerificationError>(
            VerificationResult::TxidMismatch,
        ),
{
}

} // verus!
