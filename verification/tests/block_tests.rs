use merkle_block::block::{Block, Header, ScriptPubKey, Transaction, Vout};
use merkle_block::merkle::compute_root;
use merkle_block::outcome::{VerificationError, VerificationResult};
use merkle_block::witness::find_wtxid_root;

fn make_header(merkleroot: &str) -> Header {
    Header {
        version: 0x20000000,
        merkleroot: merkleroot.to_string(),
        time: 1700000000,
        nonce: 42,
        bits: "170331db".to_string(),
        previousblockhash: "00".repeat(32),
    }
}

fn make_vout(n: u32, script_hex: &str) -> Vout {
    Vout {
        value: 0,
        n,
        script_pub_key: ScriptPubKey {
            assembly: String::new(),
            desc: String::new(),
            hex: script_hex.to_string(),
            address: None,
            script_type: "nulldata".to_string(),
        },
    }
}

fn make_tx(txid: &str, hash: &str, script_hexes: &[&str]) -> Transaction {
    Transaction {
        txid: txid.to_string(),
        hash: hash.to_string(),
        version: 2,
        size: 200,
        vsize: 200,
        locktime: 0,
        vin: Vec::new(),
        vout: script_hexes
            .iter()
            .enumerate()
            .map(|(i, s)| make_vout(i as u32, s))
            .collect(),
    }
}

/// A two-transaction block whose header root and witness commitment are
/// derived from the transactions by the same algorithm.
fn make_valid_block() -> Block {
    let coinbase_txid = "11".repeat(32);
    let coinbase_wtxid = "00".repeat(32);
    let tx_txid = "4a5e1e4baab89f3a32518a88c31bc87f618f76673e2cc77ab2127b7afdeda33b".to_string();
    let tx_wtxid = "2f7f1d5d5b7c30c0a2d5a2ebbd7cd0d6b90b53e0d2a6b7fa1f2c9e8d7b6a5f41".to_string();

    let wtxid_root = compute_root(&vec![coinbase_wtxid.clone(), tx_wtxid.clone()]).unwrap();
    let commitment_script = format!("6a24aa21a9ed{}", wtxid_root);
    let coinbase = make_tx(
        &coinbase_txid,
        &coinbase_wtxid,
        &["76a914000000000000000000000000000000000000000088ac", &commitment_script],
    );
    let tx = make_tx(&tx_txid, &tx_wtxid, &[]);

    let txid_root = compute_root(&vec![coinbase_txid, tx_txid]).unwrap();
    Block::new(make_header(&txid_root), vec![coinbase, tx])
}

#[test]
fn extract_returns_bytes_after_marker() {
    let committed = "ab".repeat(32);
    let script = format!("6a24aa21a9ed{}", committed);
    let tx = make_tx(&"11".repeat(32), &"00".repeat(32), &[&script]);
    assert_eq!(find_wtxid_root(&tx), Ok(committed));
}

#[test]
fn extract_fails_without_marker() {
    let tx = make_tx(
        &"11".repeat(32),
        &"00".repeat(32),
        &["76a91400112233445566778899aabbccddeeff0011223388ac"],
    );
    assert_eq!(
        find_wtxid_root(&tx),
        Err(VerificationError::WitnessCommitmentNotFound)
    );
}

#[test]
fn extract_takes_first_match_in_output_order() {
    let first = "cd".repeat(32);
    let second = "ef".repeat(32);
    let s1 = format!("6a24aa21a9ed{}", first);
    let s2 = format!("6a24aa21a9ed{}", second);
    let tx = make_tx(&"11".repeat(32), &"00".repeat(32), &["6a", &s1, &s2]);
    assert_eq!(find_wtxid_root(&tx), Ok(first));
}

#[test]
fn extract_skips_marker_with_too_few_bytes() {
    // The marker is present but fewer than 32 bytes follow it.
    let short = format!("6a24aa21a9ed{}", "ab".repeat(31));
    let tx = make_tx(&"11".repeat(32), &"00".repeat(32), &[&short]);
    assert_eq!(
        find_wtxid_root(&tx),
        Err(VerificationError::WitnessCommitmentNotFound)
    );
}

#[test]
fn extract_takes_exactly_thirty_two_bytes() {
    // Extra bytes after the committed 32 are ignored.
    let committed = "ab".repeat(32);
    let script = format!("6a24aa21a9ed{}ffff", committed);
    let tx = make_tx(&"11".repeat(32), &"00".repeat(32), &[&script]);
    assert_eq!(find_wtxid_root(&tx), Ok(committed));
}

#[test]
fn derived_block_verifies_as_valid() {
    let block = make_valid_block();
    assert_eq!(block.verify(), Ok(VerificationResult::Valid));
}

#[test]
fn uppercase_header_root_still_verifies() {
    let mut block = make_valid_block();
    block.header.merkleroot = block.header.merkleroot.to_uppercase();
    assert_eq!(block.verify(), Ok(VerificationResult::Valid));
}

#[test]
fn mutated_txid_flips_to_txid_mismatch() {
    let mut block = make_valid_block();
    block.transactions[1].txid = "ee".repeat(32);
    assert_eq!(block.verify(), Ok(VerificationResult::TxidMismatch));
}

#[test]
fn mutated_wtxid_flips_to_wtxid_mismatch() {
    let mut block = make_valid_block();
    block.transactions[1].hash = "ee".repeat(32);
    assert_eq!(block.verify(), Ok(VerificationResult::WtxidMismatch));
}

#[test]
fn wrong_header_root_is_txid_mismatch() {
    let mut block = make_valid_block();
    block.header.merkleroot = "99".repeat(32);
    assert_eq!(block.verify(), Ok(VerificationResult::TxidMismatch));
}

#[test]
fn empty_transaction_list_is_an_error() {
    let block = Block::new(make_header(&"00".repeat(32)), Vec::new());
    assert_eq!(block.verify(), Err(VerificationError::EmptyLeafSet));
}

#[test]
fn missing_commitment_is_an_error() {
    let mut block = make_valid_block();
    block.transactions[0].vout.truncate(1);
    assert_eq!(
        block.verify(),
        Err(VerificationError::WitnessCommitmentNotFound)
    );
}

#[test]
fn malformed_txid_is_an_error() {
    let mut block = make_valid_block();
    block.transactions[1].txid = "not hex at all".to_string();
    assert_eq!(block.verify(), Err(VerificationError::MalformedHash));
}

#[test]
fn malformed_header_root_is_an_error() {
    let mut block = make_valid_block();
    block.header.merkleroot = "xyz".to_string();
    assert_eq!(block.verify(), Err(VerificationError::MalformedHash));
}

#[test]
fn malformed_wtxid_is_an_error() {
    let mut block = make_valid_block();
    block.transactions[1].hash = "abc".to_string();
    assert_eq!(block.verify(), Err(VerificationError::MalformedHash));
}
