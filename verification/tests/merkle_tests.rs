use merkle_block::hex_codec::convert_endianness;
use merkle_block::merkle::compute_root;
use merkle_block::outcome::VerificationError;
use sha2::Digest;

fn hex_reverse(s: &str) -> String {
    let mut b = hex::decode(s).unwrap();
    b.reverse();
    hex::encode(b)
}

fn double_sha(bytes: &[u8]) -> Vec<u8> {
    sha2::Sha256::digest(sha2::Sha256::digest(bytes)).to_vec()
}

#[test]
fn convert_endianness_concrete() {
    assert_eq!(convert_endianness("0102"), Ok("0201".to_string()));
    assert_eq!(convert_endianness(""), Ok("".to_string()));
    assert_eq!(
        convert_endianness("6a24aa21a9ed"),
        Ok("eda921aa246a".to_string())
    );
}

#[test]
fn convert_endianness_involution() {
    let h = "0e3e2357e806b6cdb1f70b54c3a3a17b6714ee1f0e68bebb44a74b1efd512098";
    let once = convert_endianness(h).unwrap();
    assert_ne!(once, h);
    let twice = convert_endianness(&once).unwrap();
    assert_eq!(twice, h);
}

#[test]
fn convert_endianness_rejects_odd_length() {
    assert_eq!(
        convert_endianness("abc"),
        Err(VerificationError::MalformedHash)
    );
}

#[test]
fn convert_endianness_rejects_non_hex() {
    assert_eq!(
        convert_endianness("zz"),
        Err(VerificationError::MalformedHash)
    );
}

#[test]
fn single_leaf_is_its_own_root() {
    let h = "4a5e1e4baab89f3a32518a88c31bc87f618f76673e2cc77ab2127b7afdeda33b";
    let leaves = vec![h.to_string()];
    assert_eq!(compute_root(&leaves), Ok(h.to_string()));
}

#[test]
fn empty_leaf_set_is_an_error() {
    let leaves: Vec<String> = Vec::new();
    assert_eq!(compute_root(&leaves), Err(VerificationError::EmptyLeafSet));
}

#[test]
fn malformed_leaf_is_an_error() {
    let leaves = vec!["g".repeat(64)];
    assert_eq!(compute_root(&leaves), Err(VerificationError::MalformedHash));
}

#[test]
fn two_leaf_root_matches_double_sha_of_concatenation() {
    // Little-endian leaf bytes 0x00..01 and 0x00..02.
    let mut le1 = vec![0u8; 32];
    le1[31] = 1;
    let mut le2 = vec![0u8; 32];
    le2[31] = 2;
    // The corresponding big-endian hex leaves the caller would pass.
    let be1 = hex_reverse(&hex::encode(&le1));
    let be2 = hex_reverse(&hex::encode(&le2));

    let mut cat = le1.clone();
    cat.extend_from_slice(&le2);
    let root_le = double_sha(&cat);
    let expected = hex_reverse(&hex::encode(&root_le));

    let leaves = vec![be1, be2];
    assert_eq!(compute_root(&leaves), Ok(expected));
}

#[test]
fn odd_count_duplicates_last_leaf() {
    let a = "aa".repeat(32);
    let b = "bb".repeat(32);
    let c = "cc".repeat(32);
    let implicit = vec![a.clone(), b.clone(), c.clone()];
    let explicit = vec![a, b, c.clone(), c];
    assert_eq!(compute_root(&implicit), compute_root(&explicit));
}

#[test]
fn padding_applies_at_every_level() {
    // Six leaves: level sizes 6 -> 3 -> (padded) 2 -> 1, so the second
    // level needs the duplication rule as well.
    let leaves: Vec<String> = (1..=6u8).map(|i| format!("{:02x}", i).repeat(32)).collect();
    let mut level: Vec<Vec<u8>> = leaves
        .iter()
        .map(|l| {
            let mut b = hex::decode(l).unwrap();
            b.reverse();
            b
        })
        .collect();
    while level.len() > 1 {
        if level.len() % 2 != 0 {
            level.push(level.last().unwrap().clone());
        }
        level = level
            .chunks(2)
            .map(|p| {
                let mut cat = p[0].clone();
                cat.extend_from_slice(&p[1]);
                double_sha(&cat)
            })
            .collect();
    }
    let expected = hex_reverse(&hex::encode(&level[0]));
    assert_eq!(compute_root(&leaves), Ok(expected));
}

#[test]
fn reordering_leaves_changes_root() {
    let a = "11".repeat(32);
    let b = "22".repeat(32);
    let ab = compute_root(&vec![a.clone(), b.clone()]).unwrap();
    let ba = compute_root(&vec![b, a]).unwrap();
    assert_ne!(ab, ba);
}

#[test]
fn double_digest_matches_reference_hasher() {
    let empty: Vec<u8> = Vec::new();
    assert_eq!(merkle_block::hashing::digest(&empty), double_sha(b""));
    let data = vec![1u8, 2, 3];
    assert_eq!(merkle_block::hashing::digest(&data), double_sha(&[1, 2, 3]));
}
