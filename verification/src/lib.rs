//! Merkle-root verification for block headers: endianness-normalised
//! double-SHA-256 pairwise reduction over transaction identifiers, and
//! extraction of the witness commitment from the coinbase transaction.

pub mod block;
pub mod hashing;
pub mod hex_codec;
pub mod merkle;
pub mod outcome;
pub mod witness;
