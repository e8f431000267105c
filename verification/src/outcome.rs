//! The outcomes a verification call can produce.
//!
//! Mismatches are verification results — the engine did its work and the
//! roots disagree — while `VerificationError` covers the inputs the engine
//! could not evaluate at all. Callers need to tell the two apart.

use vstd::prelude::*;

verus! {

/// A structural problem with the input: the computation was aborted.
#[derive(Clone, Copy, Debug, PartialEq, Eq, Structural)]
pub enum VerificationError {
    /// A hash string is not valid hex or has odd length.
    MalformedHash,
    /// Zero transactions were supplied.
    EmptyLeafSet,
    /// The coinbase transaction carries no recognizable commitment output.
    WitnessCommitmentNotFound,
}

/// The outcome of evaluating a block: both roots were recomputed and
/// compared.
#[derive(Clone, Copy, Debug, PartialEq, Eq, Structural)]
pub enum VerificationResult {
    /// Both recomputed roots agree with the claimed values.
    Valid,
    /// The root over txids disagrees with the header's Merkle root.
    TxidMismatch,
    /// The root over wtxids disagrees with the committed witness root.
    WtxidMismatch,
}

} // verus!
