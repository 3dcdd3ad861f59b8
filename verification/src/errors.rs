//! Error kinds shared by every stage of the protocol.

use vstd::prelude::*;

verus! {

/// Terminal failures of a proof attempt.  None is retried internally;
/// regenerating with fresh randomness is the caller's policy.
#[derive(Clone, Copy, Debug, PartialEq, Eq, Structural)]
pub enum ProofSystemError {
    /// A witness value was absent when constraint generation needed it.
    MissingAssignment,
    /// Proving was attempted on an assignment that violates the constraints.
    ConstraintUnsatisfied,
    /// Succinct-proof verification failed.
    InvalidProof,
    /// A commitment opening did not match: wrong slot index, wrong claimed
    /// values, or wrong blinding randomness.
    CommitmentMismatch,
    /// A cross-statement witness-equality check failed at verification.
    MetaStatementUnsatisfied,
    /// An out-of-bounds witness reference, a statement/witness mismatch, or
    /// a committable-witness count that differs between setup and proving.
    MalformedSpec,
}

} // verus!
