//! The errors of the commitment engines.

use vstd::prelude::*;

verus! {

/// What went wrong, with the values that the check compared.
#[derive(Clone, Copy, Debug, PartialEq, Eq, Structural)]
pub enum ErrorReason {
    /// `commit` got a vector of another length than the key was set up for.
    CommitLength { expected: usize, got: usize },
    /// The Greyhound library reported a failure while committing.
    CommitFailed { code: i32 },
    /// A commitment is to a vector of another length than the one expected.
    CommitmentLength { actual: usize, expected: usize },
    /// `combine_commitments` got no commitment.
    NoCommitments,
    /// `combine_blinds` got no blind.
    NoBlinds,
    /// `prove` got a polynomial whose length is not `2^point.len()`.
    PolyLength { expected: usize, got: usize },
    /// The Greyhound library reported a failure while reducing the proof.
    ReduceFailed { code: i32 },
    /// An evaluation argument is for another length than the verifier key.
    ProofLength { proof: usize, expected: usize },
    /// An evaluation argument is for another evaluation point.
    EvaluationPointMismatch,
    /// The proof or witness stored in an evaluation argument cannot be read back.
    MalformedProof,
    /// The checked proof claims another value than the evaluation argument.
    EvaluationValueMismatch,
    /// The Greyhound library's check of an evaluation proof failed.
    ProofRejected { code: i32 },
    /// This engine cannot prove evaluations.
    ProvingUnavailable,
}

/// The errors that the commitment engines report.
#[derive(Clone, Copy, Debug, PartialEq, Eq, Structural)]
pub enum SpartanError {
    InvalidInputLength { reason: ErrorReason },
    InvalidCommitmentLength { reason: ErrorReason },
    ProofVerifyError { reason: ErrorReason },
    InternalError { reason: ErrorReason },
}

} // verus!
