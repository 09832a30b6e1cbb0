//! The placeholder commitment engine used where the Greyhound library cannot
//! be built. It gives no binding or hiding guarantee: committing succeeds with
//! the one commitment value there is, proving fails with an error that says
//! proofs are unavailable, and verification accepts anything.

use vstd::prelude::*;
use crate::errors::{ErrorReason, SpartanError};
use crate::transcript::TranscriptEngineTrait;

verus! {

/// The placeholder commitment.
#[derive(Clone, Copy, Debug, PartialEq, Eq, Structural)]
pub struct StubCommitment;

/// The placeholder verifier key.
#[derive(Clone, Copy, Debug, PartialEq, Eq, Structural)]
pub struct StubVerifierKey;

/// The placeholder commitment key.
#[derive(Clone, Copy, Debug, PartialEq, Eq, Structural)]
pub struct StubCommitmentKey;

/// The placeholder proof.
#[derive(Clone, Copy, Debug, PartialEq, Eq, Structural)]
pub struct StubProof;

/// The placeholder evaluation argument.
#[derive(Clone, Copy, Debug, PartialEq, Eq, Structural)]
pub struct StubEvaluationArgument;

/// The placeholder commitment engine.
#[derive(Clone, Copy, Debug, PartialEq, Eq, Structural)]
pub struct StubPCS;

impl StubCommitment {
    /// A placeholder commitment enters a transcript as no bytes.
    pub fn to_transcript_bytes(&self) -> (r: Vec<u8>)
        ensures
            r@ == Seq::<u8>::empty(),
    {
        Vec::new()
    }
}

impl StubPCS {
    /// The placeholder keys; the label, length and width are not used.
    pub fn setup(label: &[u8], n: usize, width: usize) -> (r: (StubCommitmentKey, StubVerifierKey))
        ensures
            r == (StubCommitmentKey, StubVerifierKey),
    {
        (StubCommitmentKey, StubVerifierKey)
    }

    /// Commits to anything: the placeholder commitment.
    pub fn commit<S>(ck: &StubCommitmentKey, v: &[S], r: &S, is_small: bool) -> (res: Result<StubCommitment, SpartanError>)
        ensures
            res == Ok::<StubCommitment, SpartanError>(StubCommitment),
    {
        Ok(StubCommitment)
    }

    /// This engine has no proof system: proving fails, saying so, and the
    /// transcript is not touched.
    pub fn prove<S, T: TranscriptEngineTrait>(
        ck: &StubCommitmentKey,
        ck_eval: &StubCommitmentKey,
        transcript: &mut T,
        comm: &StubCommitment,
        poly: &[S],
        blind: &S,
        point: &[S],
        comm_eval: &StubCommitment,
        blind_eval: &S,
    ) -> (res: Result<StubEvaluationArgument, SpartanError>)
        ensures
            res == Err::<StubEvaluationArgument, SpartanError>(SpartanError::InternalError {
                reason: ErrorReason::ProvingUnavailable,
            }),
            final(transcript).absorbed() == old(transcript).absorbed(),
    {
        Err(SpartanError::InternalError { reason: ErrorReason::ProvingUnavailable })
    }

    /// Accepts every argument; the transcript is not touched.
    pub fn verify<S, T: TranscriptEngineTrait>(
        vk: &StubVerifierKey,
        ck_eval: &StubCommitmentKey,
        transcript: &mut T,
        comm: &StubCommitment,
        point: &[S],
        comm_eval: &StubCommitment,
        arg: &StubEvaluationArgument,
    ) -> (res: Result<(), SpartanError>)
        ensures
            res == Ok::<(), SpartanError>(()),
            final(transcript).absorbed() == old(transcript).absorbed(),
    {
        Ok(())
    }

    /// Accepts every commitment.
    pub fn check_commitment(comm: &StubCommitment, n: usize, width: usize) -> (res: Result<(), SpartanError>)
        ensures
            res == Ok::<(), SpartanError>(()),
    {
        Ok(())
    }

    /// The commitment, unchanged.
    pub fn rerandomize_commitment<S>(
        ck: &StubCommitmentKey,
        comm: &StubCommitment,
        r_old: &S,
        r_new: &S,
    ) -> (res: Result<StubCommitment, SpartanError>)
        ensures
            res == Ok::<StubCommitment, SpartanError>(*comm),
    {
        Ok(*comm)
    }

    /// The first commitment, or the placeholder commitment when there is none.
    pub fn combine_commitments(comms: &[StubCommitment]) -> (res: Result<StubCommitment, SpartanError>)
        ensures
            res == Ok::<StubCommitment, SpartanError>(StubCommitment),
    {
        if comms.len() > 0 {
            Ok(comms[0])
        } else {
            Ok(StubCommitment)
        }
    }

    /// The first commitment, or the placeholder commitment when there is
    /// none; the weights are not used.
    pub fn fold_commitments<S>(comms: &[StubCommitment], weights: &[S]) -> (res: Result<StubCommitment, SpartanError>)
        ensures
            res == Ok::<StubCommitment, SpartanError>(StubCommitment),
    {
        if comms.len() > 0 {
            Ok(comms[0])
        } else {
            Ok(StubCommitment)
        }
    }
}

} // verus!
