//! The commitment engine for MSVC builds, where the Greyhound library cannot
//! be built. It gives no binding or hiding guarantee: every operation succeeds
//! with the one commitment value there is, and verification accepts anything.

use vstd::prelude::*;
use crate::errors::SpartanError;
use crate::transcript::TranscriptEngineTrait;

verus! {

/// The placeholder commitment.
#[derive(Clone, Copy, Debug, PartialEq, Eq, Structural)]
pub struct MSVCGreyhoundCommitment;

/// The placeholder verifier key.
#[derive(Clone, Copy, Debug, PartialEq, Eq, Structural)]
pub struct MSVCGreyhoundVerifierKey;

/// The placeholder commitment key.
#[derive(Clone, Copy, Debug, PartialEq, Eq, Structural)]
pub struct MSVCGreyhoundCommitmentKey;

/// The placeholder proof.
#[derive(Clone, Copy, Debug, PartialEq, Eq, Structural)]
pub struct MSVCGreyhoundProof;

/// The placeholder evaluation argument.
#[derive(Clone, Copy, Debug, PartialEq, Eq, Structural)]
pub struct MSVCGreyhoundEvaluationArgument;

/// The placeholder commitment engine.
#[derive(Clone, Copy, Debug, PartialEq, Eq, Structural)]
pub struct MSVCGreyhoundPCS;

impl MSVCGreyhoundCommitment {
    /// A placeholder commitment enters a transcript as no bytes.
    pub fn to_transcript_bytes(&self) -> (r: Vec<u8>)
        ensures
            r@ == Seq::<u8>::empty(),
    {
        Vec::new()
    }
}

impl MSVCGreyhoundPCS {
    /// The placeholder keys; the label, length and width are not used.
    pub fn setup(label: &[u8], n: usize, width: usize) -> (r: (MSVCGreyhoundCommitmentKey, MSVCGreyhoundVerifierKey))
        ensures
            r == (MSVCGreyhoundCommitmentKey, MSVCGreyhoundVerifierKey),
    {
        (MSVCGreyhoundCommitmentKey, MSVCGreyhoundVerifierKey)
    }

    /// Commits to anything: the placeholder commitment.
    pub fn commit<S>(ck: &MSVCGreyhoundCommitmentKey, v: &[S], r: &S, is_small: bool) -> (res: Result<MSVCGreyhoundCommitment, SpartanError>)
        ensures
            res == Ok::<MSVCGreyhoundCommitment, SpartanError>(MSVCGreyhoundCommitment),
    {
        Ok(MSVCGreyhoundCommitment)
    }

    /// Proves anything: the placeholder argument; the transcript is not touched.
    pub fn prove<S, T: TranscriptEngineTrait>(
        ck: &MSVCGreyhoundCommitmentKey,
        ck_eval: &MSVCGreyhoundCommitmentKey,
        transcript: &mut T,
        comm: &MSVCGreyhoundCommitment,
        poly: &[S],
        blind: &S,
        point: &[S],
        comm_eval: &MSVCGreyhoundCommitment,
        blind_eval: &S,
    ) -> (res: Result<MSVCGreyhoundEvaluationArgument, SpartanError>)
        ensures
            res == Ok::<MSVCGreyhoundEvaluationArgument, SpartanError>(MSVCGreyhoundEvaluationArgument),
            final(transcript).absorbed() == old(transcript).absorbed(),
    {
        Ok(MSVCGreyhoundEvaluationArgument)
    }

    /// Accepts every argument; the transcript is not touched.
    pub fn verify<S, T: TranscriptEngineTrait>(
        vk: &MSVCGreyhoundVerifierKey,
        ck_eval: &MSVCGreyhoundCommitmentKey,
        transcript: &mut T,
        comm: &MSVCGreyhoundCommitment,
        point: &[S],
        comm_eval: &MSVCGreyhoundCommitment,
        arg: &MSVCGreyhoundEvaluationArgument,
    ) -> (res: Result<(), SpartanError>)
        ensures
            res == Ok::<(), SpartanError>(()),
            final(transcript).absorbed() == old(transcript).absorbed(),
    {
        Ok(())
    }

    /// Accepts every commitment.
    pub fn check_commitment(comm: &MSVCGreyhoundCommitment, n: usize, width: usize) -> (res: Result<(), SpartanError>)
        ensures
            res == Ok::<(), SpartanError>(()),
    {
        Ok(())
    }

    /// The placeholder commitment.
    pub fn rerandomize_commitment<S>(
        ck: &MSVCGreyhoundCommitmentKey,
        comm: &MSVCGreyhoundCommitment,
        r_old: &S,
        r_new: &S,
    ) -> (res: Result<MSVCGreyhoundCommitment, SpartanError>)
        ensures
            res == Ok::<MSVCGreyhoundCommitment, SpartanError>(MSVCGreyhoundCommitment),
    {
        Ok(MSVCGreyhoundCommitment)
    }

    /// The placeholder commitment.
    pub fn combine_commitments(comms: &[MSVCGreyhoundCommitment]) -> (res: Result<MSVCGreyhoundCommitment, SpartanError>)
        ensures
            res == Ok::<MSVCGreyhoundCommitment, SpartanError>(MSVCGreyhoundCommitment),
    {
        Ok(MSVCGreyhoundCommitment)
    }

    /// The placeholder commitment; the weights are not used.
    pub fn fold_commitments<S>(comms: &[MSVCGreyhoundCommitment], weights: &[S]) -> (res: Result<MSVCGreyhoundCommitment, SpartanError>)
        ensures
            res == Ok::<MSVCGreyhoundCommitment, SpartanError>(MSVCGreyhoundCommitment),
    {
        Ok(MSVCGreyhoundCommitment)
    }
}

} // verus!
