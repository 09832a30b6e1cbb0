//! The Greyhound polynomial commitment engine.
//!
//! Committing and proving go through routines of the Greyhound C library.
//! For each of them the engine has two verified steps: one that checks the
//! inputs and prepares what the library is given, and one that turns what the
//! library answered into the engine's result. Everything else (setup, blinds,
//! combining, checking and verifying) is decided here entirely.

use vstd::prelude::*;
use vstd::arithmetic::power2::{pow2, lemma_pow2_unfold, lemma_pow2_strictly_increases};
use crate::encoding::{coeff_vector, le_value, low_word, pow256, repr_coeff, signed_word, repr_to_coeff, scalars_to_int64_vec};
use crate::errors::{ErrorReason, SpartanError};
use crate::greyhound_ffi::{MODULUS, N};
use crate::keccak::{keccak256, keccak256_digest};
use crate::serial::{bincode_decode_proof, bincode_decode_witness, decode_proof, decode_witness, bincode_context, bincode_proof, bincode_witness, context_bytes, le_bytes, proof_bytes, push_le_usize, usize_width, witness_bytes};
use crate::transcript::{poly_com_label, poly_com_label_bytes, push_all, TranscriptEngineTrait};

verus! {

/// The commitment key: the length of the vectors it commits to.
pub struct GreyhoundCommitmentKey {
    pub len: usize,
}

/// The verifier key: the length of the vectors whose evaluations it checks.
pub struct GreyhoundVerifierKey {
    pub len: usize,
}

/// A commitment: the 16-byte hash that the library computed, and the length
/// of the committed vector.
#[derive(Debug, PartialEq, Eq)]
pub struct GreyhoundCommitment {
    pub hash: [u8; 16],
    pub len: usize,
    pub ctx_data: Vec<u8>,
}

/// Blinding values; Greyhound does not use them, they are kept for the
/// engine interface.
#[derive(Clone, Debug, PartialEq, Eq)]
pub struct GreyhoundBlind<S> {
    pub blind: Vec<S>,
}

/// The Greyhound commitment engine.
#[derive(Clone, Copy, Debug, PartialEq, Eq, Structural)]
pub struct GreyhoundPCS;

/// An evaluation argument: the serialised proof and witness, the length of
/// the polynomial, the evaluation point `x` and the claimed value `y`.
#[derive(Clone, Debug)]
pub struct GreyhoundEvaluationArgument {
    pub proof_data: Vec<u8>,
    pub statement_data: Vec<u8>,
    pub witness_data: Vec<u8>,
    pub len: usize,
    pub x: i64,
    pub y: i64,
}

/// What the library is given to commit: the size of the commitment key to
/// initialise, the number of scalars, and their coefficients.
pub struct CommitRequest {
    pub len: usize,
    pub comkey_size: usize,
    pub coeffs: Vec<i64>,
}

/// The plain fields of the commitment context (`polcomctx`) after the
/// library committed: the lengths, the commitment hash and the norm.
pub struct CommitContext {
    pub len: usize,
    pub m: usize,
    pub n: usize,
    pub h: [u8; 16],
    pub normsq: u64,
}

/// The plain fields of the evaluation proof (`polcomprf`) after the library
/// produced it.
#[derive(Clone, Copy, Debug, PartialEq, Eq, Structural)]
pub struct EvalProofFields {
    pub len: usize,
    pub m: usize,
    pub n: usize,
    pub x: i64,
    pub y: i64,
    pub normsq: u64,
}

/// What the library's check of an evaluation proof is given: the proof's
/// plain fields, read back from the argument, and the witness's number of
/// parts with the length of each part.
pub struct VerificationInputs {
    pub proof: EvalProofFields,
    pub witness_r: usize,
    pub witness_parts: Vec<usize>,
}

/// What the library is given to prove an evaluation: the number of scalars,
/// the evaluation point, the commitment hash and the coefficients.
pub struct ProveRequest {
    pub len: usize,
    pub x: i64,
    pub hash: [u8; 16],
    pub coeffs: Vec<i64>,
}

/// The bytes by which a commitment enters a transcript: its hash, then its
/// length as the little-endian bytes of a `usize` (`usize::to_le_bytes`).
pub open spec fn transcript_repr(c: GreyhoundCommitment) -> Seq<u8> {
    c.hash@ + le_bytes(c.len as nat, usize_width())
}

/// What absorbing a commitment under the label `poly_com` makes of the
/// transcript `before`.
pub open spec fn absorb_commitment(before: Seq<u8>, c: GreyhoundCommitment) -> Seq<u8> {
    before + poly_com_label_bytes() + transcript_repr(c)
}

/// The message hashed to combine commitments: their transcript bytes, in order.
pub open spec fn combine_message(comms: Seq<GreyhoundCommitment>) -> Seq<u8>
    decreases comms.len(),
{
    if comms.len() == 0 {
        Seq::empty()
    } else {
        combine_message(comms.drop_last()) + transcript_repr(comms.last())
    }
}

/// The sum of the lengths of commitments.
pub open spec fn sum_lens(comms: Seq<GreyhoundCommitment>) -> nat
    decreases comms.len(),
{
    if comms.len() == 0 {
        0
    } else {
        sum_lens(comms.drop_last()) + comms.last().len as nat
    }
}

/// The blinding values of several blinds, one after another.
pub open spec fn concat_blinds<S>(blinds: Seq<GreyhoundBlind<S>>) -> Seq<S>
    decreases blinds.len(),
{
    if blinds.len() == 0 {
        Seq::empty()
    } else {
        concat_blinds(blinds.drop_last()) + blinds.last().blind@
    }
}

/// The evaluation point that Greyhound uses for a multilinear point: the
/// encoding of its first coordinate, or 0 for the empty point.
pub open spec fn eval_point(point: Seq<Vec<u8>>) -> int {
    if point.len() == 0 {
        0
    } else {
        repr_coeff(point[0]@)
    }
}

/// The proof and witness fields stored in an argument, read back; `None`
/// when either cannot be read.
pub open spec fn decoded_inputs(arg: GreyhoundEvaluationArgument) -> Option<(EvalProofFields, usize)> {
    match (decode_proof(arg.proof_data@), decode_witness(arg.witness_data@)) {
        (Some(p), Some(w)) => Some((p, w)),
        _ => None,
    }
}

/// The lengths of the witness's parts: `w` parts, each as long as the proof.
pub open spec fn witness_part_lengths(p: EvalProofFields, w: usize) -> Seq<usize> {
    Seq::new(w as nat, |_i: int| p.len)
}

/// What verification answers once the library's check of the proof whose
/// fields were read back as `p` answered `verdict` (0: the proof holds): a
/// rejection; else a point mismatch unless the checked proof, the argument
/// and `point` agree on the evaluation point; else a value mismatch unless the
/// checked proof and the argument agree on the claimed value; else acceptance.
pub open spec fn checked_outcome(
    point: Seq<Vec<u8>>,
    arg: GreyhoundEvaluationArgument,
    p: EvalProofFields,
    verdict: i32,
) -> Result<(), SpartanError> {
    if verdict != 0 {
        Err(SpartanError::ProofVerifyError { reason: ErrorReason::ProofRejected { code: verdict } })
    } else if p.x != eval_point(point) || p.x != arg.x {
        Err(SpartanError::InvalidInputLength { reason: ErrorReason::EvaluationPointMismatch })
    } else if p.y != arg.y {
        Err(SpartanError::ProofVerifyError { reason: ErrorReason::EvaluationValueMismatch })
    } else {
        Ok(())
    }
}

impl GreyhoundCommitment {
    /// The bytes by which this commitment enters a transcript.
    pub fn to_transcript_bytes(&self) -> (r: Vec<u8>)
        ensures
            r@ == transcript_repr(*self),
    {
        let mut bytes: Vec<u8> = Vec::new();
        push_all(&mut bytes, &self.hash);
        push_le_usize(&mut bytes, self.len);
        bytes
    }
}

impl Clone for GreyhoundCommitment {
    fn clone(&self) -> (r: Self)
        ensures
            r.hash == self.hash,
            r.len == self.len,
            r.ctx_data@ == self.ctx_data@,
    {
        GreyhoundCommitment { hash: self.hash, len: self.len, ctx_data: self.ctx_data.clone() }
    }
}


proof fn lemma_sum_lens_prefix(comms: Seq<GreyhoundCommitment>, i: int)
    requires
        0 <= i <= comms.len(),
    ensures
        sum_lens(comms.take(i)) <= sum_lens(comms),
    decreases comms.len(),
{
    if i < comms.len() {
        assert(comms.take(i) =~= comms.drop_last().take(i));
        lemma_sum_lens_prefix(comms.drop_last(), i);
    } else {
        assert(comms.take(i) =~= comms);
    }
}

impl GreyhoundPCS {
    /// Sets up keys for vectors of `n` scalars. The label and the width are
    /// not used by Greyhound.
    pub fn setup(label: &[u8], n: usize, width: usize) -> (r: (GreyhoundCommitmentKey, GreyhoundVerifierKey))
        ensures
            r.0.len == n,
            r.1.len == n,
    {
        let ck = GreyhoundCommitmentKey { len: n };
        let vk = GreyhoundVerifierKey { len: n };
        (ck, vk)
    }

    /// `n` blinding values, each drawn by one call of `draw` (the random
    /// scalar generator of the field).
    pub fn blind<S, F: Fn() -> S>(ck: &GreyhoundCommitmentKey, n: usize, draw: F) -> (r: GreyhoundBlind<S>)
        requires
            call_requires(draw, ()),
        ensures
            r.blind@.len() == n,
            forall|i: int| 0 <= i < n ==> call_ensures(draw, (), #[trigger] r.blind@[i]),
    {
        let mut blind: Vec<S> = Vec::new();
        let mut i: usize = 0;
        while i < n
            invariant
                i <= n,
                call_requires(draw, ()),
                blind@.len() == i,
                forall|j: int| 0 <= j < i ==> call_ensures(draw, (), #[trigger] blind@[j]),
            decreases n - i,
        {
            let s = draw();
            blind.push(s);
            i = i + 1;
        }
        GreyhoundBlind { blind }
    }

    /// The first step of `commit`: checks that `v` (the representations of
    /// the scalars) has the key's length and prepares the library's input.
    pub fn commit_request(ck: &GreyhoundCommitmentKey, v: &[Vec<u8>]) -> (r: Result<CommitRequest, SpartanError>)
        requires
            v@.len() == ck.len ==> v@.len() * N <= usize::MAX,
        ensures
            v@.len() != ck.len <==> r is Err,
            r is Err ==> r == Err::<CommitRequest, SpartanError>(SpartanError::InvalidInputLength {
                reason: ErrorReason::CommitLength { expected: ck.len, got: v@.len() as usize },
            }),
            r matches Ok(req) ==> {
                &&& req.len == v@.len()
                &&& req.comkey_size == v@.len() * N
                &&& req.coeffs@ == coeff_vector(v@)
            },
    {
        let n = v.len();
        if n != ck.len {
            return Err(SpartanError::InvalidInputLength {
                reason: ErrorReason::CommitLength { expected: ck.len, got: n },
            });
        }
        let coeffs = scalars_to_int64_vec(v);
        Ok(CommitRequest { len: n, comkey_size: n * N, coeffs })
    }

    /// The second step of `commit`: the library answered `code`, and `ctx`
    /// holds the plain fields of the commitment context it filled. A nonzero
    /// code is a failure. The commitment keeps the context's hash, and its
    /// serialised fields for later proofs.
    pub fn commit_response(req: &CommitRequest, code: i32, ctx: &CommitContext) -> (r: Result<GreyhoundCommitment, SpartanError>)
        ensures
            code != 0 <==> r is Err,
            r is Err ==> r == Err::<GreyhoundCommitment, SpartanError>(SpartanError::InvalidCommitmentLength {
                reason: ErrorReason::CommitFailed { code },
            }),
            r matches Ok(c) ==> {
                &&& c.hash == ctx.h
                &&& c.len == req.len
                &&& c.ctx_data@ == context_bytes(*ctx)
            },
    {
        if code != 0 {
            return Err(SpartanError::InvalidCommitmentLength { reason: ErrorReason::CommitFailed { code } });
        }
        let ctx_data = bincode_context(ctx);
        Ok(GreyhoundCommitment { hash: ctx.h, len: req.len, ctx_data })
    }

    /// Checks that a commitment is to a vector of `n` scalars.
    pub fn check_commitment(comm: &GreyhoundCommitment, n: usize, width: usize) -> (r: Result<(), SpartanError>)
        ensures
            r == check_outcome(*comm, n),
    {
        if comm.len != n {
            return Err(SpartanError::InvalidCommitmentLength {
                reason: ErrorReason::CommitmentLength { actual: comm.len, expected: n },
            });
        }
        Ok(())
    }

    /// Greyhound has no rerandomisation: the commitment comes back as it is.
    pub fn rerandomize_commitment<S>(
        ck: &GreyhoundCommitmentKey,
        comm: &GreyhoundCommitment,
        r_old: &GreyhoundBlind<S>,
        r_new: &GreyhoundBlind<S>,
    ) -> (r: Result<GreyhoundCommitment, SpartanError>)
        ensures
            r matches Ok(c) && c.hash == comm.hash && c.len == comm.len && c.ctx_data@ == comm.ctx_data@,
    {
        Ok(comm.clone())
    }

    /// Combines commitments: the hash is the first 16 bytes of the Keccak-256
    /// digest of their transcript bytes in order, the length is the sum of
    /// their lengths. Fails on an empty list.
    pub fn combine_commitments(comms: &[GreyhoundCommitment]) -> (r: Result<GreyhoundCommitment, SpartanError>)
        requires
            sum_lens(comms@) <= usize::MAX,
        ensures
            comms@.len() == 0 <==> r is Err,
            r is Err ==> r == Err::<GreyhoundCommitment, SpartanError>(SpartanError::InvalidInputLength {
                reason: ErrorReason::NoCommitments,
            }),
            r matches Ok(c) ==> {
                &&& c.hash@ == keccak256(combine_message(comms@)).take(16)
                &&& c.len == sum_lens(comms@)
                &&& c.ctx_data@ == Seq::<u8>::empty()
            },
    {
        if comms.len() == 0 {
            return Err(SpartanError::InvalidInputLength { reason: ErrorReason::NoCommitments });
        }
        let mut message: Vec<u8> = Vec::new();
        let mut total_len: usize = 0;
        let mut i: usize = 0;
        assert(comms@.take(0) =~= Seq::<GreyhoundCommitment>::empty());
        while i < comms.len()
            invariant
                i <= comms@.len(),
                sum_lens(comms@) <= usize::MAX,
                message@ == combine_message(comms@.take(i as int)),
                total_len == sum_lens(comms@.take(i as int)),
            decreases comms@.len() - i,
        {
            let bytes = comms[i].to_transcript_bytes();
            push_all(&mut message, bytes.as_slice());
            assert(comms@.take(i + 1).drop_last() =~= comms@.take(i as int));
            proof {
                lemma_sum_lens_prefix(comms@, i + 1);
            }
            total_len = total_len + comms[i].len;
            i = i + 1;
        }
        assert(comms@.take(comms@.len() as int) =~= comms@);
        let d = keccak256_digest(message.as_slice());
        let hash: [u8; 16] = [
            d[0], d[1], d[2], d[3], d[4], d[5], d[6], d[7],
            d[8], d[9], d[10], d[11], d[12], d[13], d[14], d[15],
        ];
        assert(hash@ =~= d@.take(16));
        Ok(GreyhoundCommitment { hash, len: total_len, ctx_data: Vec::new() })
    }

    /// Combines blinds: their blinding values, one after another. Fails on an
    /// empty list.
    pub fn combine_blinds<S: Copy>(blinds: &[GreyhoundBlind<S>]) -> (r: Result<GreyhoundBlind<S>, SpartanError>)
        ensures
            blinds@.len() == 0 <==> r is Err,
            r is Err ==> r == Err::<GreyhoundBlind<S>, SpartanError>(SpartanError::InvalidInputLength {
                reason: ErrorReason::NoBlinds,
            }),
            r matches Ok(b) ==> b.blind@ == concat_blinds(blinds@),
    {
        if blinds.len() == 0 {
            return Err(SpartanError::InvalidInputLength { reason: ErrorReason::NoBlinds });
        }
        let mut comb: Vec<S> = Vec::new();
        let mut i: usize = 0;
        assert(blinds@.take(0) =~= Seq::<GreyhoundBlind<S>>::empty());
        while i < blinds.len()
            invariant
                i <= blinds@.len(),
                comb@ == concat_blinds(blinds@.take(i as int)),
            decreases blinds@.len() - i,
        {
            let b = &blinds[i].blind;
            let ghost before = comb@;
            let mut j: usize = 0;
            while j < b.len()
                invariant
                    j <= b@.len(),
                    b == &blinds@[i as int].blind,
                    comb@ == before + b@.take(j as int),
                decreases b@.len() - j,
            {
                comb.push(b[j]);
                j = j + 1;
                assert(comb@ =~= before + b@.take(j as int));
            }
            assert(b@.take(b@.len() as int) =~= b@);
            assert(blinds@.take(i + 1).drop_last() =~= blinds@.take(i as int));
            i = i + 1;
        }
        assert(blinds@.take(blinds@.len() as int) =~= blinds@);
        Ok(GreyhoundBlind { blind: comb })
    }
}


/// The outcome of checking a commitment against the length `n`.
pub open spec fn check_outcome(comm: GreyhoundCommitment, n: usize) -> Result<(), SpartanError> {
    if comm.len == n {
        Ok(())
    } else {
        Err(SpartanError::InvalidCommitmentLength {
            reason: ErrorReason::CommitmentLength { actual: comm.len, expected: n },
        })
    }
}

/// The evaluation point of a multilinear point (see `eval_point`).
fn eval_point_of(point: &[Vec<u8>]) -> (x: i64)
    ensures
        x == eval_point(point@),
{
    if point.len() == 0 {
        0
    } else {
        repr_to_coeff(point[0].as_slice())
    }
}

/// `2^k`.
fn pow2_usize(k: usize) -> (p: usize)
    requires
        pow2(k as nat) <= usize::MAX,
    ensures
        p == pow2(k as nat),
{
    let mut p: usize = 1;
    let mut i: usize = 0;
    proof {
        vstd::arithmetic::power2::lemma2_to64();
    }
    while i < k
        invariant
            i <= k,
            pow2(k as nat) <= usize::MAX,
            p == pow2(i as nat),
        decreases k - i,
    {
        proof {
            lemma_pow2_unfold((i + 1) as nat);
            if i + 1 < k {
                lemma_pow2_strictly_increases((i + 1) as nat, k as nat);
            }
        }
        p = p * 2;
        i = i + 1;
    }
    p
}

impl GreyhoundPCS {
    /// The first step of `prove`: checks that the polynomial has `2^point.len()`
    /// coefficients (the representations of its scalars), absorbs the
    /// commitment into the transcript under the label `poly_com`, and prepares
    /// the library's input: the evaluation point and the coefficients. On a
    /// length mismatch nothing is absorbed.
    pub fn prove_request<S, T: TranscriptEngineTrait>(
        ck: &GreyhoundCommitmentKey,
        ck_eval: &GreyhoundCommitmentKey,
        transcript: &mut T,
        comm: &GreyhoundCommitment,
        poly: &[Vec<u8>],
        blind: &GreyhoundBlind<S>,
        point: &[Vec<u8>],
        comm_eval: &GreyhoundCommitment,
        blind_eval: &GreyhoundBlind<S>,
    ) -> (r: Result<ProveRequest, SpartanError>)
        requires
            pow2(point@.len()) <= usize::MAX,
            poly@.len() == pow2(point@.len()) ==> poly@.len() * N <= usize::MAX,
        ensures
            poly@.len() != pow2(point@.len()) <==> r is Err,
            r is Err ==> {
                &&& r == Err::<ProveRequest, SpartanError>(SpartanError::InvalidInputLength {
                    reason: ErrorReason::PolyLength { expected: pow2(point@.len()) as usize, got: poly@.len() as usize },
                })
                &&& final(transcript).absorbed() == old(transcript).absorbed()
            },
            r matches Ok(req) ==> {
                &&& req.len == poly@.len()
                &&& req.x == eval_point(point@)
                &&& req.hash == comm.hash
                &&& req.coeffs@ == coeff_vector(poly@)
                &&& final(transcript).absorbed() == absorb_commitment(old(transcript).absorbed(), *comm)
            },
    {
        let n = poly.len();
        let expected = pow2_usize(point.len());
        if n != expected {
            return Err(SpartanError::InvalidInputLength {
                reason: ErrorReason::PolyLength { expected, got: n },
            });
        }
        let label = poly_com_label();
        let bytes = comm.to_transcript_bytes();
        transcript.absorb(label.as_slice(), bytes.as_slice());
        let x = eval_point_of(point);
        let coeffs = scalars_to_int64_vec(poly);
        Ok(ProveRequest { len: n, x, hash: comm.hash, coeffs })
    }

    /// The second step of `prove`: the library evaluated the polynomial to
    /// `y`, filled the proof (`proof`, its plain fields) and the witness (with
    /// `witness_r` parts), and answered `reduce_code` when reducing the proof
    /// to a statement. A nonzero code is a failure. The argument keeps the
    /// serialised proof and witness.
    pub fn prove_response(
        req: &ProveRequest,
        y: i64,
        reduce_code: i32,
        proof: &EvalProofFields,
        witness_r: usize,
    ) -> (r: Result<GreyhoundEvaluationArgument, SpartanError>)
        ensures
            reduce_code != 0 <==> r is Err,
            r is Err ==> r == Err::<GreyhoundEvaluationArgument, SpartanError>(SpartanError::InvalidInputLength {
                reason: ErrorReason::ReduceFailed { code: reduce_code },
            }),
            r matches Ok(arg) ==> {
                &&& arg.len == req.len
                &&& arg.x == req.x
                &&& arg.y == y
                &&& arg.proof_data@ == proof_bytes(*proof)
                &&& arg.statement_data@ == Seq::<u8>::empty()
                &&& arg.witness_data@ == witness_bytes(witness_r)
            },
    {
        if reduce_code != 0 {
            return Err(SpartanError::InvalidInputLength {
                reason: ErrorReason::ReduceFailed { code: reduce_code },
            });
        }
        let proof_data = bincode_proof(proof);
        let witness_data = bincode_witness(witness_r);
        Ok(GreyhoundEvaluationArgument {
            proof_data,
            statement_data: Vec::new(),
            witness_data,
            len: req.len,
            x: req.x,
            y,
        })
    }

    /// Reads back the proof and witness fields stored in an argument, and the
    /// lengths of the witness's parts, for the library's check of the proof.
    pub fn verification_inputs(arg: &GreyhoundEvaluationArgument) -> (r: Option<VerificationInputs>)
        ensures
            decoded_inputs(*arg) is None <==> r is None,
            decoded_inputs(*arg) matches Some((p, w)) ==> r matches Some(inp) && inp.proof == p && inp.witness_r == w
                && inp.witness_parts@ == witness_part_lengths(p, w),
    {
        let proof = match bincode_decode_proof(arg.proof_data.as_slice()) {
            Some(p) => p,
            None => return None,
        };
        let witness_r = match bincode_decode_witness(arg.witness_data.as_slice()) {
            Some(w) => w,
            None => return None,
        };
        let mut parts: Vec<usize> = Vec::new();
        let mut i: usize = 0;
        while i < witness_r
            invariant
                i <= witness_r,
                parts@ =~= Seq::new(i as nat, |_j: int| proof.len),
            decreases witness_r - i,
        {
            parts.push(proof.len);
            i = i + 1;
        }
        Some(VerificationInputs { proof, witness_r, witness_parts: parts })
    }

    /// Verifies an evaluation argument: absorbs the commitment into the
    /// transcript under the label `poly_com`; rejects an argument for another
    /// length than the verifier key's, and one whose proof and witness cannot
    /// be read back; hands what was read to `check`, the library's check of
    /// the statement and witness reconstructed from them (`principle_verify`),
    /// and rejects when it answers nonzero; finally accepts when the argument
    /// is for the evaluation point of `point`.
    pub fn verify<T: TranscriptEngineTrait, F: Fn(VerificationInputs) -> i32>(
        vk: &GreyhoundVerifierKey,
        ck_eval: &GreyhoundCommitmentKey,
        transcript: &mut T,
        comm: &GreyhoundCommitment,
        point: &[Vec<u8>],
        comm_eval: &GreyhoundCommitment,
        arg: &GreyhoundEvaluationArgument,
        check: F,
    ) -> (r: Result<(), SpartanError>)
        requires
            forall|inp: VerificationInputs| call_requires(check, (inp,)),
        ensures
            final(transcript).absorbed() == absorb_commitment(old(transcript).absorbed(), *comm),
            arg.len != vk.len ==> r == Err::<(), SpartanError>(SpartanError::InvalidInputLength {
                reason: ErrorReason::ProofLength { proof: arg.len, expected: vk.len },
            }),
            arg.len == vk.len && decoded_inputs(*arg) is None ==> r == Err::<(), SpartanError>(
                SpartanError::ProofVerifyError { reason: ErrorReason::MalformedProof },
            ),
            arg.len == vk.len ==> (decoded_inputs(*arg) matches Some((p, w)) ==> exists|inp: VerificationInputs, v: i32|
                #![trigger call_ensures(check, (inp,), v)]
                call_ensures(check, (inp,), v) && inp.proof == p && inp.witness_r == w
                    && inp.witness_parts@ == witness_part_lengths(p, w) && r == checked_outcome(point@, *arg, p, v)),
            r is Ok ==> (decoded_inputs(*arg) matches Some((p, w)) && p.x == arg.x && p.x == eval_point(point@)
                && p.y == arg.y),
    {
        let label = poly_com_label();
        let bytes = comm.to_transcript_bytes();
        transcript.absorb(label.as_slice(), bytes.as_slice());
        if arg.len != vk.len {
            return Err(SpartanError::InvalidInputLength {
                reason: ErrorReason::ProofLength { proof: arg.len, expected: vk.len },
            });
        }
        let inputs = match Self::verification_inputs(arg) {
            Some(inp) => inp,
            None => return Err(SpartanError::ProofVerifyError { reason: ErrorReason::MalformedProof }),
        };
        let ghost given = inputs;
        let p = inputs.proof;
        let verdict = check(inputs);
        if verdict != 0 {
            let r = Err(SpartanError::ProofVerifyError { reason: ErrorReason::ProofRejected { code: verdict } });
            assert(call_ensures(check, (given,), verdict) && r == checked_outcome(point@, *arg, p, verdict));
            return r;
        }
        let x = eval_point_of(point);
        if p.x != x || p.x != arg.x {
            let r = Err(SpartanError::InvalidInputLength { reason: ErrorReason::EvaluationPointMismatch });
            assert(call_ensures(check, (given,), verdict) && r == checked_outcome(point@, *arg, p, verdict));
            return r;
        }
        if p.y != arg.y {
            let r = Err(SpartanError::ProofVerifyError { reason: ErrorReason::EvaluationValueMismatch });
            assert(call_ensures(check, (given,), verdict) && r == checked_outcome(point@, *arg, p, verdict));
            return r;
        }
        assert(call_ensures(check, (given,), verdict) && Ok::<(), SpartanError>(()) == checked_outcome(point@, *arg, p, verdict));
        Ok(())
    }
}

/// Completeness: an evaluation argument produced by `prove` (request and
/// response, with proof fields `p` for the request's point and the claimed
/// value, and witness parts `w`) for a polynomial of the verifier key's
/// length, at a point, is read back by `verify` as exactly `p` and `w`, and is
/// accepted at that point when the library's check of the proof holds.
pub proof fn lemma_prove_then_verify(
    vk: GreyhoundVerifierKey,
    point: Seq<Vec<u8>>,
    req: ProveRequest,
    y: i64,
    p: EvalProofFields,
    w: usize,
    arg: GreyhoundEvaluationArgument,
)
    requires
        req.len == vk.len,
        req.x == eval_point(point),
        p.x == req.x,
        p.y == y,
        arg.len == req.len,
        arg.x == req.x,
        arg.y == y,
        arg.proof_data@ == proof_bytes(p),
        arg.witness_data@ == witness_bytes(w),
    ensures
        arg.len == vk.len,
        decoded_inputs(arg) == Some((p, w)),
        checked_outcome(point, arg, p, 0) == Ok::<(), SpartanError>(()),
{
    crate::serial::lemma_decode_encoded(p, w);
}

/// Prover and verifier stay in step: when the transcripts they start from are
/// equal, the transcript after `prove_request` succeeds on a commitment and
/// the transcript after `verify` on the same commitment are equal, whatever
/// `verify` answers.
pub proof fn lemma_transcripts_in_step(
    comm: GreyhoundCommitment,
    prover_before: Seq<u8>,
    prover_after: Seq<u8>,
    verifier_before: Seq<u8>,
    verifier_after: Seq<u8>,
)
    requires
        prover_before == verifier_before,
        prover_after == absorb_commitment(prover_before, comm),
        verifier_after == absorb_commitment(verifier_before, comm),
    ensures
        prover_after == verifier_after,
        prover_after.len() == prover_before.len() + 8 + 16 + usize_width(),
{
    crate::serial::lemma_le_bytes_len(comm.len as nat, usize_width());
}

/// An argument is rejected when the library rejects its proof, when the
/// checked proof is for another point than the argument or than `point`, or
/// when it claims another value than the argument.
pub proof fn lemma_verify_rejects(
    point: Seq<Vec<u8>>,
    arg: GreyhoundEvaluationArgument,
    p: EvalProofFields,
    verdict: i32,
)
    requires
        verdict != 0 || p.x != eval_point(point) || p.x != arg.x || p.y != arg.y,
    ensures
        checked_outcome(point, arg, p, verdict) is Err,
{
}

/// A commitment produced by `commit` (request and response) with a key for
/// `n` scalars passes `check_commitment` for `n`, and fails it for any other
/// length.
pub proof fn lemma_commit_then_check(ck: GreyhoundCommitmentKey, req: CommitRequest, comm: GreyhoundCommitment, m: usize)
    requires
        req.len == ck.len,
        comm.len == req.len,
    ensures
        check_outcome(comm, ck.len) == Ok::<(), SpartanError>(()),
        m != ck.len ==> check_outcome(comm, m) is Err,
{
}

/// Combining is length-additive: the length that combining two lists one
/// after the other gives is the sum of the lengths that combining each gives.
pub proof fn lemma_sum_lens_concat(a: Seq<GreyhoundCommitment>, b: Seq<GreyhoundCommitment>)
    ensures
        sum_lens(a + b) == sum_lens(a) + sum_lens(b),
    decreases b.len(),
{
    if b.len() == 0 {
        assert(a + b =~= a);
    } else {
        assert((a + b).drop_last() =~= a + b.drop_last());
        lemma_sum_lens_concat(a, b.drop_last());
    }
}

/// Combining hashes the commitments' transcript bytes in order: the message
/// for two lists one after the other is the first list's message, then the
/// second's.
pub proof fn lemma_combine_message_concat(a: Seq<GreyhoundCommitment>, b: Seq<GreyhoundCommitment>)
    ensures
        combine_message(a + b) == combine_message(a) + combine_message(b),
    decreases b.len(),
{
    if b.len() == 0 {
        assert(a + b =~= a);
        assert(combine_message(a) + combine_message(b) =~= combine_message(a));
    } else {
        assert((a + b).drop_last() =~= a + b.drop_last());
        lemma_combine_message_concat(a, b.drop_last());
        assert(combine_message(a + b) =~= combine_message(a) + combine_message(b));
    }
}

/// A commitment's transcript bytes are its sixteen hash bytes in stored
/// order, followed by the base-256 digits of its length, least significant
/// first, as many as a `usize` has bytes; reading those digits back gives the
/// length.
pub proof fn lemma_transcript_bytes_layout(c: GreyhoundCommitment)
    ensures
        transcript_repr(c).len() == 16 + usize_width(),
        forall|k: int| 0 <= k < 16 ==> #[trigger] transcript_repr(c)[k] == c.hash@[k],
        forall|j: nat| j < usize_width() ==> #[trigger] transcript_repr(c)[16 + j as int] == ((c.len as nat / pow256(j)) % 256) as u8,
        le_value(transcript_repr(c).subrange(16, 16 + usize_width() as int)) == c.len,
{
    let t = transcript_repr(c);
    let w = usize_width();
    crate::serial::lemma_le_bytes_len(c.len as nat, w);
    assert forall|j: nat| j < w implies #[trigger] t[16 + j as int] == ((c.len as nat / pow256(j)) % 256) as u8 by {
        crate::serial::lemma_le_bytes_index(c.len as nat, w, j);
    }
    assert(t.subrange(16, 16 + w as int) =~= le_bytes(c.len as nat, w));
    assert(usize::BITS == 32 || usize::BITS == 64);
    reveal_with_fuel(pow256, 9);
    if usize::BITS == 32 {
        assert(c.len < 0x1_0000_0000);
    } else {
        assert(c.len < 0x1_0000_0000_0000_0000);
    }
    crate::serial::lemma_le_value_le_bytes(c.len as nat, w);
}

proof fn lemma_combine_message_single(c: GreyhoundCommitment)
    ensures
        combine_message(seq![c]) == transcript_repr(c),
{
    let s = seq![c];
    assert(s.drop_last() =~= Seq::<GreyhoundCommitment>::empty());
    assert(s.last() == c);
    assert(combine_message(s.drop_last()) == Seq::<u8>::empty());
    assert(Seq::<u8>::empty() + transcript_repr(c) =~= transcript_repr(c));
}

proof fn lemma_sum_lens_single(c: GreyhoundCommitment)
    ensures
        sum_lens(seq![c]) == c.len,
{
    let s = seq![c];
    assert(s.drop_last() =~= Seq::<GreyhoundCommitment>::empty());
    assert(s.last() == c);
    assert(sum_lens(s.drop_last()) == 0);
}

proof fn lemma_concat_blinds_single<S>(b: GreyhoundBlind<S>)
    ensures
        concat_blinds(seq![b]) == b.blind@,
{
    let s = seq![b];
    assert(s.drop_last() =~= Seq::<GreyhoundBlind<S>>::empty());
    assert(s.last() == b);
    assert(concat_blinds(s.drop_last()) == Seq::<S>::empty());
    assert(Seq::<S>::empty() + b.blind@ =~= b.blind@);
}

/// The message hashed to combine commitments holds each commitment's
/// transcript bytes (its hash bytes in order, then its length) in the
/// commitments' order: what comes before commitment `i` is the message of
/// the commitments before it, what comes after is that of the ones after.
pub proof fn lemma_combine_message_split(comms: Seq<GreyhoundCommitment>, i: int)
    requires
        0 <= i < comms.len(),
    ensures
        combine_message(comms) == combine_message(comms.take(i)) + transcript_repr(comms[i])
            + combine_message(comms.skip(i + 1)),
        combine_message(seq![comms[i]]) == comms[i].hash@ + le_bytes(comms[i].len as nat, usize_width()),
{
    let parts = comms.take(i) + seq![comms[i]] + comms.skip(i + 1);
    assert(comms =~= parts);
    lemma_combine_message_concat(comms.take(i) + seq![comms[i]], comms.skip(i + 1));
    lemma_combine_message_concat(comms.take(i), seq![comms[i]]);
    lemma_combine_message_single(comms[i]);
    lemma_transcript_bytes_layout(comms[i]);
    let t = transcript_repr(comms[i]);
    let e = comms[i].hash@ + le_bytes(comms[i].len as nat, usize_width());
    crate::serial::lemma_le_bytes_len(comms[i].len as nat, usize_width());
    assert forall|k: int| 0 <= k < t.len() implies t[k] == e[k] by {
        if k >= 16 {
            crate::serial::lemma_le_bytes_index(comms[i].len as nat, usize_width(), (k - 16) as nat);
            assert(t[k] == ((comms[i].len as nat / pow256((k - 16) as nat)) % 256) as u8);
        }
    }
    assert(t =~= e);
}

/// The combined length counts every commitment's full length once: the
/// lengths before commitment `i`, plus its length, plus the lengths after;
/// a single commitment combines to its own length.
pub proof fn lemma_sum_lens_split(comms: Seq<GreyhoundCommitment>, i: int)
    requires
        0 <= i < comms.len(),
    ensures
        sum_lens(comms) == sum_lens(comms.take(i)) + comms[i].len + sum_lens(comms.skip(i + 1)),
        sum_lens(seq![comms[i]]) == comms[i].len,
        comms[i].len <= sum_lens(comms),
{
    let parts = comms.take(i) + seq![comms[i]] + comms.skip(i + 1);
    assert(comms =~= parts);
    lemma_sum_lens_concat(comms.take(i) + seq![comms[i]], comms.skip(i + 1));
    lemma_sum_lens_concat(comms.take(i), seq![comms[i]]);
    lemma_sum_lens_single(comms[i]);
}

proof fn lemma_concat_blinds_concat<S>(a: Seq<GreyhoundBlind<S>>, b: Seq<GreyhoundBlind<S>>)
    ensures
        concat_blinds(a + b) == concat_blinds(a) + concat_blinds(b),
    decreases b.len(),
{
    if b.len() == 0 {
        assert(a + b =~= a);
        assert(concat_blinds(a) + concat_blinds(b) =~= concat_blinds(a));
    } else {
        assert((a + b).drop_last() =~= a + b.drop_last());
        lemma_concat_blinds_concat(a, b.drop_last());
        assert(concat_blinds(a + b) =~= concat_blinds(a) + concat_blinds(b));
    }
}

/// Combining blinds keeps every blind's values, in order and in full: the
/// values of blind `i` come right after those of the blinds before it and
/// right before those of the blinds after it; a single blind combines to its
/// own values.
pub proof fn lemma_concat_blinds_split<S>(blinds: Seq<GreyhoundBlind<S>>, i: int)
    requires
        0 <= i < blinds.len(),
    ensures
        concat_blinds(blinds) == concat_blinds(blinds.take(i)) + blinds[i].blind@
            + concat_blinds(blinds.skip(i + 1)),
        concat_blinds(seq![blinds[i]]) == blinds[i].blind@,
        concat_blinds(blinds).len() == concat_blinds(blinds.take(i)).len() + blinds[i].blind@.len()
            + concat_blinds(blinds.skip(i + 1)).len(),
{
    let parts = blinds.take(i) + seq![blinds[i]] + blinds.skip(i + 1);
    assert(blinds =~= parts);
    lemma_concat_blinds_concat(blinds.take(i) + seq![blinds[i]], blinds.skip(i + 1));
    lemma_concat_blinds_concat(blinds.take(i), seq![blinds[i]]);
    lemma_concat_blinds_single(blinds[i]);
}

/// The evaluation point of a non-empty point is its first coordinate's whole
/// low 64-bit word, as a signed little-endian integer, reduced modulo `q`:
/// when the first eight bytes are those of `v`, it is `v mod q` for `v`
/// below `2^63` and `(v - 2^64) mod q` above; it always lies in `[0, q)`.
pub proof fn lemma_eval_point_word(point: Seq<Vec<u8>>, v: nat)
    requires
        point.len() > 0,
        point[0]@.len() >= 8,
        v < 0x1_0000_0000_0000_0000,
        point[0]@.take(8) == le_bytes(v, 8),
    ensures
        v < 0x8000_0000_0000_0000 ==> eval_point(point) == (v as int) % (MODULUS as int),
        v >= 0x8000_0000_0000_0000 ==> eval_point(point) == (v - 0x1_0000_0000_0000_0000) % (MODULUS as int),
        0 <= eval_point(point) < MODULUS,
{
    reveal_with_fuel(pow256, 9);
    crate::serial::lemma_le_value_le_bytes(v, 8);
    assert(low_word(point[0]@) == point[0]@.take(8));
}

} // verus!
