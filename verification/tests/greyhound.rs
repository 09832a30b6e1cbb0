use sha3::Digest;
use spartan_pq::encoding::scalars_to_int64_vec;
use spartan_pq::errors::{ErrorReason, SpartanError};
use spartan_pq::greyhound_pc::{
    CommitContext, EvalProofFields, GreyhoundBlind, GreyhoundCommitment, GreyhoundCommitmentKey,
    GreyhoundEvaluationArgument, GreyhoundPCS, VerificationInputs,
};
use spartan_pq::transcript::{ByteTranscript, TranscriptEngineTrait};

fn repr(v: u8) -> Vec<u8> {
    let mut r = vec![0u8; 32];
    r[0] = v;
    r
}

fn commitment(hash_byte: u8, len: usize) -> GreyhoundCommitment {
    GreyhoundCommitment { hash: [hash_byte; 16], len, ctx_data: Vec::new() }
}

fn context(h: u8) -> CommitContext {
    CommitContext { len: 1, m: 2, n: 3, h: [h; 16], normsq: 77 }
}

fn proof_fields(x: i64, y: i64) -> EvalProofFields {
    EvalProofFields { len: 4, m: 5, n: 6, x, y, normsq: 9 }
}

fn empty_blind() -> GreyhoundBlind<u64> {
    GreyhoundBlind { blind: Vec::new() }
}

#[test]
fn setup_keys_have_the_length() {
    let (ck, vk) = GreyhoundPCS::setup(&[1u8, 2], 8, 3);
    assert_eq!(ck.len, 8);
    assert_eq!(vk.len, 8);
}

#[test]
fn blind_draws_n_values() {
    let (ck, _) = GreyhoundPCS::setup(&[], 4, 1);
    let b = GreyhoundPCS::blind(&ck, 5, || 7u64);
    assert_eq!(b.blind, vec![7u64; 5]);
    let none = GreyhoundPCS::blind(&ck, 0, || 7u64);
    assert!(none.blind.is_empty());
}

#[test]
fn commit_rejects_wrong_length() {
    let ck = GreyhoundCommitmentKey { len: 3 };
    let r = GreyhoundPCS::commit_request(&ck, &[repr(1), repr(2)]);
    assert!(matches!(
        r,
        Err(SpartanError::InvalidInputLength { reason: ErrorReason::CommitLength { expected: 3, got: 2 } })
    ));
}

#[test]
fn commit_request_prepares_library_input() {
    let ck = GreyhoundCommitmentKey { len: 2 };
    let v = [repr(1), repr(2)];
    let req = GreyhoundPCS::commit_request(&ck, &v).ok().unwrap();
    assert_eq!(req.len, 2);
    assert_eq!(req.comkey_size, 128);
    assert_eq!(req.coeffs, scalars_to_int64_vec(&v));
}

#[test]
fn commit_response_builds_commitment_or_fails() {
    let ck = GreyhoundCommitmentKey { len: 1 };
    let req = GreyhoundPCS::commit_request(&ck, &[repr(9)]).ok().unwrap();
    let ctx = context(5);
    let c = GreyhoundPCS::commit_response(&req, 0, &ctx).ok().unwrap();
    assert_eq!(c.hash, [5u8; 16]);
    assert_eq!(c.len, 1);
    let expected = bincode::serialize(&(ctx.len, ctx.m, ctx.n, ctx.h, ctx.normsq)).unwrap();
    assert_eq!(c.ctx_data, expected);
    let mut by_hand = Vec::new();
    by_hand.extend_from_slice(&1u64.to_le_bytes());
    by_hand.extend_from_slice(&2u64.to_le_bytes());
    by_hand.extend_from_slice(&3u64.to_le_bytes());
    by_hand.extend_from_slice(&[5u8; 16]);
    by_hand.extend_from_slice(&77u64.to_le_bytes());
    assert_eq!(c.ctx_data, by_hand);
    let e = GreyhoundPCS::commit_response(&req, -3, &ctx);
    assert!(matches!(
        e,
        Err(SpartanError::InvalidCommitmentLength { reason: ErrorReason::CommitFailed { code: -3 } })
    ));
}

#[test]
fn committed_vector_passes_check() {
    let ck = GreyhoundCommitmentKey { len: 2 };
    let req = GreyhoundPCS::commit_request(&ck, &[repr(1), repr(2)]).ok().unwrap();
    let c = GreyhoundPCS::commit_response(&req, 0, &context(1)).ok().unwrap();
    assert!(GreyhoundPCS::check_commitment(&c, 2, 1).is_ok());
    assert!(GreyhoundPCS::check_commitment(&c, 2, 99).is_ok());
    assert!(GreyhoundPCS::check_commitment(&c, 3, 1).is_err());
}

#[test]
fn check_commitment_reports_lengths() {
    let c = commitment(0, 4);
    assert!(GreyhoundPCS::check_commitment(&c, 4, 0).is_ok());
    assert!(matches!(
        GreyhoundPCS::check_commitment(&c, 5, 0),
        Err(SpartanError::InvalidCommitmentLength {
            reason: ErrorReason::CommitmentLength { actual: 4, expected: 5 }
        })
    ));
}

#[test]
fn rerandomize_keeps_commitment() {
    let ck = GreyhoundCommitmentKey { len: 1 };
    let c = GreyhoundCommitment { hash: [3u8; 16], len: 9, ctx_data: vec![1, 2, 3] };
    let r = GreyhoundPCS::rerandomize_commitment(&ck, &c, &empty_blind(), &empty_blind()).ok().unwrap();
    assert_eq!(r, c);
}

#[test]
fn transcript_bytes_are_hash_then_length() {
    let c = commitment(0xab, 0x0102);
    let b = c.to_transcript_bytes();
    let mut expected = vec![0xabu8; 16];
    expected.extend_from_slice(&0x0102usize.to_le_bytes());
    assert_eq!(b, expected);
    assert_eq!(b.len(), 16 + std::mem::size_of::<usize>());
}

#[test]
fn combine_commitments_hashes_in_order() {
    let a = commitment(1, 2);
    let b = commitment(2, 5);
    let c = GreyhoundPCS::combine_commitments(&[a.clone(), b.clone()]).ok().unwrap();
    let mut h = sha3::Keccak256::new();
    h.update(a.hash);
    h.update(2usize.to_le_bytes());
    h.update(b.hash);
    h.update(5usize.to_le_bytes());
    let d = h.finalize();
    assert_eq!(&c.hash[..], &d[..16]);
    assert_eq!(c.len, 7);
    assert!(c.ctx_data.is_empty());
    let swapped = GreyhoundPCS::combine_commitments(&[b, a]).ok().unwrap();
    assert_ne!(swapped.hash, c.hash);
}

#[test]
fn combine_single_commitment_keeps_length() {
    let a = commitment(4, 11);
    let c = GreyhoundPCS::combine_commitments(&[a.clone()]).ok().unwrap();
    let d = sha3::Keccak256::digest(a.to_transcript_bytes());
    assert_eq!(&c.hash[..], &d[..16]);
    assert_eq!(c.len, 11);
}

#[test]
fn combine_commitments_rejects_empty() {
    assert!(matches!(
        GreyhoundPCS::combine_commitments(&[]),
        Err(SpartanError::InvalidInputLength { reason: ErrorReason::NoCommitments })
    ));
}

#[test]
fn combine_blinds_concatenates() {
    let a = GreyhoundBlind { blind: vec![1u64, 2] };
    let b = GreyhoundBlind { blind: vec![] };
    let c = GreyhoundBlind { blind: vec![3u64] };
    let r = GreyhoundPCS::combine_blinds(&[a, b, c]).ok().unwrap();
    assert_eq!(r.blind, vec![1u64, 2, 3]);
    assert!(matches!(
        GreyhoundPCS::combine_blinds::<u64>(&[]),
        Err(SpartanError::InvalidInputLength { reason: ErrorReason::NoBlinds })
    ));
}

const LABEL: [u8; 8] = *b"poly_com";

#[test]
fn prove_rejects_wrong_length_without_absorbing() {
    let (ck, _) = GreyhoundPCS::setup(&[], 4, 1);
    let mut t = ByteTranscript::new();
    let comm = commitment(1, 4);
    let poly = vec![repr(1), repr(2), repr(3)];
    let point = vec![repr(5), repr(6)];
    let r = GreyhoundPCS::prove_request(
        &ck, &ck, &mut t, &comm, &poly, &empty_blind(), &point, &comm, &empty_blind(),
    );
    assert!(matches!(
        r,
        Err(SpartanError::InvalidInputLength { reason: ErrorReason::PolyLength { expected: 4, got: 3 } })
    ));
    assert!(t.as_bytes().is_empty());
}

#[test]
fn prove_request_absorbs_and_prepares() {
    let (ck, _) = GreyhoundPCS::setup(&[], 4, 1);
    let mut t = ByteTranscript::new();
    let comm = commitment(1, 4);
    let poly = vec![repr(1), repr(2), repr(3), repr(4)];
    let point = vec![repr(5), repr(6)];
    let req = GreyhoundPCS::prove_request(
        &ck, &ck, &mut t, &comm, &poly, &empty_blind(), &point, &comm, &empty_blind(),
    )
    .ok()
    .unwrap();
    assert_eq!(req.len, 4);
    assert_eq!(req.x, 5);
    assert_eq!(req.hash, comm.hash);
    assert_eq!(req.coeffs, scalars_to_int64_vec(&poly));
    let mut expected = LABEL.to_vec();
    expected.extend_from_slice(&comm.to_transcript_bytes());
    assert_eq!(t.as_bytes(), &expected[..]);
}

#[test]
fn prove_with_empty_point_uses_zero() {
    let (ck, _) = GreyhoundPCS::setup(&[], 1, 1);
    let mut t = ByteTranscript::new();
    let comm = commitment(1, 1);
    let req = GreyhoundPCS::prove_request(
        &ck, &ck, &mut t, &comm, &[repr(8)], &empty_blind(), &[], &comm, &empty_blind(),
    )
    .ok()
    .unwrap();
    assert_eq!(req.x, 0);
    assert_eq!(req.len, 1);
}

#[test]
fn prove_response_builds_argument_or_fails() {
    let (ck, _) = GreyhoundPCS::setup(&[], 2, 1);
    let mut t = ByteTranscript::new();
    let comm = commitment(1, 2);
    let req = GreyhoundPCS::prove_request(
        &ck, &ck, &mut t, &comm, &[repr(1), repr(2)], &empty_blind(), &[repr(3)], &comm, &empty_blind(),
    )
    .ok()
    .unwrap();
    let p = proof_fields(3, -77);
    let arg = GreyhoundPCS::prove_response(&req, 77, 0, &p, 11).ok().unwrap();
    assert_eq!(arg.len, 2);
    assert_eq!(arg.x, 3);
    assert_eq!(arg.y, 77);
    assert_eq!(arg.proof_data, bincode::serialize(&(p.len, p.m, p.n, p.x, p.y, p.normsq)).unwrap());
    assert_eq!(&arg.proof_data[24..32], &3i64.to_le_bytes());
    assert_eq!(&arg.proof_data[32..40], &(-77i64).to_le_bytes());
    assert_eq!(arg.proof_data.len(), 48);
    assert!(arg.statement_data.is_empty());
    assert_eq!(arg.witness_data, 11u64.to_le_bytes().to_vec());
    assert!(matches!(
        GreyhoundPCS::prove_response(&req, 77, 2, &p, 11),
        Err(SpartanError::InvalidInputLength { reason: ErrorReason::ReduceFailed { code: 2 } })
    ));
}

#[test]
fn proof_from_prove_verifies() {
    let (ck, vk) = GreyhoundPCS::setup(&[], 4, 1);
    let comm = commitment(9, 4);
    let poly = vec![repr(1), repr(2), repr(3), repr(4)];
    let point = vec![repr(200), repr(6)];
    let mut tp = ByteTranscript::new();
    let req = GreyhoundPCS::prove_request(
        &ck, &ck, &mut tp, &comm, &poly, &empty_blind(), &point, &comm, &empty_blind(),
    )
    .ok()
    .unwrap();
    let fields = proof_fields(req.x, 10);
    let arg = GreyhoundPCS::prove_response(&req, 10, 0, &fields, 2).ok().unwrap();
    let mut tv = ByteTranscript::new();
    let check = |inp: VerificationInputs| {
        if inp.proof == fields && inp.witness_r == 2 && inp.witness_parts == vec![4usize, 4] {
            0
        } else {
            7
        }
    };
    assert!(GreyhoundPCS::verify(&vk, &ck, &mut tv, &comm, &point, &comm, &arg, check).is_ok());
    assert_eq!(tp.as_bytes(), tv.as_bytes());
}

#[test]
fn argument_must_match_its_stored_proof() {
    let (ck, vk) = GreyhoundPCS::setup(&[], 1, 1);
    let comm = commitment(9, 1);
    let arg = GreyhoundEvaluationArgument {
        proof_data: bincode::serialize(&(1usize, 0usize, 0usize, 5i64, 7i64, 0u64)).unwrap(),
        statement_data: vec![],
        witness_data: bincode::serialize(&(1usize,)).unwrap(),
        len: 1,
        x: 0,
        y: 99,
    };
    let mut t = ByteTranscript::new();
    assert!(GreyhoundPCS::verify(&vk, &ck, &mut t, &comm, &[], &comm, &arg, |_inp: VerificationInputs| 0).is_err());
    let honest = GreyhoundEvaluationArgument { x: 5, y: 7, ..arg.clone() };
    let mut t = ByteTranscript::new();
    assert!(matches!(
        GreyhoundPCS::verify(&vk, &ck, &mut t, &comm, &[], &comm, &honest, |_inp: VerificationInputs| 0),
        Err(SpartanError::InvalidInputLength { reason: ErrorReason::EvaluationPointMismatch })
    ));
    let mut t = ByteTranscript::new();
    assert!(GreyhoundPCS::verify(&vk, &ck, &mut t, &comm, &[repr(5)], &comm, &honest, |_inp: VerificationInputs| 0).is_ok());
}

#[test]
fn stored_proof_reads_back() {
    let fields = EvalProofFields { len: 8, m: 1, n: 2, x: -3, y: i64::MIN, normsq: u64::MAX };
    let req_arg = GreyhoundEvaluationArgument {
        proof_data: bincode::serialize(&(8usize, 1usize, 2usize, -3i64, i64::MIN, u64::MAX)).unwrap(),
        statement_data: vec![],
        witness_data: bincode::serialize(&(3usize,)).unwrap(),
        len: 8,
        x: 0,
        y: 0,
    };
    let inp = GreyhoundPCS::verification_inputs(&req_arg).unwrap();
    assert_eq!(inp.proof, fields);
    assert_eq!(inp.witness_r, 3);
    assert_eq!(inp.witness_parts, vec![8usize, 8, 8]);
    let mut longer = req_arg.clone();
    longer.proof_data.extend_from_slice(&[1, 2, 3]);
    assert_eq!(GreyhoundPCS::verification_inputs(&longer).unwrap().proof, fields);
    let mut short = req_arg.clone();
    short.proof_data.truncate(47);
    assert!(GreyhoundPCS::verification_inputs(&short).is_none());
    let mut no_witness = req_arg.clone();
    no_witness.witness_data = vec![1, 2, 3];
    assert!(GreyhoundPCS::verification_inputs(&no_witness).is_none());
}

#[test]
fn verify_rejects_length_and_point_mismatch() {
    let (ck, vk) = GreyhoundPCS::setup(&[], 4, 1);
    let comm = commitment(9, 4);
    let arg = GreyhoundEvaluationArgument {
        proof_data: bincode::serialize(&(4usize, 0usize, 0usize, 5i64, 0i64, 0u64)).unwrap(),
        statement_data: vec![],
        witness_data: bincode::serialize(&(1usize,)).unwrap(),
        len: 3,
        x: 5,
        y: 0,
    };
    let accept = |_inp: VerificationInputs| 0;
    let mut t = ByteTranscript::new();
    assert!(matches!(
        GreyhoundPCS::verify(&vk, &ck, &mut t, &comm, &[repr(5)], &comm, &arg, accept),
        Err(SpartanError::InvalidInputLength { reason: ErrorReason::ProofLength { proof: 3, expected: 4 } })
    ));
    let mut expected = LABEL.to_vec();
    expected.extend_from_slice(&comm.to_transcript_bytes());
    assert_eq!(t.as_bytes(), &expected[..]);
    let arg = GreyhoundEvaluationArgument { len: 4, ..arg };
    let mut t = ByteTranscript::new();
    assert!(matches!(
        GreyhoundPCS::verify(&vk, &ck, &mut t, &comm, &[repr(6)], &comm, &arg, accept),
        Err(SpartanError::InvalidInputLength { reason: ErrorReason::EvaluationPointMismatch })
    ));
    assert!(GreyhoundPCS::verify(&vk, &ck, &mut t, &comm, &[repr(5)], &comm, &arg, accept).is_ok());
    let mut t = ByteTranscript::new();
    assert!(matches!(
        GreyhoundPCS::verify(&vk, &ck, &mut t, &comm, &[repr(6)], &comm, &arg, |_inp: VerificationInputs| -1),
        Err(SpartanError::ProofVerifyError { reason: ErrorReason::ProofRejected { code: -1 } })
    ));
    assert_eq!(t.as_bytes(), &expected[..]);
    let other_x = GreyhoundEvaluationArgument { x: 6, ..arg.clone() };
    let mut t = ByteTranscript::new();
    assert!(matches!(
        GreyhoundPCS::verify(&vk, &ck, &mut t, &comm, &[repr(6)], &comm, &other_x, accept),
        Err(SpartanError::InvalidInputLength { reason: ErrorReason::EvaluationPointMismatch })
    ));
    let other_y = GreyhoundEvaluationArgument { y: 99, ..arg.clone() };
    let mut t = ByteTranscript::new();
    assert!(matches!(
        GreyhoundPCS::verify(&vk, &ck, &mut t, &comm, &[repr(5)], &comm, &other_y, accept),
        Err(SpartanError::ProofVerifyError { reason: ErrorReason::EvaluationValueMismatch })
    ));
    let broken = GreyhoundEvaluationArgument { proof_data: vec![1, 2, 3], ..arg.clone() };
    let mut t = ByteTranscript::new();
    assert!(matches!(
        GreyhoundPCS::verify(&vk, &ck, &mut t, &comm, &[repr(5)], &comm, &broken, accept),
        Err(SpartanError::ProofVerifyError { reason: ErrorReason::MalformedProof })
    ));
    assert_eq!(t.as_bytes(), &expected[..]);
}

#[test]
fn byte_transcript_appends_label_then_message() {
    let mut t = ByteTranscript::new();
    t.absorb(&[1, 2], &[3]);
    t.absorb(&[], &[4, 5]);
    assert_eq!(t.as_bytes(), &[1u8, 2, 3, 4, 5][..]);
}

#[test]
fn combined_length_is_additive() {
    let a = commitment(1, 3);
    let b = commitment(2, 4);
    let c = commitment(3, 5);
    let ab = GreyhoundPCS::combine_commitments(&[a.clone(), b.clone()]).ok().unwrap();
    let abc = GreyhoundPCS::combine_commitments(&[a, b, c.clone()]).ok().unwrap();
    assert_eq!(abc.len, ab.len + c.len);
    assert_eq!(abc.len, 12);
}
