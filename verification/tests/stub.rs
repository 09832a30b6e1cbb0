use spartan_pq::msvc_greyhound_pc::{MSVCGreyhoundCommitment, MSVCGreyhoundEvaluationArgument, MSVCGreyhoundPCS};
use spartan_pq::errors::{ErrorReason, SpartanError};
use spartan_pq::provider::{
    P256GreyhoundEngine, P256HyraxEngine, PallasGreyhoundEngine, PallasHyraxEngine, T256GreyhoundEngine,
    T256HyraxEngine, VestaGreyhoundEngine, VestaHyraxEngine,
};
use spartan_pq::stub_pc::{StubCommitment, StubEvaluationArgument, StubPCS};
use spartan_pq::transcript::{ByteTranscript, TranscriptEngineTrait};

#[test]
fn stub_engine_accepts_everything() {
    let (ck, vk) = StubPCS::setup(&[], 4, 1);
    assert_eq!(StubPCS::commit(&ck, &[1u64, 2], &0u64, false), Ok(StubCommitment));
    let mut t = ByteTranscript::new();
    t.absorb(&[9], &[]);
    let r = StubPCS::prove(&ck, &ck, &mut t, &StubCommitment, &[1u64], &0, &[2u64], &StubCommitment, &0);
    assert_eq!(r, Err(SpartanError::InternalError { reason: ErrorReason::ProvingUnavailable }));
    assert_eq!(t.as_bytes(), &[9u8][..]);
    let arg = StubEvaluationArgument;
    assert_eq!(StubPCS::verify(&vk, &ck, &mut t, &StubCommitment, &[2u64], &StubCommitment, &arg), Ok(()));
    assert_eq!(t.as_bytes(), &[9u8][..]);
    assert_eq!(StubPCS::check_commitment(&StubCommitment, 7, 1), Ok(()));
    assert_eq!(StubPCS::rerandomize_commitment(&ck, &StubCommitment, &1u64, &2u64), Ok(StubCommitment));
    assert_eq!(StubPCS::combine_commitments(&[]), Ok(StubCommitment));
    assert_eq!(StubPCS::combine_commitments(&[StubCommitment, StubCommitment]), Ok(StubCommitment));
    assert_eq!(StubPCS::fold_commitments(&[StubCommitment], &[3u64]), Ok(StubCommitment));
    assert_eq!(StubPCS::fold_commitments::<u64>(&[], &[]), Ok(StubCommitment));
    assert!(StubCommitment.to_transcript_bytes().is_empty());
}

#[test]
fn msvc_engine_accepts_everything() {
    let (ck, vk) = MSVCGreyhoundPCS::setup(&[], 4, 1);
    assert_eq!(MSVCGreyhoundPCS::commit(&ck, &[1u64], &0u64, true), Ok(MSVCGreyhoundCommitment));
    let mut t = ByteTranscript::new();
    let arg = MSVCGreyhoundPCS::prove(
        &ck, &ck, &mut t, &MSVCGreyhoundCommitment, &[1u64], &0, &[], &MSVCGreyhoundCommitment, &0,
    )
    .ok()
    .unwrap();
    assert_eq!(arg, MSVCGreyhoundEvaluationArgument);
    assert_eq!(
        MSVCGreyhoundPCS::verify::<u64, _>(&vk, &ck, &mut t, &MSVCGreyhoundCommitment, &[], &MSVCGreyhoundCommitment, &arg),
        Ok(())
    );
    assert!(t.as_bytes().is_empty());
    assert_eq!(MSVCGreyhoundPCS::check_commitment(&MSVCGreyhoundCommitment, 0, 0), Ok(()));
    assert_eq!(
        MSVCGreyhoundPCS::rerandomize_commitment(&ck, &MSVCGreyhoundCommitment, &0u64, &0u64),
        Ok(MSVCGreyhoundCommitment)
    );
    assert_eq!(MSVCGreyhoundPCS::combine_commitments(&[MSVCGreyhoundCommitment]), Ok(MSVCGreyhoundCommitment));
    assert_eq!(MSVCGreyhoundPCS::fold_commitments::<u64>(&[], &[]), Ok(MSVCGreyhoundCommitment));
    assert!(MSVCGreyhoundCommitment.to_transcript_bytes().is_empty());
}

#[test]
fn engines_are_plain_markers() {
    assert_eq!(PallasGreyhoundEngine, PallasGreyhoundEngine);
    assert_eq!(VestaGreyhoundEngine, VestaGreyhoundEngine);
    assert_eq!(P256GreyhoundEngine, P256GreyhoundEngine);
    assert_eq!(T256GreyhoundEngine, T256GreyhoundEngine);
    let old_names: (PallasHyraxEngine, VestaHyraxEngine, P256HyraxEngine, T256HyraxEngine) =
        (PallasGreyhoundEngine, VestaGreyhoundEngine, P256GreyhoundEngine, T256GreyhoundEngine);
    assert_eq!(old_names.0, PallasGreyhoundEngine);
    assert_eq!(old_names.3, T256GreyhoundEngine);
}
