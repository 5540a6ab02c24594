use stark_pipeline::error::ProgramError;
use stark_pipeline::response::TaskResponse;
use stark_pipeline::{process_instruction, Entrypoint, ProofAccount, VerificationStage};

fn publish(account: &mut ProofAccount, offset: usize, data: &[u8]) {
    let r = process_instruction(
        &Entrypoint::PublishFragment { offset, data: data.to_vec() },
        account,
        VerificationStage::Publish,
        None,
    );
    assert_eq!(r, Ok(VerificationStage::Publish));
}

#[test]
fn stage_byte_codec() {
    assert_eq!(VerificationStage::from_byte(0), Ok(VerificationStage::Publish));
    assert_eq!(VerificationStage::from_byte(1), Ok(VerificationStage::Verify));
    assert_eq!(VerificationStage::from_byte(2), Ok(VerificationStage::Verified));
    assert_eq!(VerificationStage::from_byte(3), Err(ProgramError::UnknownStage));
    assert_eq!(ProgramError::UnknownStage.code(), 6);
    assert_eq!(VerificationStage::Publish.to_byte(), 0);
    assert_eq!(VerificationStage::Verify.to_byte(), 1);
    assert_eq!(VerificationStage::Verified.to_byte(), 2);
}

#[test]
fn fragments_cover_the_region() {
    // Any partition into contiguous fragments reproduces the byte string.
    let target: Vec<u8> = (0u8..100).collect();
    let mut account = ProofAccount::new(100);
    publish(&mut account, 0, &target[0..30]);
    publish(&mut account, 30, &target[30..31]);
    publish(&mut account, 31, &target[31..90]);
    publish(&mut account, 90, &target[90..100]);
    assert_eq!(account.proof_bytes, target);
}

#[test]
fn out_of_order_publish_matches_in_order() {
    let target: Vec<u8> = (0u8..64).map(|b| b.wrapping_mul(37)).collect();
    let mut in_order = ProofAccount::new(64);
    publish(&mut in_order, 0, &target[0..16]);
    publish(&mut in_order, 16, &target[16..48]);
    publish(&mut in_order, 48, &target[48..64]);
    let mut shuffled = ProofAccount::new(64);
    publish(&mut shuffled, 48, &target[48..64]);
    publish(&mut shuffled, 0, &target[0..16]);
    publish(&mut shuffled, 16, &target[16..48]);
    assert_eq!(in_order.proof_bytes, target);
    assert_eq!(shuffled.proof_bytes, in_order.proof_bytes);
}

#[test]
fn republishing_a_fragment_changes_nothing() {
    let mut account = ProofAccount::new(32);
    publish(&mut account, 4, &[9, 8, 7, 6]);
    let snapshot = account.clone();
    publish(&mut account, 4, &[9, 8, 7, 6]);
    assert_eq!(account, snapshot);
}

#[test]
fn overlapping_fragments_leave_the_last_write() {
    let mut account = ProofAccount::new(8);
    publish(&mut account, 0, &[1, 1, 1, 1]);
    publish(&mut account, 2, &[2, 2, 2, 2]);
    assert_eq!(account.proof_bytes, vec![1, 1, 2, 2, 2, 2, 0, 0]);
}

#[test]
fn publish_outside_publish_stage_is_rejected() {
    let mut account = ProofAccount::new(8);
    let r = process_instruction(
        &Entrypoint::PublishFragment { offset: 0, data: vec![1] },
        &mut account,
        VerificationStage::Verify,
        None,
    );
    assert_eq!(r, Err(ProgramError::PublishWrongStage));
    assert_eq!(ProgramError::PublishWrongStage.code(), 7);
    assert_eq!(account.proof_bytes, vec![0; 8]);
}

#[test]
fn schedule_seeds_exactly_the_root_task() {
    let mut account = ProofAccount::new(8);
    let r = process_instruction(
        &Entrypoint::Schedule,
        &mut account,
        VerificationStage::Publish,
        None,
    );
    assert_eq!(r, Ok(VerificationStage::Verify));
    assert_eq!(account.schedule.remaining(), 1);
    assert_eq!(account.schedule.peek(), Some([1, 0, 0, 0]));
}

#[test]
fn schedule_outside_publish_stage_is_rejected() {
    let mut account = ProofAccount::new(8);
    for stage in [VerificationStage::Verify, VerificationStage::Verified] {
        let r = process_instruction(&Entrypoint::Schedule, &mut account, stage, None);
        assert_eq!(r, Err(ProgramError::ScheduleWrongStage));
    }
    assert_eq!(ProgramError::ScheduleWrongStage.code(), 8);
}

#[test]
fn verify_in_publish_stage_is_rejected() {
    let mut account = ProofAccount::new(8);
    let r = process_instruction(
        &Entrypoint::VerifyProof,
        &mut account,
        VerificationStage::Publish,
        None,
    );
    assert_eq!(r, Err(ProgramError::VerifyWrongStage));
    assert_eq!(ProgramError::VerifyWrongStage.code(), 9);
}

#[test]
fn verify_after_verified_is_a_hard_error() {
    let mut account = ProofAccount::new(8);
    let r = process_instruction(
        &Entrypoint::VerifyProof,
        &mut account,
        VerificationStage::Verified,
        None,
    );
    assert_eq!(r, Err(ProgramError::AlreadyVerified));
    assert_eq!(ProgramError::AlreadyVerified.code(), 32);
}

#[test]
fn verify_with_empty_schedule_is_rejected() {
    let mut account = ProofAccount::new(8);
    let snapshot = account.clone();
    let r = process_instruction(
        &Entrypoint::VerifyProof,
        &mut account,
        VerificationStage::Verify,
        Some(TaskResponse::StarkVerifyLayers),
    );
    assert_eq!(r, Err(ProgramError::ScheduleEmpty));
    assert_eq!(ProgramError::ScheduleEmpty.code(), 3);
    assert_eq!(account, snapshot);
}
