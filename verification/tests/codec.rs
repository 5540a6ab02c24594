use stark_pipeline::error::ProgramError;
use stark_pipeline::task::{RawTask, TableDecommitTarget, Tasks};

fn all_kinds() -> Vec<Tasks> {
    vec![
        Tasks::VerifyProofWithoutStark,
        Tasks::StarkVerify,
        Tasks::VerifyOutput,
        Tasks::TableDecommit(TableDecommitTarget::Invalid),
        Tasks::TableDecommit(TableDecommitTarget::Original),
        Tasks::TableDecommit(TableDecommitTarget::Interaction),
        Tasks::TableDecommit(TableDecommitTarget::Composition),
        Tasks::TableDecommit(TableDecommitTarget::Fri(0)),
        Tasks::TableDecommit(TableDecommitTarget::Fri(7)),
        Tasks::TableDecommit(TableDecommitTarget::Fri(255)),
        Tasks::StarkCommit,
        Tasks::StarkCommitOodsCoef,
        Tasks::StarkCommitFri,
        Tasks::StarkCommitAssign,
        Tasks::GenerateQueries,
        Tasks::StarkVerifyFri,
        Tasks::StarkVerifyLayersTask,
        Tasks::StarkVerifyLastLayerTask,
        Tasks::StarkVerifyFriLayer(0),
        Tasks::StarkVerifyFriLayer(13),
        Tasks::StarkVerifyLayerAssignNext,
        Tasks::StarkVerifyLayerDecommitmentMont(2),
        Tasks::ComputeNextLayer(3),
        Tasks::ComputeNextInner(4),
    ]
}

#[test]
fn encode_then_decode_is_identity() {
    for task in all_kinds() {
        let raw = task.encode();
        assert_eq!(Tasks::decode(&raw), Ok(task));
    }
}

#[test]
fn decode_then_encode_is_identity() {
    // Walk every kind byte with a few payload patterns; whenever a record
    // decodes, its re-encoding must reproduce the record byte for byte.
    let mut decoded = 0u32;
    for kind in 0u8..=255 {
        for payload in [[0u8, 0, 0], [1, 0, 0], [4, 9, 0], [0, 3, 0], [0, 0, 1]] {
            let raw: RawTask = [kind, payload[0], payload[1], payload[2]];
            if let Ok(task) = Tasks::decode(&raw) {
                assert_eq!(task.encode(), raw);
                decoded += 1;
            }
        }
    }
    assert!(decoded > 0);
}

#[test]
fn expected_wire_bytes() {
    assert_eq!(Tasks::VerifyProofWithoutStark.encode(), [1, 0, 0, 0]);
    assert_eq!(Tasks::TableDecommit(TableDecommitTarget::Fri(9)).encode(), [4, 4, 9, 0]);
    assert_eq!(Tasks::StarkVerifyFriLayer(2).encode(), [13, 2, 0, 0]);
    assert_eq!(Tasks::ComputeNextInner(1).encode(), [17, 1, 0, 0]);
}

#[test]
fn unknown_kind_is_rejected() {
    assert_eq!(Tasks::decode(&[0, 0, 0, 0]), Err(ProgramError::UnknownTask));
    assert_eq!(Tasks::decode(&[18, 0, 0, 0]), Err(ProgramError::UnknownTask));
    assert_eq!(Tasks::decode(&[255, 0, 0, 0]), Err(ProgramError::UnknownTask));
    assert_eq!(ProgramError::UnknownTask.code(), 2);
}

#[test]
fn unknown_decommit_target_is_rejected() {
    assert_eq!(Tasks::decode(&[4, 5, 0, 0]), Err(ProgramError::UnknownDecommitTarget));
    assert_eq!(Tasks::decode(&[4, 255, 0, 0]), Err(ProgramError::UnknownDecommitTarget));
    assert_eq!(ProgramError::UnknownDecommitTarget.code(), 17);
}

#[test]
fn stray_payload_bytes_are_rejected() {
    // A record whose unused bytes are not zero is not the encoding of any
    // task, so a strict decoder refuses it.
    assert_eq!(Tasks::decode(&[1, 1, 0, 0]), Err(ProgramError::UnknownTask));
    assert_eq!(Tasks::decode(&[13, 0, 5, 0]), Err(ProgramError::UnknownTask));
    assert_eq!(Tasks::decode(&[14, 2, 0, 0]), Err(ProgramError::UnknownTask));
    assert_eq!(Tasks::decode(&[4, 1, 0, 9]), Err(ProgramError::UnknownDecommitTarget));
}
