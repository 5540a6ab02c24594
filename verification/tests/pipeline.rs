use stark_pipeline::cache::FriQuery;
use stark_pipeline::error::ProgramError;
use stark_pipeline::felt::Felt;
use stark_pipeline::intermediate::{
    FriCommitment, FriConfig, ProofConfig, StarkCommitment, StarkDomains, TracesCommitment,
    Transcript,
};
use stark_pipeline::response::TaskResponse;
use stark_pipeline::schedule::Schedule;
use stark_pipeline::task::{TableDecommitTarget, Tasks};
use stark_pipeline::{process_instruction, Entrypoint, ProofAccount, VerificationStage};

fn felt(tag: u8) -> Felt {
    let mut bytes = [0u8; 32];
    bytes[31] = tag;
    Felt(bytes)
}

fn felts(tags: &[u8]) -> Vec<Felt> {
    tags.iter().map(|t| felt(*t)).collect()
}

fn test_config() -> ProofConfig {
    ProofConfig {
        n_queries: 2,
        log_trace_domain_size: 4,
        log_n_cosets: 2,
        n_verifier_friendly_commitment_layers: 0,
        pow_n_bits: 20,
        fri: FriConfig {
            n_layers: 2,
            fri_step_sizes: vec![0, 2],
            log_last_layer_degree_bound: 1,
        },
    }
}

fn test_domains() -> StarkDomains {
    StarkDomains {
        log_eval_domain_size: felt(6),
        eval_domain_size: felt(64),
        eval_generator: felt(11),
        log_trace_domain_size: felt(4),
        trace_domain_size: felt(16),
        trace_generator: felt(12),
    }
}

fn transcript(counter: u8) -> Transcript {
    Transcript { digest: felt(100), counter: felt(counter) }
}

/// A deterministic stand-in for the cryptographic executor: it answers
/// each task with fixed, self-consistent values.
fn respond(task: Tasks) -> TaskResponse {
    match task {
        Tasks::VerifyProofWithoutStark => TaskResponse::VerifyProofRoot {
            n_original_columns: 7,
            n_interaction_columns: 3,
            config: test_config(),
            domains: test_domains(),
            transcript: transcript(0),
        },
        Tasks::StarkCommit => TaskResponse::StarkCommit {
            traces: TracesCommitment {
                original_root: felt(21),
                interaction_root: felt(22),
                interaction_elements: felts(&[23, 24]),
            },
            composition_alpha: felt(25),
            composition_root: felt(26),
            interaction_after_composition: felt(27),
            transcript: transcript(1),
        },
        Tasks::StarkCommitOodsCoef => TaskResponse::StarkCommitOodsCoef {
            oods_alpha: felt(30),
            oods_coefficients: felts(&[31, 32, 33]),
            transcript: transcript(2),
        },
        Tasks::StarkCommitFri => TaskResponse::StarkCommitFri {
            fri: FriCommitment {
                inner_layer_roots: felts(&[41]),
                eval_points: felts(&[42]),
                last_layer_coefficients: felts(&[43, 44]),
            },
            transcript: transcript(3),
        },
        Tasks::StarkCommitAssign => TaskResponse::StarkCommitAssign {
            oods_values: felts(&[51, 52]),
            transcript: transcript(4),
        },
        Tasks::GenerateQueries => TaskResponse::GenerateQueries {
            queries: vec![3, 5],
            transcript: transcript(5),
        },
        Tasks::StarkVerify => TaskResponse::StarkVerify {
            points: felts(&[61, 62]),
            evaluations: felts(&[63, 64]),
        },
        Tasks::TableDecommit(_) => TaskResponse::TableDecommit,
        Tasks::StarkVerifyFri => TaskResponse::StarkVerifyFri { x_inv_values: felts(&[71, 72]) },
        Tasks::StarkVerifyLayersTask => TaskResponse::StarkVerifyLayers,
        Tasks::StarkVerifyFriLayer(_) => TaskResponse::StarkVerifyFriLayer {
            sibling_leaves: felts(&[81, 82, 83, 84, 85, 86]),
        },
        Tasks::ComputeNextLayer(_) => TaskResponse::ComputeNextLayer,
        Tasks::ComputeNextInner(_) => TaskResponse::ComputeNextInner {
            coset_x_inv: felt(91),
            folded_value: felt(92),
            next_x_inv: felt(93),
        },
        Tasks::StarkVerifyLayerDecommitmentMont(_) => {
            TaskResponse::StarkVerifyLayerDecommitmentMont {
                montgomery_values: felts(&[94, 95, 96, 97, 98, 99, 100, 101]),
            }
        }
        Tasks::StarkVerifyLayerAssignNext => TaskResponse::StarkVerifyLayerAssignNext,
        Tasks::StarkVerifyLastLayerTask => TaskResponse::StarkVerifyLastLayer,
        Tasks::VerifyOutput => TaskResponse::VerifyOutput {
            program_hash: felt(111),
            output: felts(&[1, 4, 112, 113, 114]),
        },
    }
}

/// Runs the whole verification with the stand-in executor, checking that
/// a re-sent invocation from the same committed state reaches the same
/// outcome at every step.
fn run_to_verified(account: &mut ProofAccount) -> (Vec<Tasks>, u32) {
    let mut stage = process_instruction(
        &Entrypoint::Schedule,
        account,
        VerificationStage::Publish,
        None,
    )
    .unwrap();
    let mut executed: Vec<Tasks> = Vec::new();
    let mut invocations = 0u32;
    while stage != VerificationStage::Verified {
        let task = account.next_task().unwrap().unwrap();
        let response = respond(task);
        // A budget abort leaves the account untouched; the client simply
        // re-sends the message. Replaying from the committed state must
        // give the same outcome.
        let mut replay = account.clone();
        let replay_stage = process_instruction(
            &Entrypoint::VerifyProof,
            &mut replay,
            stage,
            Some(respond(task)),
        );
        stage = process_instruction(
            &Entrypoint::VerifyProof,
            account,
            stage,
            Some(response),
        )
        .unwrap();
        assert_eq!(replay_stage, Ok(stage));
        assert_eq!(&replay, account);
        executed.push(task);
        invocations += 1;
        assert!(invocations < 1000, "runaway schedule");
    }
    (executed, invocations)
}

#[test]
fn happy_path_reaches_verified() {
    let mut account = ProofAccount::new(64);
    let (executed, invocations) = run_to_verified(&mut account);

    // Tasks run in depth-first execution order: the commit phase, the
    // queries, the verify phase with its decommits, one FRI layer with
    // two coset folds plus the final empty fold, and the epilogue.
    assert_eq!(
        executed,
        vec![
            Tasks::VerifyProofWithoutStark,
            Tasks::StarkCommit,
            Tasks::StarkCommitOodsCoef,
            Tasks::StarkCommitFri,
            Tasks::StarkCommitAssign,
            Tasks::GenerateQueries,
            Tasks::StarkVerify,
            Tasks::TableDecommit(TableDecommitTarget::Original),
            Tasks::TableDecommit(TableDecommitTarget::Interaction),
            Tasks::TableDecommit(TableDecommitTarget::Composition),
            Tasks::StarkVerifyFri,
            Tasks::StarkVerifyLayersTask,
            Tasks::StarkVerifyFriLayer(0),
            Tasks::ComputeNextLayer(0),
            Tasks::ComputeNextInner(0),
            Tasks::ComputeNextInner(0),
            Tasks::ComputeNextInner(0),
            Tasks::StarkVerifyLayerDecommitmentMont(0),
            Tasks::TableDecommit(TableDecommitTarget::Fri(0)),
            Tasks::StarkVerifyLayerAssignNext,
            Tasks::StarkVerifyLastLayerTask,
            Tasks::VerifyOutput,
        ]
    );
    assert_eq!(invocations, 22);

    // The verified result is observable on the account.
    assert_eq!(account.intermediate.program_hash(), Some(felt(111)));
    assert_eq!(account.intermediate.output(), &felts(&[1, 4, 112, 113, 114]));
    assert!(account.schedule.finished());

    // The commitment snapshot was assembled from the commit tasks' output.
    let commitment = account.intermediate.verify.stark_commitment.as_ref().unwrap();
    assert_eq!(commitment.traces.original_root, felt(21));
    assert_eq!(commitment.composition_root, felt(26));
    assert_eq!(commitment.oods_values, felts(&[51, 52]));
    assert_eq!(commitment.interaction_after_oods, felts(&[31, 32, 33]));
    assert_eq!(commitment.fri.last_layer_coefficients, felts(&[43, 44]));
}

#[test]
fn fold_consumes_queries_and_siblings_coset_by_coset() {
    let mut account = ProofAccount::new(64);
    run_to_verified(&mut account);
    // Queries 3 and 5 with coset size 4 fall into cosets 0 and 1; each
    // coset takes one query value and three sibling leaves.
    assert_eq!(account.cache.fri.verify_indices, vec![0, 1]);
    assert_eq!(
        account.cache.fri.verify_y_values,
        felts(&[81, 82, 83, 63, 84, 64, 85, 86])
    );
    assert_eq!(account.cache.fri.decommitment_values, account.cache.fri.verify_y_values);
    // After the hand-over, the folded queries are the working queries.
    assert_eq!(
        account.cache.fri.fri_queries,
        vec![
            FriQuery { index: 0, y_value: felt(92), x_inv_value: felt(93) },
            FriQuery { index: 1, y_value: felt(92), x_inv_value: felt(93) },
        ]
    );
    assert!(account.cache.fri.next_queries.is_empty());
}

#[test]
fn failed_primitive_aborts_without_state_change() {
    let mut account = ProofAccount::new(64);
    let stage = process_instruction(
        &Entrypoint::Schedule,
        &mut account,
        VerificationStage::Publish,
        None,
    )
    .unwrap();
    let snapshot = account.clone();
    let r = process_instruction(
        &Entrypoint::VerifyProof,
        &mut account,
        stage,
        Some(TaskResponse::Failed { code: 77 }),
    );
    assert_eq!(r, Err(ProgramError::VerificationFailed(77)));
    assert_eq!(ProgramError::VerificationFailed(77).code(), 77);
    // Only the pop happened; cache and intermediates are untouched.
    assert_eq!(account.cache, snapshot.cache);
    assert_eq!(account.intermediate, snapshot.intermediate);
}

#[test]
fn mismatched_response_is_rejected() {
    let mut account = ProofAccount::new(64);
    let stage = process_instruction(
        &Entrypoint::Schedule,
        &mut account,
        VerificationStage::Publish,
        None,
    )
    .unwrap();
    let r = process_instruction(
        &Entrypoint::VerifyProof,
        &mut account,
        stage,
        Some(TaskResponse::StarkVerifyLayers),
    );
    assert_eq!(r, Err(ProgramError::ResponseMismatch));
    assert_eq!(ProgramError::ResponseMismatch.code(), 34);
}

#[test]
fn out_of_range_query_index_is_rejected() {
    // The configuration declares a 64-element evaluation domain, so a
    // drawn index of 64 cannot be the query generator's output.
    let mut account = ProofAccount::new(64);
    account.schedule = Schedule::from_slice(&[Tasks::GenerateQueries.encode()]);
    account.intermediate.verify.config = Some(test_config());
    let r = process_instruction(
        &Entrypoint::VerifyProof,
        &mut account,
        VerificationStage::Verify,
        Some(TaskResponse::GenerateQueries { queries: vec![3, 64], transcript: transcript(5) }),
    );
    assert_eq!(r, Err(ProgramError::ResponseMismatch));
    assert!(account.intermediate.verify.queries.is_empty());
}

#[test]
fn task_without_its_inputs_is_rejected() {
    // GenerateQueries before the root task has parsed the configuration.
    let mut account = ProofAccount::new(64);
    account.schedule = Schedule::from_slice(&[Tasks::GenerateQueries.encode()]);
    let r = process_instruction(
        &Entrypoint::VerifyProof,
        &mut account,
        VerificationStage::Verify,
        Some(respond(Tasks::GenerateQueries)),
    );
    assert_eq!(r, Err(ProgramError::MissingIntermediate));
    assert_eq!(ProgramError::MissingIntermediate.code(), 35);
}

#[test]
fn unpaired_evaluations_fail_with_invalid_length() {
    let mut account = ProofAccount::new(64);
    account.schedule = Schedule::from_slice(&[Tasks::StarkVerifyFri.encode()]);
    account.intermediate.verify.queries = vec![3];
    // No evaluations were stored, so the pairing check must fail.
    let r = process_instruction(
        &Entrypoint::VerifyProof,
        &mut account,
        VerificationStage::Verify,
        Some(TaskResponse::StarkVerifyFri { x_inv_values: felts(&[71]) }),
    );
    assert_eq!(r, Err(ProgramError::InvalidLength));
    assert_eq!(ProgramError::InvalidLength.code(), 36);
}

#[test]
fn wrong_last_layer_coefficient_count_fails_with_invalid_value() {
    let mut account = ProofAccount::new(64);
    account.schedule = Schedule::from_slice(&[Tasks::StarkVerifyLastLayerTask.encode()]);
    account.intermediate.verify.config = Some(test_config());
    account.intermediate.verify.stark_commitment = Some(StarkCommitment {
        traces: TracesCommitment {
            original_root: felt(1),
            interaction_root: felt(2),
            interaction_elements: vec![],
        },
        composition_root: felt(3),
        interaction_after_composition: felt(4),
        oods_values: vec![],
        interaction_after_oods: vec![],
        fri: FriCommitment {
            inner_layer_roots: vec![],
            eval_points: vec![],
            // three coefficients, but the declared degree bound asks for
            // exactly two
            last_layer_coefficients: felts(&[1, 2, 3]),
        },
    });
    let r = process_instruction(
        &Entrypoint::VerifyProof,
        &mut account,
        VerificationStage::Verify,
        Some(TaskResponse::StarkVerifyLastLayer),
    );
    assert_eq!(r, Err(ProgramError::InvalidValue));
    assert_eq!(ProgramError::InvalidValue.code(), 37);
}

#[test]
fn zero_decommit_target_is_rejected() {
    let mut account = ProofAccount::new(64);
    account.schedule = Schedule::from_slice(&[[4, 0, 0, 0]]);
    let r = process_instruction(
        &Entrypoint::VerifyProof,
        &mut account,
        VerificationStage::Verify,
        Some(TaskResponse::TableDecommit),
    );
    assert_eq!(r, Err(ProgramError::UnknownDecommitTarget));
}

#[test]
fn schedule_overflow_is_reported() {
    // A task whose children would not fit fails with the schedule-full
    // code instead of writing past the capacity.
    let mut account = ProofAccount::new(64);
    let mut records = vec![Tasks::StarkVerifyLayersTask.encode(); 999];
    records.push(Tasks::VerifyProofWithoutStark.encode());
    account.schedule = Schedule::from_slice(&records);
    let r = process_instruction(
        &Entrypoint::VerifyProof,
        &mut account,
        VerificationStage::Verify,
        Some(respond(Tasks::VerifyProofWithoutStark)),
    );
    assert_eq!(r, Err(ProgramError::ScheduleFull));
    assert_eq!(ProgramError::ScheduleFull.code(), 33);
}
