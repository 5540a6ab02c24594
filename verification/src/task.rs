use vstd::prelude::*;

verus! {

use crate::error::ProgramError;

/// Which commitment tree a TableDecommit task authenticates against.
#[derive(Debug, Clone, Copy, PartialEq, Eq, Structural)]
pub enum TableDecommitTarget {
    /// The zero target; a descriptor that was never filled in. Executing
    /// it is rejected with the unknown-target code.
    Invalid,
    /// The original-trace commitment.
    Original,
    /// The interaction-trace commitment.
    Interaction,
    /// The composition-polynomial commitment.
    Composition,
    /// The witness of the given inner FRI layer.
    Fri(u8),
}

/// The closed set of task kinds that drive one proof verification. Each
/// kind packs, together with its small payload, into one 4-byte schedule
/// record.
#[derive(Debug, Clone, Copy, PartialEq, Eq, Structural)]
pub enum Tasks {
    /// The root task: validate configuration and seed the transcript.
    VerifyProofWithoutStark,
    /// Convert queries to points and evaluate the OODS boundary polynomial.
    StarkVerify,
    /// Surface the program hash and the public output.
    VerifyOutput,
    /// Verify one Merkle authentication batch.
    TableDecommit(TableDecommitTarget),
    /// Trace and composition commitments, OODS consistency.
    StarkCommit,
    /// Derive the OODS coefficients.
    StarkCommitOodsCoef,
    /// The FRI commitment rounds.
    StarkCommitFri,
    /// Proof-of-work check, then snapshot the finished commitment.
    StarkCommitAssign,
    /// Draw the query indices from the transcript.
    GenerateQueries,
    /// Gather the first FRI layer's queries.
    StarkVerifyFri,
    /// Fan out one task per inner FRI layer.
    StarkVerifyLayersTask,
    /// Check the last layer polynomial against the remaining queries.
    StarkVerifyLastLayerTask,
    /// Load one inner layer's context and fan out its sub-tasks.
    StarkVerifyFriLayer(u8),
    /// Move the folded queries back into the working slot.
    StarkVerifyLayerAssignNext,
    /// Populate the layer's decommitment buffers.
    StarkVerifyLayerDecommitmentMont(u8),
    /// Start folding the layer's queries, one coset per invocation.
    ComputeNextLayer(u8),
    /// Fold exactly one coset, then reschedule itself while queries remain.
    ComputeNextInner(u8),
}

/// A task descriptor as it sits in the schedule: byte 0 is the kind tag,
/// bytes 1-3 carry the payload.
pub type RawTask = [u8; 4];

/// The 4-byte encoding of a task descriptor.
pub open spec fn spec_encode(t: Tasks) -> Seq<u8> {
    match t {
        Tasks::VerifyProofWithoutStark => seq![1u8, 0u8, 0u8, 0u8],
        Tasks::StarkVerify => seq![2u8, 0u8, 0u8, 0u8],
        Tasks::VerifyOutput => seq![3u8, 0u8, 0u8, 0u8],
        Tasks::TableDecommit(target) => match target {
            TableDecommitTarget::Invalid => seq![4u8, 0u8, 0u8, 0u8],
            TableDecommitTarget::Original => seq![4u8, 1u8, 0u8, 0u8],
            TableDecommitTarget::Interaction => seq![4u8, 2u8, 0u8, 0u8],
            TableDecommitTarget::Composition => seq![4u8, 3u8, 0u8, 0u8],
            TableDecommitTarget::Fri(i) => seq![4u8, 4u8, i, 0u8],
        },
        Tasks::StarkCommit => seq![5u8, 0u8, 0u8, 0u8],
        Tasks::StarkCommitOodsCoef => seq![6u8, 0u8, 0u8, 0u8],
        Tasks::StarkCommitFri => seq![7u8, 0u8, 0u8, 0u8],
        Tasks::StarkCommitAssign => seq![8u8, 0u8, 0u8, 0u8],
        Tasks::GenerateQueries => seq![9u8, 0u8, 0u8, 0u8],
        Tasks::StarkVerifyFri => seq![10u8, 0u8, 0u8, 0u8],
        Tasks::StarkVerifyLayersTask => seq![11u8, 0u8, 0u8, 0u8],
        Tasks::StarkVerifyLastLayerTask => seq![12u8, 0u8, 0u8, 0u8],
        Tasks::StarkVerifyFriLayer(i) => seq![13u8, i, 0u8, 0u8],
        Tasks::StarkVerifyLayerAssignNext => seq![14u8, 0u8, 0u8, 0u8],
        Tasks::StarkVerifyLayerDecommitmentMont(i) => seq![15u8, i, 0u8, 0u8],
        Tasks::ComputeNextLayer(i) => seq![16u8, i, 0u8, 0u8],
        Tasks::ComputeNextInner(i) => seq![17u8, i, 0u8, 0u8],
    }
}

/// Decoding of a 4-byte record. A record decodes successfully exactly when
/// its kind tag is known, its target byte (for TableDecommit) is known, and
/// every byte the kind does not use is zero.
pub open spec fn spec_decode(r: Seq<u8>) -> Result<Tasks, ProgramError> {
    if r.len() != 4 {
        Err(ProgramError::UnknownTask)
    } else if r[1] == 0 && r[2] == 0 && r[3] == 0 && 1 <= r[0] <= 12 && r[0] != 4 {
        Ok(
            if r[0] == 1 { Tasks::VerifyProofWithoutStark }
            else if r[0] == 2 { Tasks::StarkVerify }
            else if r[0] == 3 { Tasks::VerifyOutput }
            else if r[0] == 5 { Tasks::StarkCommit }
            else if r[0] == 6 { Tasks::StarkCommitOodsCoef }
            else if r[0] == 7 { Tasks::StarkCommitFri }
            else if r[0] == 8 { Tasks::StarkCommitAssign }
            else if r[0] == 9 { Tasks::GenerateQueries }
            else if r[0] == 10 { Tasks::StarkVerifyFri }
            else if r[0] == 11 { Tasks::StarkVerifyLayersTask }
            else { Tasks::StarkVerifyLastLayerTask },
        )
    } else if r[0] == 4 {
        if r[3] != 0 {
            Err(ProgramError::UnknownDecommitTarget)
        } else if r[1] == 0 && r[2] == 0 {
            Ok(Tasks::TableDecommit(TableDecommitTarget::Invalid))
        } else if r[1] == 1 && r[2] == 0 {
            Ok(Tasks::TableDecommit(TableDecommitTarget::Original))
        } else if r[1] == 2 && r[2] == 0 {
            Ok(Tasks::TableDecommit(TableDecommitTarget::Interaction))
        } else if r[1] == 3 && r[2] == 0 {
            Ok(Tasks::TableDecommit(TableDecommitTarget::Composition))
        } else if r[1] == 4 {
            Ok(Tasks::TableDecommit(TableDecommitTarget::Fri(r[2])))
        } else {
            Err(ProgramError::UnknownDecommitTarget)
        }
    } else if 13 <= r[0] <= 17 && r[2] == 0 && r[3] == 0 && !(r[0] == 14 && r[1] != 0) {
        Ok(
            if r[0] == 13 { Tasks::StarkVerifyFriLayer(r[1]) }
            else if r[0] == 14 { Tasks::StarkVerifyLayerAssignNext }
            else if r[0] == 15 { Tasks::StarkVerifyLayerDecommitmentMont(r[1]) }
            else if r[0] == 16 { Tasks::ComputeNextLayer(r[1]) }
            else { Tasks::ComputeNextInner(r[1]) },
        )
    } else {
        Err(ProgramError::UnknownTask)
    }
}

impl Tasks {
    /// Packs the task into its 4-byte schedule record.
    pub fn encode(&self) -> (r: RawTask)
        ensures
            r@ =~= spec_encode(*self),
    {
        match self {
            Tasks::VerifyProofWithoutStark => [1, 0, 0, 0],
            Tasks::StarkVerify => [2, 0, 0, 0],
            Tasks::VerifyOutput => [3, 0, 0, 0],
            Tasks::TableDecommit(target) => match target {
                TableDecommitTarget::Invalid => [4, 0, 0, 0],
                TableDecommitTarget::Original => [4, 1, 0, 0],
                TableDecommitTarget::Interaction => [4, 2, 0, 0],
                TableDecommitTarget::Composition => [4, 3, 0, 0],
                TableDecommitTarget::Fri(i) => [4, 4, *i, 0],
            },
            Tasks::StarkCommit => [5, 0, 0, 0],
            Tasks::StarkCommitOodsCoef => [6, 0, 0, 0],
            Tasks::StarkCommitFri => [7, 0, 0, 0],
            Tasks::StarkCommitAssign => [8, 0, 0, 0],
            Tasks::GenerateQueries => [9, 0, 0, 0],
            Tasks::StarkVerifyFri => [10, 0, 0, 0],
            Tasks::StarkVerifyLayersTask => [11, 0, 0, 0],
            Tasks::StarkVerifyLastLayerTask => [12, 0, 0, 0],
            Tasks::StarkVerifyFriLayer(i) => [13, *i, 0, 0],
            Tasks::StarkVerifyLayerAssignNext => [14, 0, 0, 0],
            Tasks::StarkVerifyLayerDecommitmentMont(i) => [15, *i, 0, 0],
            Tasks::ComputeNextLayer(i) => [16, *i, 0, 0],
            Tasks::ComputeNextInner(i) => [17, *i, 0, 0],
        }
    }

    /// Unpacks a 4-byte schedule record. An unknown kind tag is rejected
    /// with the unknown-task code, an unknown TableDecommit target with the
    /// unknown-target code; bytes a kind does not use must be zero.
    pub fn decode(raw: &RawTask) -> (r: Result<Tasks, ProgramError>)
        ensures
            r == spec_decode(raw@),
    {
        let kind = raw[0];
        let p1 = raw[1];
        let p2 = raw[2];
        let p3 = raw[3];
        if kind == 4 {
            if p3 != 0 {
                return Err(ProgramError::UnknownDecommitTarget);
            }
            match (p1, p2) {
                (0, 0) => Ok(Tasks::TableDecommit(TableDecommitTarget::Invalid)),
                (1, 0) => Ok(Tasks::TableDecommit(TableDecommitTarget::Original)),
                (2, 0) => Ok(Tasks::TableDecommit(TableDecommitTarget::Interaction)),
                (3, 0) => Ok(Tasks::TableDecommit(TableDecommitTarget::Composition)),
                (4, f) => Ok(Tasks::TableDecommit(TableDecommitTarget::Fri(f))),
                _ => Err(ProgramError::UnknownDecommitTarget),
            }
        } else if 13 <= kind && kind <= 17 {
            if p2 != 0 || p3 != 0 {
                return Err(ProgramError::UnknownTask);
            }
            match kind {
                13 => Ok(Tasks::StarkVerifyFriLayer(p1)),
                14 => {
                    if p1 == 0 {
                        Ok(Tasks::StarkVerifyLayerAssignNext)
                    } else {
                        Err(ProgramError::UnknownTask)
                    }
                },
                15 => Ok(Tasks::StarkVerifyLayerDecommitmentMont(p1)),
                16 => Ok(Tasks::ComputeNextLayer(p1)),
                _ => Ok(Tasks::ComputeNextInner(p1)),
            }
        } else {
            if p1 != 0 || p2 != 0 || p3 != 0 {
                return Err(ProgramError::UnknownTask);
            }
            match kind {
                1 => Ok(Tasks::VerifyProofWithoutStark),
                2 => Ok(Tasks::StarkVerify),
                3 => Ok(Tasks::VerifyOutput),
                5 => Ok(Tasks::StarkCommit),
                6 => Ok(Tasks::StarkCommitOodsCoef),
                7 => Ok(Tasks::StarkCommitFri),
                8 => Ok(Tasks::StarkCommitAssign),
                9 => Ok(Tasks::GenerateQueries),
                10 => Ok(Tasks::StarkVerifyFri),
                11 => Ok(Tasks::StarkVerifyLayersTask),
                12 => Ok(Tasks::StarkVerifyLastLayerTask),
                _ => Err(ProgramError::UnknownTask),
            }
        }
    }
}

/// The descriptor codec is total on task values: every kind with every
/// payload encodes, and decoding gives the same task back.
pub proof fn lemma_codec_round_trip(t: Tasks)
    ensures
        spec_decode(spec_encode(t)) == Ok::<Tasks, ProgramError>(t),
{
}

/// The descriptor codec is injective on records: every 4-byte record that
/// decodes successfully is the encoding of the task it decodes to.
pub proof fn lemma_codec_inverse(r: Seq<u8>)
    requires
        r.len() == 4,
        spec_decode(r) is Ok,
    ensures
        spec_encode(spec_decode(r)->Ok_0) =~= r,
{
}

/// A task together with its view: what the task reads from the account
/// and the payload it carries.
#[derive(Debug, Clone, Copy, PartialEq, Eq)]
pub enum TaskView {
    VerifyProofWithoutStark(crate::verify::VerifyProofTask),
    StarkVerify(crate::verify::stark_verify::StarkVerifyTask),
    VerifyOutput(crate::verify::verify_output::VerifyOutputTask),
    TableDecommit(crate::verify::stark_verify::table_decommit::TableDecommitTask),
    StarkCommit(crate::verify::stark_commit::StarkCommitTask),
    StarkCommitOodsCoef(crate::verify::stark_commit::oods_coef::StarkCommitOodsCoefTask),
    StarkCommitFri(crate::verify::stark_commit::fri_commit::StarkCommitFriTask),
    StarkCommitAssign(crate::verify::stark_commit::assign::StarkCommitAssignTask),
    GenerateQueries(crate::verify::generate_queries::GenerateQueriesTask),
    StarkVerifyFri(crate::verify::stark_verify::fri_verify::StarkVerifyFriTask),
    StarkVerifyLayersTask(
        crate::verify::stark_verify::fri_verify::fri_verify_layers::StarkVerifyLayersTask,
    ),
    StarkVerifyLastLayerTask(
        crate::verify::stark_verify::fri_verify::last_layer::StarkVerifyLastLayerTask,
    ),
    StarkVerifyFriLayer(
        crate::verify::stark_verify::fri_verify::fri_verify_layers::layer::StarkVerifyLayerTask,
    ),
    StarkVerifyLayerAssignNext(
        crate::verify::stark_verify::fri_verify::fri_verify_layers::assign_next::StarkVerifyLayerAssignNextTask,
    ),
    StarkVerifyLayerDecommitmentMont(
        crate::verify::stark_verify::fri_verify::fri_verify_layers::decommitment_mont::StarkVerifyLayerDecommitmentMontTask,
    ),
    ComputeNextLayer(
        crate::verify::stark_verify::fri_verify::fri_verify_layers::compute_next_layer::ComputeNextTask,
    ),
    ComputeNextInner(
        crate::verify::stark_verify::fri_verify::fri_verify_layers::compute_next_layer::next_inner::ComputeNextInnerTask,
    ),
}

/// The view each task kind opens: the object that executes it, carrying
/// the task's payload.
pub open spec fn spec_view(t: Tasks) -> TaskView {
    match t {
        Tasks::VerifyProofWithoutStark => TaskView::VerifyProofWithoutStark(
            crate::verify::VerifyProofTask,
        ),
        Tasks::StarkVerify => TaskView::StarkVerify(
            crate::verify::stark_verify::StarkVerifyTask,
        ),
        Tasks::VerifyOutput => TaskView::VerifyOutput(
            crate::verify::verify_output::VerifyOutputTask,
        ),
        Tasks::TableDecommit(target) => TaskView::TableDecommit(
            (crate::verify::stark_verify::table_decommit::TableDecommitTask { target }),
        ),
        Tasks::StarkCommit => TaskView::StarkCommit(crate::verify::stark_commit::StarkCommitTask),
        Tasks::StarkCommitOodsCoef => TaskView::StarkCommitOodsCoef(
            crate::verify::stark_commit::oods_coef::StarkCommitOodsCoefTask,
        ),
        Tasks::StarkCommitFri => TaskView::StarkCommitFri(
            crate::verify::stark_commit::fri_commit::StarkCommitFriTask,
        ),
        Tasks::StarkCommitAssign => TaskView::StarkCommitAssign(
            crate::verify::stark_commit::assign::StarkCommitAssignTask,
        ),
        Tasks::GenerateQueries => TaskView::GenerateQueries(
            crate::verify::generate_queries::GenerateQueriesTask,
        ),
        Tasks::StarkVerifyFri => TaskView::StarkVerifyFri(
            crate::verify::stark_verify::fri_verify::StarkVerifyFriTask,
        ),
        Tasks::StarkVerifyLayersTask => TaskView::StarkVerifyLayersTask(
            crate::verify::stark_verify::fri_verify::fri_verify_layers::StarkVerifyLayersTask,
        ),
        Tasks::StarkVerifyLastLayerTask => TaskView::StarkVerifyLastLayerTask(
            crate::verify::stark_verify::fri_verify::last_layer::StarkVerifyLastLayerTask,
        ),
        Tasks::StarkVerifyFriLayer(i) => TaskView::StarkVerifyFriLayer(
            (crate::verify::stark_verify::fri_verify::fri_verify_layers::layer::StarkVerifyLayerTask {
                layer_index: i,
            }),
        ),
        Tasks::StarkVerifyLayerAssignNext => TaskView::StarkVerifyLayerAssignNext(
            crate::verify::stark_verify::fri_verify::fri_verify_layers::assign_next::StarkVerifyLayerAssignNextTask,
        ),
        Tasks::StarkVerifyLayerDecommitmentMont(i) => TaskView::StarkVerifyLayerDecommitmentMont(
            (crate::verify::stark_verify::fri_verify::fri_verify_layers::decommitment_mont::StarkVerifyLayerDecommitmentMontTask {
                layer_index: i,
            }),
        ),
        Tasks::ComputeNextLayer(i) => TaskView::ComputeNextLayer(
            (crate::verify::stark_verify::fri_verify::fri_verify_layers::compute_next_layer::ComputeNextTask {
                layer_index: i,
            }),
        ),
        Tasks::ComputeNextInner(i) => TaskView::ComputeNextInner(
            (crate::verify::stark_verify::fri_verify::fri_verify_layers::compute_next_layer::next_inner::ComputeNextInnerTask {
                layer_index: i,
            }),
        ),
    }
}

impl Tasks {
    /// Opens the task's view: the object that executes it, carrying the
    /// task's payload.
    pub fn view(self) -> (r: TaskView)
        ensures
            r == spec_view(self),
    {
        match self {
            Tasks::VerifyProofWithoutStark => TaskView::VerifyProofWithoutStark(
                crate::verify::VerifyProofTask::view(),
            ),
            Tasks::StarkVerify => TaskView::StarkVerify(
                crate::verify::stark_verify::StarkVerifyTask::view(),
            ),
            Tasks::VerifyOutput => TaskView::VerifyOutput(
                crate::verify::verify_output::VerifyOutputTask::view(),
            ),
            Tasks::TableDecommit(target) => TaskView::TableDecommit(
                crate::verify::stark_verify::table_decommit::TableDecommitTask::view(target),
            ),
            Tasks::StarkCommit => TaskView::StarkCommit(
                crate::verify::stark_commit::StarkCommitTask::view(),
            ),
            Tasks::StarkCommitOodsCoef => TaskView::StarkCommitOodsCoef(
                crate::verify::stark_commit::oods_coef::StarkCommitOodsCoefTask::view(),
            ),
            Tasks::StarkCommitFri => TaskView::StarkCommitFri(
                crate::verify::stark_commit::fri_commit::StarkCommitFriTask::view(),
            ),
            Tasks::StarkCommitAssign => TaskView::StarkCommitAssign(
                crate::verify::stark_commit::assign::StarkCommitAssignTask::view(),
            ),
            Tasks::GenerateQueries => TaskView::GenerateQueries(
                crate::verify::generate_queries::GenerateQueriesTask::view(),
            ),
            Tasks::StarkVerifyFri => TaskView::StarkVerifyFri(
                crate::verify::stark_verify::fri_verify::StarkVerifyFriTask::view(),
            ),
            Tasks::StarkVerifyLayersTask => TaskView::StarkVerifyLayersTask(
                crate::verify::stark_verify::fri_verify::fri_verify_layers::StarkVerifyLayersTask::view(),
            ),
            Tasks::StarkVerifyLastLayerTask => TaskView::StarkVerifyLastLayerTask(
                crate::verify::stark_verify::fri_verify::last_layer::StarkVerifyLastLayerTask::view(),
            ),
            Tasks::StarkVerifyFriLayer(i) => TaskView::StarkVerifyFriLayer(
                crate::verify::stark_verify::fri_verify::fri_verify_layers::layer::StarkVerifyLayerTask::view(
                    i,
                ),
            ),
            Tasks::StarkVerifyLayerAssignNext => TaskView::StarkVerifyLayerAssignNext(
                crate::verify::stark_verify::fri_verify::fri_verify_layers::assign_next::StarkVerifyLayerAssignNextTask::view(),
            ),
            Tasks::StarkVerifyLayerDecommitmentMont(i) => TaskView::StarkVerifyLayerDecommitmentMont(
                crate::verify::stark_verify::fri_verify::fri_verify_layers::decommitment_mont::StarkVerifyLayerDecommitmentMontTask::view(
                    i,
                ),
            ),
            Tasks::ComputeNextLayer(i) => TaskView::ComputeNextLayer(
                crate::verify::stark_verify::fri_verify::fri_verify_layers::compute_next_layer::ComputeNextTask::view(
                    i,
                ),
            ),
            Tasks::ComputeNextInner(i) => TaskView::ComputeNextInner(
                crate::verify::stark_verify::fri_verify::fri_verify_layers::compute_next_layer::next_inner::ComputeNextInnerTask::view(
                    i,
                ),
            ),
        }
    }
}

impl TaskView {
    /// Whether the viewed task succeeds on this account state and
    /// response: each task's own `accepts` says exactly when its work is
    /// owed.
    pub open spec fn accepts(
        &self,
        old_c: crate::cache::Cache,
        old_i: crate::intermediate::Intermediate,
        response: crate::response::TaskResponse,
    ) -> bool {
        match self {
            TaskView::VerifyProofWithoutStark(t) => t.accepts(old_c, old_i, response),
            TaskView::StarkVerify(t) => t.accepts(old_c, old_i, response),
            TaskView::VerifyOutput(t) => t.accepts(old_c, old_i, response),
            TaskView::TableDecommit(t) => t.accepts(old_c, old_i, response),
            TaskView::StarkCommit(t) => t.accepts(old_c, old_i, response),
            TaskView::StarkCommitOodsCoef(t) => t.accepts(old_c, old_i, response),
            TaskView::StarkCommitFri(t) => t.accepts(old_c, old_i, response),
            TaskView::StarkCommitAssign(t) => t.accepts(old_c, old_i, response),
            TaskView::GenerateQueries(t) => t.accepts(old_c, old_i, response),
            TaskView::StarkVerifyFri(t) => t.accepts(old_c, old_i, response),
            TaskView::StarkVerifyLayersTask(t) => t.accepts(old_c, old_i, response),
            TaskView::StarkVerifyLastLayerTask(t) => t.accepts(old_c, old_i, response),
            TaskView::StarkVerifyFriLayer(t) => t.accepts(old_c, old_i, response),
            TaskView::StarkVerifyLayerAssignNext(t) => t.accepts(old_c, old_i, response),
            TaskView::StarkVerifyLayerDecommitmentMont(t) => t.accepts(old_c, old_i, response),
            TaskView::ComputeNextLayer(t) => t.accepts(old_c, old_i, response),
            TaskView::ComputeNextInner(t) => t.accepts(old_c, old_i, response),
        }
    }

    /// The viewed task's children, in execution order: each task's own
    /// `spec_children` fixes them as a function of the account state.
    pub open spec fn spec_children(
        &self,
        old_c: crate::cache::Cache,
        old_i: crate::intermediate::Intermediate,
        response: crate::response::TaskResponse,
    ) -> Seq<Tasks> {
        match self {
            TaskView::VerifyProofWithoutStark(t) => t.spec_children(old_c, old_i, response),
            TaskView::StarkVerify(t) => t.spec_children(old_c, old_i, response),
            TaskView::VerifyOutput(t) => t.spec_children(old_c, old_i, response),
            TaskView::TableDecommit(t) => t.spec_children(old_c, old_i, response),
            TaskView::StarkCommit(t) => t.spec_children(old_c, old_i, response),
            TaskView::StarkCommitOodsCoef(t) => t.spec_children(old_c, old_i, response),
            TaskView::StarkCommitFri(t) => t.spec_children(old_c, old_i, response),
            TaskView::StarkCommitAssign(t) => t.spec_children(old_c, old_i, response),
            TaskView::GenerateQueries(t) => t.spec_children(old_c, old_i, response),
            TaskView::StarkVerifyFri(t) => t.spec_children(old_c, old_i, response),
            TaskView::StarkVerifyLayersTask(t) => t.spec_children(old_c, old_i, response),
            TaskView::StarkVerifyLastLayerTask(t) => t.spec_children(old_c, old_i, response),
            TaskView::StarkVerifyFriLayer(t) => t.spec_children(old_c, old_i, response),
            TaskView::StarkVerifyLayerAssignNext(t) => t.spec_children(old_c, old_i, response),
            TaskView::StarkVerifyLayerDecommitmentMont(t) => t.spec_children(
                old_c,
                old_i,
                response,
            ),
            TaskView::ComputeNextLayer(t) => t.spec_children(old_c, old_i, response),
            TaskView::ComputeNextInner(t) => t.spec_children(old_c, old_i, response),
        }
    }

    /// The viewed task's complete effect on the account: each task's own
    /// `applies` pins the new cache, the new intermediate and the
    /// children, so equal account states and equal responses lead to
    /// equal outcomes.
    pub open spec fn applies(
        &self,
        old_c: crate::cache::Cache,
        old_i: crate::intermediate::Intermediate,
        new_c: crate::cache::Cache,
        new_i: crate::intermediate::Intermediate,
        children: Seq<Tasks>,
        response: crate::response::TaskResponse,
    ) -> bool {
        match self {
            TaskView::VerifyProofWithoutStark(t) => t.applies(
                old_c,
                old_i,
                new_c,
                new_i,
                children,
                response,
            ),
            TaskView::StarkVerify(t) => t.applies(old_c, old_i, new_c, new_i, children, response),
            TaskView::VerifyOutput(t) => t.applies(old_c, old_i, new_c, new_i, children, response),
            TaskView::TableDecommit(t) => t.applies(
                old_c,
                old_i,
                new_c,
                new_i,
                children,
                response,
            ),
            TaskView::StarkCommit(t) => t.applies(old_c, old_i, new_c, new_i, children, response),
            TaskView::StarkCommitOodsCoef(t) => t.applies(
                old_c,
                old_i,
                new_c,
                new_i,
                children,
                response,
            ),
            TaskView::StarkCommitFri(t) => t.applies(
                old_c,
                old_i,
                new_c,
                new_i,
                children,
                response,
            ),
            TaskView::StarkCommitAssign(t) => t.applies(
                old_c,
                old_i,
                new_c,
                new_i,
                children,
                response,
            ),
            TaskView::GenerateQueries(t) => t.applies(
                old_c,
                old_i,
                new_c,
                new_i,
                children,
                response,
            ),
            TaskView::StarkVerifyFri(t) => t.applies(
                old_c,
                old_i,
                new_c,
                new_i,
                children,
                response,
            ),
            TaskView::StarkVerifyLayersTask(t) => t.applies(
                old_c,
                old_i,
                new_c,
                new_i,
                children,
                response,
            ),
            TaskView::StarkVerifyLastLayerTask(t) => t.applies(
                old_c,
                old_i,
                new_c,
                new_i,
                children,
                response,
            ),
            TaskView::StarkVerifyFriLayer(t) => t.applies(
                old_c,
                old_i,
                new_c,
                new_i,
                children,
                response,
            ),
            TaskView::StarkVerifyLayerAssignNext(t) => t.applies(
                old_c,
                old_i,
                new_c,
                new_i,
                children,
                response,
            ),
            TaskView::StarkVerifyLayerDecommitmentMont(t) => t.applies(
                old_c,
                old_i,
                new_c,
                new_i,
                children,
                response,
            ),
            TaskView::ComputeNextLayer(t) => t.applies(
                old_c,
                old_i,
                new_c,
                new_i,
                children,
                response,
            ),
            TaskView::ComputeNextInner(t) => t.applies(
                old_c,
                old_i,
                new_c,
                new_i,
                children,
                response,
            ),
        }
    }

    /// Executes the task against the account's cache and intermediate
    /// regions: it succeeds exactly when [`Self::accepts`] holds, with
    /// the complete effect [`Self::applies`] states; a failure leaves
    /// both regions untouched, and a failed executor check never passes.
    pub fn execute(
        &self,
        cache: &mut crate::cache::Cache,
        intermediate: &mut crate::intermediate::Intermediate,
        response: crate::response::TaskResponse,
    ) -> (r: Result<Vec<Tasks>, crate::error::ProgramError>)
        ensures
            r is Ok <==> self.accepts(*old(cache), *old(intermediate), response),
            r matches Ok(children) ==> self.applies(
                *old(cache),
                *old(intermediate),
                *final(cache),
                *final(intermediate),
                children@,
                response,
            ),
            r is Err ==> *final(cache) == *old(cache) && *final(intermediate) == *old(
                intermediate,
            ),
            response is Failed ==> r is Err,
    {
        match self {
            TaskView::VerifyProofWithoutStark(t) => t.execute(cache, intermediate, response),
            TaskView::StarkVerify(t) => t.execute(cache, intermediate, response),
            TaskView::VerifyOutput(t) => t.execute(cache, intermediate, response),
            TaskView::TableDecommit(t) => t.execute(cache, intermediate, response),
            TaskView::StarkCommit(t) => t.execute(cache, intermediate, response),
            TaskView::StarkCommitOodsCoef(t) => t.execute(cache, intermediate, response),
            TaskView::StarkCommitFri(t) => t.execute(cache, intermediate, response),
            TaskView::StarkCommitAssign(t) => t.execute(cache, intermediate, response),
            TaskView::GenerateQueries(t) => t.execute(cache, intermediate, response),
            TaskView::StarkVerifyFri(t) => t.execute(cache, intermediate, response),
            TaskView::StarkVerifyLayersTask(t) => t.execute(cache, intermediate, response),
            TaskView::StarkVerifyLastLayerTask(t) => t.execute(cache, intermediate, response),
            TaskView::StarkVerifyFriLayer(t) => t.execute(cache, intermediate, response),
            TaskView::StarkVerifyLayerAssignNext(t) => t.execute(cache, intermediate, response),
            TaskView::StarkVerifyLayerDecommitmentMont(t) => t.execute(
                cache,
                intermediate,
                response,
            ),
            TaskView::ComputeNextLayer(t) => t.execute(cache, intermediate, response),
            TaskView::ComputeNextInner(t) => t.execute(cache, intermediate, response),
        }
    }
}

/// The full task plan of one verification run with `n_inner` inner FRI
/// layers: the task tree flattened in execution order. The data-dependent
/// per-coset folds are not part of the plan; they schedule themselves at
/// run time.
pub open spec fn spec_plan(n_inner: nat) -> Seq<Tasks> {
    spec_plan_prefix() + spec_layers_plan(n_inner) + spec_plan_suffix()
}

/// Everything up to and including the layer fan-out, in execution order.
pub open spec fn spec_plan_prefix() -> Seq<Tasks> {
    seq![
        Tasks::VerifyProofWithoutStark,
        Tasks::StarkCommit,
        Tasks::StarkCommitOodsCoef,
        Tasks::StarkCommitFri,
        Tasks::StarkCommitAssign,
        Tasks::GenerateQueries,
        Tasks::StarkVerify,
        Tasks::TableDecommit(TableDecommitTarget::Original),
        Tasks::TableDecommit(TableDecommitTarget::Interaction),
        Tasks::TableDecommit(TableDecommitTarget::Composition),
        Tasks::StarkVerifyFri,
        Tasks::StarkVerifyLayersTask,
    ]
}

/// The plans of the first `n` inner layers, one after another.
pub open spec fn spec_layers_plan(n: nat) -> Seq<Tasks>
    decreases n,
{
    if n == 0 {
        Seq::empty()
    } else {
        spec_layers_plan((n - 1) as nat) + spec_layer_plan((n - 1) as u8)
    }
}

/// One inner layer's plan: the layer task, then its sub-tasks in
/// execution order.
pub open spec fn spec_layer_plan(i: u8) -> Seq<Tasks> {
    seq![
        Tasks::StarkVerifyFriLayer(i),
        Tasks::ComputeNextLayer(i),
        Tasks::StarkVerifyLayerDecommitmentMont(i),
        Tasks::TableDecommit(TableDecommitTarget::Fri(i)),
        Tasks::StarkVerifyLayerAssignNext,
    ]
}

/// What comes after the layers, in execution order.
pub open spec fn spec_plan_suffix() -> Seq<Tasks> {
    seq![Tasks::StarkVerifyLastLayerTask, Tasks::VerifyOutput]
}

/// Builds the task plan of a run with `n_inner` inner layers.
pub fn plan_tasks(n_inner: u8) -> (r: Vec<Tasks>)
    ensures
        r@ =~= spec_plan(n_inner as nat),
{
    let mut r: Vec<Tasks> = Vec::new();
    r.push(Tasks::VerifyProofWithoutStark);
    r.push(Tasks::StarkCommit);
    r.push(Tasks::StarkCommitOodsCoef);
    r.push(Tasks::StarkCommitFri);
    r.push(Tasks::StarkCommitAssign);
    r.push(Tasks::GenerateQueries);
    r.push(Tasks::StarkVerify);
    r.push(Tasks::TableDecommit(TableDecommitTarget::Original));
    r.push(Tasks::TableDecommit(TableDecommitTarget::Interaction));
    r.push(Tasks::TableDecommit(TableDecommitTarget::Composition));
    r.push(Tasks::StarkVerifyFri);
    r.push(Tasks::StarkVerifyLayersTask);
    proof {
        assert(r@ =~= spec_plan_prefix() + spec_layers_plan(0));
    }
    let mut i: u8 = 0;
    while i < n_inner
        invariant
            i <= n_inner,
            r@ =~= spec_plan_prefix() + spec_layers_plan(i as nat),
        decreases n_inner - i,
    {
        r.push(Tasks::StarkVerifyFriLayer(i));
        r.push(Tasks::ComputeNextLayer(i));
        r.push(Tasks::StarkVerifyLayerDecommitmentMont(i));
        r.push(Tasks::TableDecommit(TableDecommitTarget::Fri(i)));
        r.push(Tasks::StarkVerifyLayerAssignNext);
        proof {
            assert(spec_layers_plan((i + 1) as nat) =~= spec_layers_plan(i as nat)
                + spec_layer_plan(i));
            assert(r@ =~= spec_plan_prefix() + spec_layers_plan((i + 1) as nat));
        }
        i = i + 1;
    }
    r.push(Tasks::StarkVerifyLastLayerTask);
    r.push(Tasks::VerifyOutput);
    r
}

} // verus!
