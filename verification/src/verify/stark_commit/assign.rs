use vstd::prelude::*;

verus! {

use crate::cache::Cache;
use crate::error::ProgramError;
use crate::intermediate::{
    FriCommitment, Intermediate, StarkCommitment, TracesCommitment, VerifyIntermediate,
};
use crate::response::TaskResponse;
use crate::task::Tasks;

/// The last commitment step. Its executor performs the proof-of-work
/// check; the task then copies the finalised commitment values from the
/// scratch intermediate into the canonical snapshot, together with the
/// proof's OODS values and the OODS coefficients.
#[derive(Debug, Clone, Copy, PartialEq, Eq)]
pub struct StarkCommitAssignTask;

impl StarkCommitAssignTask {
    pub fn view() -> (r: StarkCommitAssignTask)
        ensures
            r == (StarkCommitAssignTask),
    {
        StarkCommitAssignTask
    }

    /// Every earlier commit task has left its scratch slot filled.
    pub open spec fn scratch_ready(old_i: Intermediate) -> bool {
        &&& old_i.stark_commit.traces_commitment is Some
        &&& old_i.stark_commit.composition_root is Some
        &&& old_i.stark_commit.interaction_after_composition is Some
        &&& old_i.stark_commit.fri_commitment is Some
    }

    /// The task succeeds exactly when the proof-of-work check passed and
    /// every earlier commit task's scratch slot is present.
    pub open spec fn accepts(
        &self,
        old_c: Cache,
        old_i: Intermediate,
        response: TaskResponse,
    ) -> bool {
        &&& response is StarkCommitAssign
        &&& Self::scratch_ready(old_i)
    }

    /// A leaf task.
    pub open spec fn spec_children(
        &self,
        old_c: Cache,
        old_i: Intermediate,
        response: TaskResponse,
    ) -> Seq<Tasks> {
        Seq::empty()
    }

    /// The task's complete effect: the canonical snapshot holds the
    /// traces and composition commitments and the interaction challenge
    /// exactly as the scratch intermediate does, the OODS values as the
    /// executor read them from the proof, and the OODS coefficients as
    /// StarkCommitOodsCoef left them; the transcript advances and
    /// everything else is untouched.
    pub open spec fn applies(
        &self,
        old_c: Cache,
        old_i: Intermediate,
        new_c: Cache,
        new_i: Intermediate,
        children: Seq<Tasks>,
        response: TaskResponse,
    ) -> bool {
        &&& response matches TaskResponse::StarkCommitAssign { oods_values, transcript }
        &&& old_i.stark_commit.traces_commitment matches Some(traces)
        &&& old_i.stark_commit.composition_root matches Some(composition_root)
        &&& old_i.stark_commit.interaction_after_composition matches Some(iac)
        &&& old_i.stark_commit.fri_commitment matches Some(fri)
        &&& new_i.verify.stark_commitment matches Some(sc)
        &&& sc.traces.original_root == traces.original_root
        &&& sc.traces.interaction_root == traces.interaction_root
        &&& sc.traces.interaction_elements@ =~= traces.interaction_elements@
        &&& sc.composition_root == composition_root
        &&& sc.interaction_after_composition == iac
        &&& sc.oods_values == oods_values
        &&& sc.interaction_after_oods@ =~= old_i.stark_commit.oods_coefficients@
        &&& sc.fri.inner_layer_roots@ =~= fri.inner_layer_roots@
        &&& sc.fri.eval_points@ =~= fri.eval_points@
        &&& sc.fri.last_layer_coefficients@ =~= fri.last_layer_coefficients@
        &&& new_i.verify.transcript == Some(transcript)
        &&& new_i.verify.n_original_columns == old_i.verify.n_original_columns
        &&& new_i.verify.n_interaction_columns == old_i.verify.n_interaction_columns
        &&& new_i.verify.config == old_i.verify.config
        &&& new_i.verify.stark_domains == old_i.verify.stark_domains
        &&& new_i.verify.queries == old_i.verify.queries
        &&& new_i.verify_output == old_i.verify_output
        &&& new_i.stark_commit == old_i.stark_commit
        &&& new_i.stark_verify == old_i.stark_verify
        &&& new_c == old_c
        &&& children =~= self.spec_children(old_c, old_i, response)
    }

    /// A leaf task.
    pub fn children(&self) -> (r: Vec<Tasks>)
        ensures
            r@ =~= Seq::<Tasks>::empty(),
    {
        Vec::new()
    }

    /// Assembles the canonical commitment snapshot: succeeds exactly when
    /// [`Self::accepts`] holds, with the effect [`Self::applies`] states.
    /// An absent scratch slot is the missing-intermediate error; a failed
    /// proof of work comes back under the executor's code. Failures leave
    /// the account untouched.
    pub fn execute(
        &self,
        cache: &mut Cache,
        intermediate: &mut Intermediate,
        response: TaskResponse,
    ) -> (r: Result<Vec<Tasks>, ProgramError>)
        ensures
            r is Ok <==> self.accepts(*old(cache), *old(intermediate), response),
            r matches Ok(children) ==> self.applies(
                *old(cache),
                *old(intermediate),
                *final(cache),
                *final(intermediate),
                children@,
                response,
            ),
            r is Err ==> *final(cache) == *old(cache) && *final(intermediate) == *old(
                intermediate,
            ),
            r matches Err(e) ==> {
                &&& (response matches TaskResponse::Failed { code } ==> e
                    == ProgramError::VerificationFailed(code))
                &&& (response is StarkCommitAssign && !Self::scratch_ready(*old(intermediate))
                    ==> e == ProgramError::MissingIntermediate)
                &&& (!(response is Failed) && !(response is StarkCommitAssign) ==> e
                    == ProgramError::ResponseMismatch)
            },
    {
        match response {
            TaskResponse::StarkCommitAssign { oods_values, transcript } => {
                let traces = match &intermediate.stark_commit.traces_commitment {
                    Some(t) => (TracesCommitment {
                        original_root: t.original_root,
                        interaction_root: t.interaction_root,
                        interaction_elements: crate::util::copy_vec(&t.interaction_elements),
                    }),
                    None => {
                        return Err(ProgramError::MissingIntermediate);
                    },
                };
                let composition_root = match &intermediate.stark_commit.composition_root {
                    Some(c) => *c,
                    None => {
                        return Err(ProgramError::MissingIntermediate);
                    },
                };
                let iac = match &intermediate.stark_commit.interaction_after_composition {
                    Some(c) => *c,
                    None => {
                        return Err(ProgramError::MissingIntermediate);
                    },
                };
                let fri = match &intermediate.stark_commit.fri_commitment {
                    Some(f) => (FriCommitment {
                        inner_layer_roots: crate::util::copy_vec(&f.inner_layer_roots),
                        eval_points: crate::util::copy_vec(&f.eval_points),
                        last_layer_coefficients: crate::util::copy_vec(&f.last_layer_coefficients),
                    }),
                    None => {
                        return Err(ProgramError::MissingIntermediate);
                    },
                };
                let interaction_after_oods = crate::util::copy_vec(
                    &intermediate.stark_commit.oods_coefficients,
                );
                intermediate.verify.stark_commitment = Some(
                    StarkCommitment {
                        traces,
                        composition_root,
                        interaction_after_composition: iac,
                        oods_values: oods_values,
                        interaction_after_oods,
                        fri,
                    },
                );
                intermediate.verify.transcript = Some(transcript);
                Ok(self.children())
            },
            TaskResponse::Failed { code } => Err(ProgramError::VerificationFailed(code)),
            _ => Err(ProgramError::ResponseMismatch),
        }
    }
}

} // verus!
