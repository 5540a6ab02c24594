use vstd::prelude::*;

pub mod assign;
pub mod fri_commit;
pub mod oods_coef;

verus! {

use crate::cache::Cache;
use crate::error::ProgramError;
use crate::intermediate::{Intermediate, StarkCommitIntermediate, VerifyIntermediate};
use crate::response::TaskResponse;
use crate::task::Tasks;

/// The first commitment step. Its executor commits to the traces, draws
/// the composition challenge, commits to the composition polynomial,
/// draws the interaction challenge, reads the OODS values into the
/// transcript, and checks that trace and composition agree at the OODS
/// point. The task persists the partial commitment and fans out the
/// remaining commitment steps.
#[derive(Debug, Clone, Copy, PartialEq, Eq)]
pub struct StarkCommitTask;

impl StarkCommitTask {
    pub fn view() -> (r: StarkCommitTask)
        ensures
            r == (StarkCommitTask),
    {
        StarkCommitTask
    }

    /// The task succeeds exactly when the executor's OODS consistency
    /// check passed and handed in the partial commitment.
    pub open spec fn accepts(
        &self,
        old_c: Cache,
        old_i: Intermediate,
        response: TaskResponse,
    ) -> bool {
        response is StarkCommit
    }

    /// The remaining commitment steps, in execution order.
    pub open spec fn spec_children(
        &self,
        old_c: Cache,
        old_i: Intermediate,
        response: TaskResponse,
    ) -> Seq<Tasks> {
        seq![Tasks::StarkCommitOodsCoef, Tasks::StarkCommitFri, Tasks::StarkCommitAssign]
    }

    /// The task's complete effect: the partial commitment lands in the
    /// scratch intermediate, the transcript advances, everything else is
    /// untouched, and the remaining commitment steps are the children.
    pub open spec fn applies(
        &self,
        old_c: Cache,
        old_i: Intermediate,
        new_c: Cache,
        new_i: Intermediate,
        children: Seq<Tasks>,
        response: TaskResponse,
    ) -> bool {
        &&& response matches TaskResponse::StarkCommit {
            traces,
            composition_alpha,
            composition_root,
            interaction_after_composition,
            transcript,
        }
        &&& new_i =~= (Intermediate {
            verify: (VerifyIntermediate { transcript: Some(transcript), ..old_i.verify }),
            stark_commit: (StarkCommitIntermediate {
                traces_commitment: Some(traces),
                composition_alpha: Some(composition_alpha),
                composition_root: Some(composition_root),
                interaction_after_composition: Some(interaction_after_composition),
                ..old_i.stark_commit
            }),
            ..old_i
        })
        &&& new_c == old_c
        &&& children =~= self.spec_children(old_c, old_i, response)
    }

    /// The remaining commitment steps, in execution order.
    pub fn children(&self) -> (r: Vec<Tasks>)
        ensures
            r@ =~= seq![
                Tasks::StarkCommitOodsCoef,
                Tasks::StarkCommitFri,
                Tasks::StarkCommitAssign,
            ],
    {
        let mut r: Vec<Tasks> = Vec::new();
        r.push(Tasks::StarkCommitOodsCoef);
        r.push(Tasks::StarkCommitFri);
        r.push(Tasks::StarkCommitAssign);
        r
    }

    /// Persists the partial commitment: succeeds exactly when
    /// [`Self::accepts`] holds, with the effect [`Self::applies`] states.
    /// When the OODS check rejected the proof, the executor's code comes
    /// back and the account is untouched.
    pub fn execute(
        &self,
        cache: &mut Cache,
        intermediate: &mut Intermediate,
        response: TaskResponse,
    ) -> (r: Result<Vec<Tasks>, ProgramError>)
        ensures
            r is Ok <==> self.accepts(*old(cache), *old(intermediate), response),
            r matches Ok(children) ==> self.applies(
                *old(cache),
                *old(intermediate),
                *final(cache),
                *final(intermediate),
                children@,
                response,
            ),
            r is Err ==> *final(cache) == *old(cache) && *final(intermediate) == *old(
                intermediate,
            ),
            r matches Err(e) ==> {
                &&& (response matches TaskResponse::Failed { code } ==> e
                    == ProgramError::VerificationFailed(code))
                &&& (!(response is Failed) ==> e == ProgramError::ResponseMismatch)
            },
    {
        match response {
            TaskResponse::StarkCommit {
                traces,
                composition_alpha,
                composition_root,
                interaction_after_composition,
                transcript,
            } => {
                intermediate.stark_commit.traces_commitment = Some(traces);
                intermediate.stark_commit.composition_alpha = Some(composition_alpha);
                intermediate.stark_commit.composition_root = Some(composition_root);
                intermediate.stark_commit.interaction_after_composition = Some(
                    interaction_after_composition,
                );
                intermediate.verify.transcript = Some(transcript);
                Ok(self.children())
            },
            TaskResponse::Failed { code } => Err(ProgramError::VerificationFailed(code)),
            _ => Err(ProgramError::ResponseMismatch),
        }
    }
}

} // verus!
