use vstd::prelude::*;

verus! {

use crate::cache::Cache;
use crate::error::ProgramError;
use crate::intermediate::{Intermediate, StarkCommitIntermediate, VerifyIntermediate};
use crate::response::TaskResponse;
use crate::task::Tasks;

/// The FRI commitment rounds: the executor reads one tree root per inner
/// layer, draws one evaluation point per round, and reads the last
/// layer's coefficients; the task persists the resulting commitment.
#[derive(Debug, Clone, Copy, PartialEq, Eq)]
pub struct StarkCommitFriTask;

impl StarkCommitFriTask {
    pub fn view() -> (r: StarkCommitFriTask)
        ensures
            r == (StarkCommitFriTask),
    {
        StarkCommitFriTask
    }

    /// The task succeeds exactly when the executor handed in a FRI
    /// commitment whose roots and evaluation points pair up: one
    /// commitment round produces one of each.
    pub open spec fn accepts(
        &self,
        old_c: Cache,
        old_i: Intermediate,
        response: TaskResponse,
    ) -> bool {
        &&& response matches TaskResponse::StarkCommitFri { fri, transcript }
        &&& fri.inner_layer_roots@.len() == fri.eval_points@.len()
    }

    /// A leaf task.
    pub open spec fn spec_children(
        &self,
        old_c: Cache,
        old_i: Intermediate,
        response: TaskResponse,
    ) -> Seq<Tasks> {
        Seq::empty()
    }

    /// The task's complete effect: the FRI commitment lands in the
    /// scratch intermediate, the transcript advances, and everything else
    /// is untouched.
    pub open spec fn applies(
        &self,
        old_c: Cache,
        old_i: Intermediate,
        new_c: Cache,
        new_i: Intermediate,
        children: Seq<Tasks>,
        response: TaskResponse,
    ) -> bool {
        &&& response matches TaskResponse::StarkCommitFri { fri, transcript }
        &&& new_i =~= (Intermediate {
            verify: (VerifyIntermediate { transcript: Some(transcript), ..old_i.verify }),
            stark_commit: (StarkCommitIntermediate {
                fri_commitment: Some(fri),
                ..old_i.stark_commit
            }),
            ..old_i
        })
        &&& new_c == old_c
        &&& children =~= self.spec_children(old_c, old_i, response)
    }

    /// A leaf task.
    pub fn children(&self) -> (r: Vec<Tasks>)
        ensures
            r@ =~= Seq::<Tasks>::empty(),
    {
        Vec::new()
    }

    /// Stores the FRI commitment: succeeds exactly when [`Self::accepts`]
    /// holds, with the effect [`Self::applies`] states. Unpaired roots
    /// and evaluation points are rejected as a mismatched response.
    pub fn execute(
        &self,
        cache: &mut Cache,
        intermediate: &mut Intermediate,
        response: TaskResponse,
    ) -> (r: Result<Vec<Tasks>, ProgramError>)
        ensures
            r is Ok <==> self.accepts(*old(cache), *old(intermediate), response),
            r matches Ok(children) ==> self.applies(
                *old(cache),
                *old(intermediate),
                *final(cache),
                *final(intermediate),
                children@,
                response,
            ),
            r is Err ==> *final(cache) == *old(cache) && *final(intermediate) == *old(
                intermediate,
            ),
            r matches Err(e) ==> {
                &&& (response matches TaskResponse::Failed { code } ==> e
                    == ProgramError::VerificationFailed(code))
                &&& (response is StarkCommitFri ==> e == ProgramError::ResponseMismatch)
            },
    {
        match response {
            TaskResponse::StarkCommitFri { fri, transcript } => {
                if fri.inner_layer_roots.len() != fri.eval_points.len() {
                    return Err(ProgramError::ResponseMismatch);
                }
                intermediate.stark_commit.fri_commitment = Some(fri);
                intermediate.verify.transcript = Some(transcript);
                Ok(self.children())
            },
            TaskResponse::Failed { code } => Err(ProgramError::VerificationFailed(code)),
            _ => Err(ProgramError::ResponseMismatch),
        }
    }
}

} // verus!
