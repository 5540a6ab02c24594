use vstd::prelude::*;

verus! {

use crate::cache::Cache;
use crate::error::ProgramError;
use crate::intermediate::{Intermediate, StarkCommitIntermediate, VerifyIntermediate};
use crate::response::TaskResponse;
use crate::task::Tasks;

/// Draws the OODS challenge and persists its powers array, the
/// coefficients with which the boundary polynomial combines the mask
/// columns.
#[derive(Debug, Clone, Copy, PartialEq, Eq)]
pub struct StarkCommitOodsCoefTask;

impl StarkCommitOodsCoefTask {
    pub fn view() -> (r: StarkCommitOodsCoefTask)
        ensures
            r == (StarkCommitOodsCoefTask),
    {
        StarkCommitOodsCoefTask
    }

    /// The task succeeds exactly when the executor handed in the drawn
    /// challenge and its powers.
    pub open spec fn accepts(
        &self,
        old_c: Cache,
        old_i: Intermediate,
        response: TaskResponse,
    ) -> bool {
        response is StarkCommitOodsCoef
    }

    /// A leaf task.
    pub open spec fn spec_children(
        &self,
        old_c: Cache,
        old_i: Intermediate,
        response: TaskResponse,
    ) -> Seq<Tasks> {
        Seq::empty()
    }

    /// The task's complete effect: the challenge and its powers land in
    /// the scratch intermediate, the transcript advances, and everything
    /// else is untouched.
    pub open spec fn applies(
        &self,
        old_c: Cache,
        old_i: Intermediate,
        new_c: Cache,
        new_i: Intermediate,
        children: Seq<Tasks>,
        response: TaskResponse,
    ) -> bool {
        &&& response matches TaskResponse::StarkCommitOodsCoef {
            oods_alpha,
            oods_coefficients,
            transcript,
        }
        &&& new_i =~= (Intermediate {
            verify: (VerifyIntermediate { transcript: Some(transcript), ..old_i.verify }),
            stark_commit: (StarkCommitIntermediate {
                oods_alpha: Some(oods_alpha),
                oods_coefficients: oods_coefficients,
                ..old_i.stark_commit
            }),
            ..old_i
        })
        &&& new_c == old_c
        &&& children =~= self.spec_children(old_c, old_i, response)
    }

    /// A leaf task.
    pub fn children(&self) -> (r: Vec<Tasks>)
        ensures
            r@ =~= Seq::<Tasks>::empty(),
    {
        Vec::new()
    }

    /// Stores the OODS challenge and its powers: succeeds exactly when
    /// [`Self::accepts`] holds, with the effect [`Self::applies`] states;
    /// any failure leaves the account untouched.
    pub fn execute(
        &self,
        cache: &mut Cache,
        intermediate: &mut Intermediate,
        response: TaskResponse,
    ) -> (r: Result<Vec<Tasks>, ProgramError>)
        ensures
            r is Ok <==> self.accepts(*old(cache), *old(intermediate), response),
            r matches Ok(children) ==> self.applies(
                *old(cache),
                *old(intermediate),
                *final(cache),
                *final(intermediate),
                children@,
                response,
            ),
            r is Err ==> *final(cache) == *old(cache) && *final(intermediate) == *old(
                intermediate,
            ),
            r matches Err(e) ==> {
                &&& (response matches TaskResponse::Failed { code } ==> e
                    == ProgramError::VerificationFailed(code))
                &&& (!(response is Failed) ==> e == ProgramError::ResponseMismatch)
            },
    {
        match response {
            TaskResponse::StarkCommitOodsCoef { oods_alpha, oods_coefficients, transcript } => {
                intermediate.stark_commit.oods_alpha = Some(oods_alpha);
                intermediate.stark_commit.oods_coefficients = oods_coefficients;
                intermediate.verify.transcript = Some(transcript);
                Ok(self.children())
            },
            TaskResponse::Failed { code } => Err(ProgramError::VerificationFailed(code)),
            _ => Err(ProgramError::ResponseMismatch),
        }
    }
}

} // verus!
