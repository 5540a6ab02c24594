use vstd::prelude::*;

pub mod generate_queries;
pub mod stark_commit;
pub mod stark_verify;
pub mod verify_output;

verus! {

use crate::cache::Cache;
use crate::error::ProgramError;
use crate::intermediate::{Intermediate, VerifyIntermediate};
use crate::response::TaskResponse;
use crate::task::Tasks;

/// The root task. Its executor derives the column counts from the public
/// input, validates the proof configuration against the security target,
/// constructs the domains, validates the public input against them, and
/// seeds the Fiat-Shamir transcript from the public-input hash. The task
/// persists all of that into `intermediate.verify` and fans out the four
/// phases of the verification.
#[derive(Debug, Clone, Copy, PartialEq, Eq)]
pub struct VerifyProofTask;

impl VerifyProofTask {
    /// The root task's view: it needs no payload and reads only the proof
    /// bytes, which the executor parses.
    pub fn view() -> (r: VerifyProofTask)
        ensures
            r == (VerifyProofTask),
    {
        VerifyProofTask
    }

    /// The task succeeds exactly when the executor's checks passed and
    /// handed in the root results.
    pub open spec fn accepts(
        &self,
        old_c: Cache,
        old_i: Intermediate,
        response: TaskResponse,
    ) -> bool {
        response is VerifyProofRoot
    }

    /// The four verification phases, in execution order.
    pub open spec fn spec_children(
        &self,
        old_c: Cache,
        old_i: Intermediate,
        response: TaskResponse,
    ) -> Seq<Tasks> {
        seq![Tasks::StarkCommit, Tasks::GenerateQueries, Tasks::StarkVerify, Tasks::VerifyOutput]
    }

    /// The task's complete effect: the root-owned slots of
    /// `intermediate.verify` take the response's values, every other
    /// region is untouched, and the four phases are the children.
    pub open spec fn applies(
        &self,
        old_c: Cache,
        old_i: Intermediate,
        new_c: Cache,
        new_i: Intermediate,
        children: Seq<Tasks>,
        response: TaskResponse,
    ) -> bool {
        &&& response matches TaskResponse::VerifyProofRoot {
            n_original_columns,
            n_interaction_columns,
            config,
            domains,
            transcript,
        }
        &&& new_i =~= (Intermediate {
            verify: (VerifyIntermediate {
                n_original_columns: n_original_columns,
                n_interaction_columns: n_interaction_columns,
                config: Some(config),
                stark_domains: Some(domains),
                transcript: Some(transcript),
                ..old_i.verify
            }),
            ..old_i
        })
        &&& new_c == old_c
        &&& children =~= self.spec_children(old_c, old_i, response)
    }

    /// The four verification phases, in execution order.
    pub fn children(&self) -> (r: Vec<Tasks>)
        ensures
            r@ =~= seq![
                Tasks::StarkCommit,
                Tasks::GenerateQueries,
                Tasks::StarkVerify,
                Tasks::VerifyOutput,
            ],
    {
        let mut r: Vec<Tasks> = Vec::new();
        r.push(Tasks::StarkCommit);
        r.push(Tasks::GenerateQueries);
        r.push(Tasks::StarkVerify);
        r.push(Tasks::VerifyOutput);
        r
    }

    /// Persists the root task's results: succeeds exactly when
    /// [`Self::accepts`] holds, with the effect [`Self::applies`] states;
    /// any failure leaves the account untouched.
    pub fn execute(
        &self,
        cache: &mut Cache,
        intermediate: &mut Intermediate,
        response: TaskResponse,
    ) -> (r: Result<Vec<Tasks>, ProgramError>)
        ensures
            r is Ok <==> self.accepts(*old(cache), *old(intermediate), response),
            r matches Ok(children) ==> self.applies(
                *old(cache),
                *old(intermediate),
                *final(cache),
                *final(intermediate),
                children@,
                response,
            ),
            r is Err ==> *final(cache) == *old(cache) && *final(intermediate) == *old(
                intermediate,
            ),
            r matches Err(e) ==> {
                &&& (response matches TaskResponse::Failed { code } ==> e
                    == ProgramError::VerificationFailed(code))
                &&& (!(response is Failed) ==> e == ProgramError::ResponseMismatch)
            },
    {
        match response {
            TaskResponse::VerifyProofRoot {
                n_original_columns,
                n_interaction_columns,
                config,
                domains,
                transcript,
            } => {
                intermediate.verify.n_original_columns = n_original_columns;
                intermediate.verify.n_interaction_columns = n_interaction_columns;
                intermediate.verify.config = Some(config);
                intermediate.verify.stark_domains = Some(domains);
                intermediate.verify.transcript = Some(transcript);
                Ok(self.children())
            },
            TaskResponse::Failed { code } => Err(ProgramError::VerificationFailed(code)),
            _ => Err(ProgramError::ResponseMismatch),
        }
    }
}

} // verus!
