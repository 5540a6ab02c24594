use vstd::prelude::*;

verus! {

use crate::cache::Cache;
use crate::error::ProgramError;
use crate::intermediate::{Intermediate, VerifyOutputIntermediate};
use crate::response::TaskResponse;
use crate::task::Tasks;

/// Runs the layout's public-input verifier, which yields the program hash
/// and the public output sequence; the task persists both so the caller
/// can observe the verified result.
#[derive(Debug, Clone, Copy, PartialEq, Eq)]
pub struct VerifyOutputTask;

impl VerifyOutputTask {
    pub fn view() -> (r: VerifyOutputTask)
        ensures
            r == (VerifyOutputTask),
    {
        VerifyOutputTask
    }

    /// The task succeeds exactly when the executor's public-input
    /// verifier passed and handed in the result.
    pub open spec fn accepts(
        &self,
        old_c: Cache,
        old_i: Intermediate,
        response: TaskResponse,
    ) -> bool {
        response is VerifyOutput
    }

    /// A leaf task.
    pub open spec fn spec_children(
        &self,
        old_c: Cache,
        old_i: Intermediate,
        response: TaskResponse,
    ) -> Seq<Tasks> {
        Seq::empty()
    }

    /// The task's complete effect: the program hash and output sequence
    /// are stored; everything else is untouched.
    pub open spec fn applies(
        &self,
        old_c: Cache,
        old_i: Intermediate,
        new_c: Cache,
        new_i: Intermediate,
        children: Seq<Tasks>,
        response: TaskResponse,
    ) -> bool {
        &&& response matches TaskResponse::VerifyOutput { program_hash, output }
        &&& new_i =~= (Intermediate {
            verify_output: (VerifyOutputIntermediate {
                output: output,
                program_hash: Some(program_hash),
            }),
            ..old_i
        })
        &&& new_c == old_c
        &&& children =~= self.spec_children(old_c, old_i, response)
    }

    /// A leaf task.
    pub fn children(&self) -> (r: Vec<Tasks>)
        ensures
            r@ =~= Seq::<Tasks>::empty(),
    {
        Vec::new()
    }

    /// Stores the program hash and the output sequence: succeeds exactly
    /// when [`Self::accepts`] holds, with the effect [`Self::applies`]
    /// states; any failure leaves the account untouched.
    pub fn execute(
        &self,
        cache: &mut Cache,
        intermediate: &mut Intermediate,
        response: TaskResponse,
    ) -> (r: Result<Vec<Tasks>, ProgramError>)
        ensures
            r is Ok <==> self.accepts(*old(cache), *old(intermediate), response),
            r matches Ok(children) ==> self.applies(
                *old(cache),
                *old(intermediate),
                *final(cache),
                *final(intermediate),
                children@,
                response,
            ),
            r is Err ==> *final(cache) == *old(cache) && *final(intermediate) == *old(
                intermediate,
            ),
            r matches Err(e) ==> {
                &&& (response matches TaskResponse::Failed { code } ==> e
                    == ProgramError::VerificationFailed(code))
                &&& (!(response is Failed) ==> e == ProgramError::ResponseMismatch)
            },
    {
        match response {
            TaskResponse::VerifyOutput { program_hash, output } => {
                intermediate.verify_output.program_hash = Some(program_hash);
                intermediate.verify_output.output = output;
                Ok(self.children())
            },
            TaskResponse::Failed { code } => Err(ProgramError::VerificationFailed(code)),
            _ => Err(ProgramError::ResponseMismatch),
        }
    }
}

} // verus!
