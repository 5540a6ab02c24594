use vstd::prelude::*;

pub mod fri_verify;
pub mod table_decommit;

verus! {

use crate::cache::Cache;
use crate::error::ProgramError;
use crate::intermediate::{Intermediate, StarkVerifyIntermediate};
use crate::response::TaskResponse;
use crate::task::{TableDecommitTarget, Tasks};

/// Converts the query indices to query points and evaluates the OODS
/// boundary polynomial at them; the task persists both lists, one entry
/// per query, and fans out the decommitments and the FRI phase.
#[derive(Debug, Clone, Copy, PartialEq, Eq)]
pub struct StarkVerifyTask;

impl StarkVerifyTask {
    pub fn view() -> (r: StarkVerifyTask)
        ensures
            r == (StarkVerifyTask),
    {
        StarkVerifyTask
    }

    /// The task succeeds exactly when the executor handed in one point
    /// and one evaluation per query index.
    pub open spec fn accepts(
        &self,
        old_c: Cache,
        old_i: Intermediate,
        response: TaskResponse,
    ) -> bool {
        &&& response matches TaskResponse::StarkVerify { points, evaluations }
        &&& points@.len() == old_i.verify.queries@.len()
        &&& evaluations@.len() == old_i.verify.queries@.len()
    }

    /// The three Merkle decommitments and the FRI phase, in execution
    /// order.
    pub open spec fn spec_children(
        &self,
        old_c: Cache,
        old_i: Intermediate,
        response: TaskResponse,
    ) -> Seq<Tasks> {
        seq![
            Tasks::TableDecommit(TableDecommitTarget::Original),
            Tasks::TableDecommit(TableDecommitTarget::Interaction),
            Tasks::TableDecommit(TableDecommitTarget::Composition),
            Tasks::StarkVerifyFri,
        ]
    }

    /// The task's complete effect: the query points and boundary
    /// evaluations are stored, everything else is untouched, and the
    /// decommitments and FRI phase are the children.
    pub open spec fn applies(
        &self,
        old_c: Cache,
        old_i: Intermediate,
        new_c: Cache,
        new_i: Intermediate,
        children: Seq<Tasks>,
        response: TaskResponse,
    ) -> bool {
        &&& response matches TaskResponse::StarkVerify { points, evaluations }
        &&& new_i =~= (Intermediate {
            stark_verify: (StarkVerifyIntermediate { points: points, evaluations: evaluations }),
            ..old_i
        })
        &&& new_c == old_c
        &&& children =~= self.spec_children(old_c, old_i, response)
    }

    /// The three Merkle decommitments and the FRI phase, in execution
    /// order.
    pub fn children(&self) -> (r: Vec<Tasks>)
        ensures
            r@ =~= seq![
                Tasks::TableDecommit(TableDecommitTarget::Original),
                Tasks::TableDecommit(TableDecommitTarget::Interaction),
                Tasks::TableDecommit(TableDecommitTarget::Composition),
                Tasks::StarkVerifyFri,
            ],
    {
        let mut r: Vec<Tasks> = Vec::new();
        r.push(Tasks::TableDecommit(TableDecommitTarget::Original));
        r.push(Tasks::TableDecommit(TableDecommitTarget::Interaction));
        r.push(Tasks::TableDecommit(TableDecommitTarget::Composition));
        r.push(Tasks::StarkVerifyFri);
        r
    }

    /// Stores the query points and boundary evaluations: succeeds exactly
    /// when [`Self::accepts`] holds, with the effect [`Self::applies`]
    /// states. Lists that do not pair up with the query indices are
    /// rejected as a mismatched response; failures leave the account
    /// untouched.
    pub fn execute(
        &self,
        cache: &mut Cache,
        intermediate: &mut Intermediate,
        response: TaskResponse,
    ) -> (r: Result<Vec<Tasks>, ProgramError>)
        ensures
            r is Ok <==> self.accepts(*old(cache), *old(intermediate), response),
            r matches Ok(children) ==> self.applies(
                *old(cache),
                *old(intermediate),
                *final(cache),
                *final(intermediate),
                children@,
                response,
            ),
            r is Err ==> *final(cache) == *old(cache) && *final(intermediate) == *old(
                intermediate,
            ),
            r matches Err(e) ==> {
                &&& (response matches TaskResponse::Failed { code } ==> e
                    == ProgramError::VerificationFailed(code))
                &&& (!(response is Failed) ==> e == ProgramError::ResponseMismatch)
            },
    {
        match response {
            TaskResponse::StarkVerify { points, evaluations } => {
                if points.len() != intermediate.verify.queries.len() || evaluations.len()
                    != intermediate.verify.queries.len() {
                    return Err(ProgramError::ResponseMismatch);
                }
                intermediate.stark_verify.points = points;
                intermediate.stark_verify.evaluations = evaluations;
                Ok(self.children())
            },
            TaskResponse::Failed { code } => Err(ProgramError::VerificationFailed(code)),
            _ => Err(ProgramError::ResponseMismatch),
        }
    }
}

} // verus!
