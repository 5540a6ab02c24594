use vstd::prelude::*;

pub mod next_inner;

verus! {

use crate::cache::Cache;
use crate::error::ProgramError;
use crate::intermediate::Intermediate;
use crate::response::TaskResponse;
use crate::task::Tasks;

/// Starts a layer's fold. Work too large for one invocation is split by
/// scheduling child tasks, and each ComputeNextInner child folds exactly
/// one coset's worth of queries, so here the decision is merely whether
/// any queries are pending at all.
#[derive(Debug, Clone, Copy, PartialEq, Eq)]
pub struct ComputeNextTask {
    pub layer_index: u8,
}

impl ComputeNextTask {
    /// The view selects the layer the task works on.
    pub fn view(layer_index: u8) -> (r: ComputeNextTask)
        ensures
            r == (ComputeNextTask { layer_index }),
    {
        ComputeNextTask { layer_index }
    }

    /// The task succeeds exactly when the executor confirmed the
    /// decision; it is pure and needs nothing else.
    pub open spec fn accepts(
        &self,
        old_c: Cache,
        old_i: Intermediate,
        response: TaskResponse,
    ) -> bool {
        response is ComputeNextLayer
    }

    /// One inner fold exactly when queries are pending.
    pub open spec fn spec_children(
        &self,
        old_c: Cache,
        old_i: Intermediate,
        response: TaskResponse,
    ) -> Seq<Tasks> {
        if old_c.fri.fri_queries@.len() == 0 {
            Seq::empty()
        } else {
            seq![Tasks::ComputeNextInner(self.layer_index)]
        }
    }

    /// The task's complete effect: pure decision, nothing in the account
    /// changes.
    pub open spec fn applies(
        &self,
        old_c: Cache,
        old_i: Intermediate,
        new_c: Cache,
        new_i: Intermediate,
        children: Seq<Tasks>,
        response: TaskResponse,
    ) -> bool {
        &&& new_i == old_i
        &&& new_c == old_c
        &&& children =~= self.spec_children(old_c, old_i, response)
    }

    /// Pure decision: succeeds exactly when [`Self::accepts`] holds,
    /// scheduling one inner fold exactly when queries are pending;
    /// nothing in the account changes either way.
    pub fn execute(
        &self,
        cache: &mut Cache,
        intermediate: &mut Intermediate,
        response: TaskResponse,
    ) -> (r: Result<Vec<Tasks>, ProgramError>)
        ensures
            r is Ok <==> self.accepts(*old(cache), *old(intermediate), response),
            r matches Ok(children) ==> self.applies(
                *old(cache),
                *old(intermediate),
                *final(cache),
                *final(intermediate),
                children@,
                response,
            ),
            *final(cache) == *old(cache) && *final(intermediate) == *old(intermediate),
            r matches Err(e) ==> {
                &&& (response matches TaskResponse::Failed { code } ==> e
                    == ProgramError::VerificationFailed(code))
                &&& (!(response is Failed) ==> e == ProgramError::ResponseMismatch)
            },
    {
        match response {
            TaskResponse::ComputeNextLayer => {
                let mut children: Vec<Tasks> = Vec::new();
                if cache.fri.fri_queries.len() > 0 {
                    children.push(Tasks::ComputeNextInner(self.layer_index));
                }
                Ok(children)
            },
            TaskResponse::Failed { code } => Err(ProgramError::VerificationFailed(code)),
            _ => Err(ProgramError::ResponseMismatch),
        }
    }
}

} // verus!
