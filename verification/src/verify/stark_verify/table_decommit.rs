use vstd::prelude::*;

verus! {

use crate::cache::Cache;
use crate::error::ProgramError;
use crate::intermediate::Intermediate;
use crate::response::TaskResponse;
use crate::task::{TableDecommitTarget, Tasks};

/// Verifies one Merkle authentication batch. The target selects which
/// commitment, decommitment and witness triple the executor consumes: the
/// original or interaction trace, the composition polynomial, or an inner
/// FRI layer's witness against the context loaded for it. The account is
/// not changed; the task either passes or fails the invocation.
#[derive(Debug, Clone, Copy, PartialEq, Eq)]
pub struct TableDecommitTask {
    pub target: TableDecommitTarget,
}

impl TableDecommitTask {
    /// The view selects the decommit target.
    pub fn view(target: TableDecommitTarget) -> (r: TableDecommitTask)
        ensures
            r == (TableDecommitTask { target }),
    {
        TableDecommitTask { target }
    }

    /// The task succeeds exactly when the target is a real one and the
    /// executor's Merkle check passed.
    pub open spec fn accepts(
        &self,
        old_c: Cache,
        old_i: Intermediate,
        response: TaskResponse,
    ) -> bool {
        &&& !(self.target is Invalid)
        &&& response is TableDecommit
    }

    /// A leaf task.
    pub open spec fn spec_children(
        &self,
        old_c: Cache,
        old_i: Intermediate,
        response: TaskResponse,
    ) -> Seq<Tasks> {
        Seq::empty()
    }

    /// The task's complete effect: nothing in the account changes.
    pub open spec fn applies(
        &self,
        old_c: Cache,
        old_i: Intermediate,
        new_c: Cache,
        new_i: Intermediate,
        children: Seq<Tasks>,
        response: TaskResponse,
    ) -> bool {
        &&& new_i == old_i
        &&& new_c == old_c
        &&& children =~= self.spec_children(old_c, old_i, response)
    }

    /// A leaf task.
    pub fn children(&self) -> (r: Vec<Tasks>)
        ensures
            r@ =~= Seq::<Tasks>::empty(),
    {
        Vec::new()
    }

    /// Passes exactly when [`Self::accepts`] holds: the zero target,
    /// which no real descriptor carries, is rejected with the
    /// unknown-target code, and a failed Merkle check comes back under
    /// the executor's code. Nothing in the account changes either way.
    pub fn execute(
        &self,
        cache: &mut Cache,
        intermediate: &mut Intermediate,
        response: TaskResponse,
    ) -> (r: Result<Vec<Tasks>, ProgramError>)
        ensures
            r is Ok <==> self.accepts(*old(cache), *old(intermediate), response),
            r matches Ok(children) ==> self.applies(
                *old(cache),
                *old(intermediate),
                *final(cache),
                *final(intermediate),
                children@,
                response,
            ),
            *final(cache) == *old(cache) && *final(intermediate) == *old(intermediate),
            r matches Err(e) ==> {
                &&& (self.target is Invalid ==> e == ProgramError::UnknownDecommitTarget)
                &&& (!(self.target is Invalid) ==> (response matches TaskResponse::Failed {
                    code,
                } ==> e == ProgramError::VerificationFailed(code)))
                &&& (!(self.target is Invalid) && !(response is Failed) ==> e
                    == ProgramError::ResponseMismatch)
            },
    {
        if matches!(self.target, TableDecommitTarget::Invalid) {
            return Err(ProgramError::UnknownDecommitTarget);
        }
        match response {
            TaskResponse::TableDecommit => Ok(self.children()),
            TaskResponse::Failed { code } => Err(ProgramError::VerificationFailed(code)),
            _ => Err(ProgramError::ResponseMismatch),
        }
    }
}

} // verus!
