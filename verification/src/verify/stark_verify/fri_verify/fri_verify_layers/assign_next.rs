use vstd::prelude::*;

verus! {

use crate::cache::{Cache, FriCache, FriQuery};
use crate::error::ProgramError;
use crate::intermediate::Intermediate;
use crate::response::TaskResponse;
use crate::task::Tasks;

/// Closes a layer's fold: the queries computed for the next layer move
/// back into the working slot, ready for the next StarkVerifyFriLayer
/// task; the next-layer slot is left empty.
#[derive(Debug, Clone, Copy, PartialEq, Eq)]
pub struct StarkVerifyLayerAssignNextTask;

impl StarkVerifyLayerAssignNextTask {
    pub fn view() -> (r: StarkVerifyLayerAssignNextTask)
        ensures
            r == (StarkVerifyLayerAssignNextTask),
    {
        StarkVerifyLayerAssignNextTask
    }

    /// The task succeeds exactly when the executor confirmed the
    /// hand-over; the move itself needs nothing else.
    pub open spec fn accepts(
        &self,
        old_c: Cache,
        old_i: Intermediate,
        response: TaskResponse,
    ) -> bool {
        response is StarkVerifyLayerAssignNext
    }

    /// A leaf task.
    pub open spec fn spec_children(
        &self,
        old_c: Cache,
        old_i: Intermediate,
        response: TaskResponse,
    ) -> Seq<Tasks> {
        Seq::empty()
    }

    /// The task's complete effect: the next-layer queries become the
    /// working queries, exactly and in order, the next-layer slot is left
    /// empty, and everything else is untouched.
    pub open spec fn applies(
        &self,
        old_c: Cache,
        old_i: Intermediate,
        new_c: Cache,
        new_i: Intermediate,
        children: Seq<Tasks>,
        response: TaskResponse,
    ) -> bool {
        &&& new_i == old_i
        &&& new_c == (Cache {
            fri: (FriCache {
                fri_queries: new_c.fri.fri_queries,
                next_queries: new_c.fri.next_queries,
                ..old_c.fri
            }),
        })
        &&& new_c.fri.fri_queries@ =~= old_c.fri.next_queries@
        &&& new_c.fri.next_queries@ =~= Seq::<FriQuery>::empty()
        &&& children =~= self.spec_children(old_c, old_i, response)
    }

    /// A leaf task.
    pub fn children(&self) -> (r: Vec<Tasks>)
        ensures
            r@ =~= Seq::<Tasks>::empty(),
    {
        Vec::new()
    }

    /// Moves the next-layer queries into the working slot: succeeds
    /// exactly when [`Self::accepts`] holds, with the effect
    /// [`Self::applies`] states; failures leave the account untouched.
    pub fn execute(
        &self,
        cache: &mut Cache,
        intermediate: &mut Intermediate,
        response: TaskResponse,
    ) -> (r: Result<Vec<Tasks>, ProgramError>)
        ensures
            r is Ok <==> self.accepts(*old(cache), *old(intermediate), response),
            r matches Ok(children) ==> self.applies(
                *old(cache),
                *old(intermediate),
                *final(cache),
                *final(intermediate),
                children@,
                response,
            ),
            r is Err ==> *final(cache) == *old(cache) && *final(intermediate) == *old(
                intermediate,
            ),
            r matches Err(e) ==> {
                &&& (response matches TaskResponse::Failed { code } ==> e
                    == ProgramError::VerificationFailed(code))
                &&& (!(response is Failed) ==> e == ProgramError::ResponseMismatch)
            },
    {
        match response {
            TaskResponse::StarkVerifyLayerAssignNext => {
                let mut moved: Vec<FriQuery> = Vec::new();
                core::mem::swap(&mut moved, &mut cache.fri.next_queries);
                cache.fri.fri_queries = moved;
                Ok(self.children())
            },
            TaskResponse::Failed { code } => Err(ProgramError::VerificationFailed(code)),
            _ => Err(ProgramError::ResponseMismatch),
        }
    }
}

} // verus!
