use vstd::prelude::*;

pub mod fri_verify_layers;
pub mod last_layer;

verus! {

use crate::cache::{Cache, FriCache, FriQuery};
use crate::error::ProgramError;
use crate::intermediate::Intermediate;
use crate::response::TaskResponse;
use crate::task::Tasks;

/// Starts the FRI phase. Checks that the boundary evaluations pair up
/// with the query indices — the invalid-length failure of the FRI
/// protocol — and gathers the first layer's queries: one query per index,
/// carrying its evaluation and the inverse of its shifted x-coordinate.
#[derive(Debug, Clone, Copy, PartialEq, Eq)]
pub struct StarkVerifyFriTask;

impl StarkVerifyFriTask {
    pub fn view() -> (r: StarkVerifyFriTask)
        ensures
            r == (StarkVerifyFriTask),
    {
        StarkVerifyFriTask
    }

    /// The persisted evaluations and points pair up with the query
    /// indices, one of each per query.
    pub open spec fn lists_paired(old_i: Intermediate) -> bool {
        &&& old_i.verify.queries@.len() == old_i.stark_verify.evaluations@.len()
        &&& old_i.verify.queries@.len() == old_i.stark_verify.points@.len()
    }

    /// The task succeeds exactly when the three lists pair up and the
    /// executor handed in one inverted x-coordinate per query.
    pub open spec fn accepts(
        &self,
        old_c: Cache,
        old_i: Intermediate,
        response: TaskResponse,
    ) -> bool {
        &&& response matches TaskResponse::StarkVerifyFri { x_inv_values }
        &&& Self::lists_paired(old_i)
        &&& x_inv_values@.len() == old_i.verify.queries@.len()
    }

    /// The inner layers, then the last layer, in execution order.
    pub open spec fn spec_children(
        &self,
        old_c: Cache,
        old_i: Intermediate,
        response: TaskResponse,
    ) -> Seq<Tasks> {
        seq![Tasks::StarkVerifyLayersTask, Tasks::StarkVerifyLastLayerTask]
    }

    /// The task's complete effect: the FRI working queries pair entry `i`
    /// of the query indices with its evaluation and its inverted
    /// x-coordinate; nothing else in the account changes.
    pub open spec fn applies(
        &self,
        old_c: Cache,
        old_i: Intermediate,
        new_c: Cache,
        new_i: Intermediate,
        children: Seq<Tasks>,
        response: TaskResponse,
    ) -> bool {
        &&& response matches TaskResponse::StarkVerifyFri { x_inv_values }
        &&& new_i == old_i
        &&& new_c == (Cache {
            fri: (FriCache { fri_queries: new_c.fri.fri_queries, ..old_c.fri }),
        })
        &&& new_c.fri.fri_queries@.len() == old_i.verify.queries@.len()
        &&& forall|i: int|
            0 <= i < new_c.fri.fri_queries@.len() ==> #[trigger] new_c.fri.fri_queries@[i]
                == (FriQuery {
                index: old_i.verify.queries@[i],
                y_value: old_i.stark_verify.evaluations@[i],
                x_inv_value: x_inv_values@[i],
            })
        &&& children =~= self.spec_children(old_c, old_i, response)
    }

    /// The inner layers, then the last layer, in execution order.
    pub fn children(&self) -> (r: Vec<Tasks>)
        ensures
            r@ =~= seq![Tasks::StarkVerifyLayersTask, Tasks::StarkVerifyLastLayerTask],
    {
        let mut r: Vec<Tasks> = Vec::new();
        r.push(Tasks::StarkVerifyLayersTask);
        r.push(Tasks::StarkVerifyLastLayerTask);
        r
    }

    /// Fills the FRI working queries: succeeds exactly when
    /// [`Self::accepts`] holds, with the effect [`Self::applies`] states.
    /// Fails with the invalid-length code exactly when the persisted
    /// evaluations or points do not pair up with the query indices; an
    /// inverted-coordinate list of the wrong length is a mismatched
    /// response. Failures leave the account untouched.
    pub fn execute(
        &self,
        cache: &mut Cache,
        intermediate: &mut Intermediate,
        response: TaskResponse,
    ) -> (r: Result<Vec<Tasks>, ProgramError>)
        ensures
            r is Ok <==> self.accepts(*old(cache), *old(intermediate), response),
            r matches Ok(children) ==> self.applies(
                *old(cache),
                *old(intermediate),
                *final(cache),
                *final(intermediate),
                children@,
                response,
            ),
            r is Err ==> *final(cache) == *old(cache) && *final(intermediate) == *old(
                intermediate,
            ),
            r matches Err(e) ==> {
                &&& (response matches TaskResponse::Failed { code } ==> e
                    == ProgramError::VerificationFailed(code))
                &&& (response is StarkVerifyFri && !Self::lists_paired(*old(intermediate)) ==> e
                    == ProgramError::InvalidLength)
                &&& (response is StarkVerifyFri && Self::lists_paired(*old(intermediate)) ==> e
                    == ProgramError::ResponseMismatch)
            },
    {
        match response {
            TaskResponse::StarkVerifyFri { x_inv_values } => {
                let queries = &intermediate.verify.queries;
                let evaluations = &intermediate.stark_verify.evaluations;
                let points = &intermediate.stark_verify.points;
                if queries.len() != evaluations.len() || queries.len() != points.len() {
                    return Err(ProgramError::InvalidLength);
                }
                if x_inv_values.len() != queries.len() {
                    return Err(ProgramError::ResponseMismatch);
                }
                let mut fri_queries: Vec<FriQuery> = Vec::new();
                let mut i: usize = 0;
                while i < queries.len()
                    invariant
                        i <= queries@.len(),
                        queries@.len() == evaluations@.len(),
                        queries@.len() == x_inv_values@.len(),
                        fri_queries@.len() == i,
                        forall|j: int|
                            0 <= j < i ==> #[trigger] fri_queries@[j] == (FriQuery {
                                index: queries@[j],
                                y_value: evaluations@[j],
                                x_inv_value: x_inv_values@[j],
                            }),
                    decreases queries@.len() - i,
                {
                    fri_queries.push(
                        FriQuery {
                            index: queries[i],
                            y_value: evaluations[i],
                            x_inv_value: x_inv_values[i],
                        },
                    );
                    i = i + 1;
                }
                cache.fri.fri_queries = fri_queries;
                Ok(self.children())
            },
            TaskResponse::Failed { code } => Err(ProgramError::VerificationFailed(code)),
            _ => Err(ProgramError::ResponseMismatch),
        }
    }
}

} // verus!
