use vstd::prelude::*;

verus! {

use crate::cache::{Cache, FriCache};
use crate::error::ProgramError;
use crate::felt::Felt;
use crate::intermediate::Intermediate;
use crate::response::TaskResponse;
use crate::task::Tasks;

/// Fills the layer's decommitment buffers from the coset values the fold
/// collected: the plain values byte-for-byte, and beside them the same
/// values in Montgomery form as the executor converted them, one for one.
#[derive(Debug, Clone, Copy, PartialEq, Eq)]
pub struct StarkVerifyLayerDecommitmentMontTask {
    pub layer_index: u8,
}

impl StarkVerifyLayerDecommitmentMontTask {
    /// The view selects the layer the task works on.
    pub fn view(layer_index: u8) -> (r: StarkVerifyLayerDecommitmentMontTask)
        ensures
            r == (StarkVerifyLayerDecommitmentMontTask { layer_index }),
    {
        StarkVerifyLayerDecommitmentMontTask { layer_index }
    }

    /// The task succeeds exactly when the executor handed in one
    /// Montgomery value per collected coset value.
    pub open spec fn accepts(
        &self,
        old_c: Cache,
        old_i: Intermediate,
        response: TaskResponse,
    ) -> bool {
        &&& response matches TaskResponse::StarkVerifyLayerDecommitmentMont { montgomery_values }
        &&& montgomery_values@.len() == old_c.fri.verify_y_values@.len()
    }

    /// A leaf task.
    pub open spec fn spec_children(
        &self,
        old_c: Cache,
        old_i: Intermediate,
        response: TaskResponse,
    ) -> Seq<Tasks> {
        Seq::empty()
    }

    /// The task's complete effect: the decommitment buffer is an exact
    /// copy of the collected coset values, the Montgomery buffer pairs up
    /// with it entry for entry, and everything else is untouched.
    pub open spec fn applies(
        &self,
        old_c: Cache,
        old_i: Intermediate,
        new_c: Cache,
        new_i: Intermediate,
        children: Seq<Tasks>,
        response: TaskResponse,
    ) -> bool {
        &&& response matches TaskResponse::StarkVerifyLayerDecommitmentMont { montgomery_values }
        &&& new_i == old_i
        &&& new_c == (Cache {
            fri: (FriCache {
                decommitment_values: new_c.fri.decommitment_values,
                decommitment_montgomery: new_c.fri.decommitment_montgomery,
                ..old_c.fri
            }),
        })
        &&& new_c.fri.decommitment_values@ =~= old_c.fri.verify_y_values@
        &&& new_c.fri.decommitment_montgomery@ =~= montgomery_values@
        &&& children =~= self.spec_children(old_c, old_i, response)
    }

    /// A leaf task.
    pub fn children(&self) -> (r: Vec<Tasks>)
        ensures
            r@ =~= Seq::<Tasks>::empty(),
    {
        Vec::new()
    }

    /// Fills the decommitment buffers: succeeds exactly when
    /// [`Self::accepts`] holds, with the effect [`Self::applies`] states.
    /// A Montgomery list of the wrong length is a mismatched response;
    /// failures leave the account untouched.
    pub fn execute(
        &self,
        cache: &mut Cache,
        intermediate: &mut Intermediate,
        response: TaskResponse,
    ) -> (r: Result<Vec<Tasks>, ProgramError>)
        ensures
            r is Ok <==> self.accepts(*old(cache), *old(intermediate), response),
            r matches Ok(children) ==> self.applies(
                *old(cache),
                *old(intermediate),
                *final(cache),
                *final(intermediate),
                children@,
                response,
            ),
            r is Err ==> *final(cache) == *old(cache) && *final(intermediate) == *old(
                intermediate,
            ),
            r matches Err(e) ==> {
                &&& (response matches TaskResponse::Failed { code } ==> e
                    == ProgramError::VerificationFailed(code))
                &&& (response is StarkVerifyLayerDecommitmentMont ==> e
                    == ProgramError::ResponseMismatch)
            },
    {
        match response {
            TaskResponse::StarkVerifyLayerDecommitmentMont { montgomery_values } => {
                if montgomery_values.len() != cache.fri.verify_y_values.len() {
                    return Err(ProgramError::ResponseMismatch);
                }
                let values: Vec<Felt> = crate::util::copy_vec(&cache.fri.verify_y_values);
                cache.fri.decommitment_values = values;
                cache.fri.decommitment_montgomery = montgomery_values;
                Ok(self.children())
            },
            TaskResponse::Failed { code } => Err(ProgramError::VerificationFailed(code)),
            _ => Err(ProgramError::ResponseMismatch),
        }
    }
}

} // verus!
