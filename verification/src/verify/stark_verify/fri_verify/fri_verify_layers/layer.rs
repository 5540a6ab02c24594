use vstd::prelude::*;

verus! {

use crate::cache::{Cache, StarkVerifyLayerContext};
use crate::error::ProgramError;
use crate::felt::Felt;
use crate::intermediate::Intermediate;
use crate::response::TaskResponse;
use crate::task::{TableDecommitTarget, Tasks};

/// Loads one inner layer's context: its committed root, its evaluation
/// point, its coset size (2 to the layer's step size) and the sibling
/// leaves of its witness, and resets the per-layer scratch. Then fans out
/// the layer's fold, decommitment-buffer fill, Merkle check, and hand-over
/// to the next layer, in that order.
#[derive(Debug, Clone, Copy, PartialEq, Eq)]
pub struct StarkVerifyLayerTask {
    pub layer_index: u8,
}

impl StarkVerifyLayerTask {
    /// The view selects the layer the task works on.
    pub fn view(layer_index: u8) -> (r: StarkVerifyLayerTask)
        ensures
            r == (StarkVerifyLayerTask { layer_index }),
    {
        StarkVerifyLayerTask { layer_index }
    }

    /// The configuration and commitment snapshot are present.
    pub open spec fn inputs_ready(old_i: Intermediate) -> bool {
        &&& old_i.verify.config is Some
        &&& old_i.verify.stark_commitment is Some
    }

    /// The configuration and commitment cover this layer, with a real
    /// folding step of 1 to 4.
    pub open spec fn layer_covered(&self, old_i: Intermediate) -> bool {
        &&& old_i.verify.config matches Some(cfg)
        &&& old_i.verify.stark_commitment matches Some(commitment)
        &&& self.layer_index + 1 < cfg.fri.fri_step_sizes@.len()
        &&& 1 <= cfg.fri.fri_step_sizes@[self.layer_index + 1] <= 4
        &&& (self.layer_index as int) < commitment.fri.eval_points@.len()
        &&& (self.layer_index as int) < commitment.fri.inner_layer_roots@.len()
    }

    /// The task succeeds exactly when its inputs are present, they cover
    /// this layer, and the executor handed in the layer's sibling leaves.
    pub open spec fn accepts(
        &self,
        old_c: Cache,
        old_i: Intermediate,
        response: TaskResponse,
    ) -> bool {
        &&& response matches TaskResponse::StarkVerifyFriLayer { sibling_leaves }
        &&& Self::inputs_ready(old_i)
        &&& self.layer_covered(old_i)
    }

    /// The layer's sub-tasks, in execution order.
    pub open spec fn spec_children(
        &self,
        old_c: Cache,
        old_i: Intermediate,
        response: TaskResponse,
    ) -> Seq<Tasks> {
        seq![
            Tasks::ComputeNextLayer(self.layer_index),
            Tasks::StarkVerifyLayerDecommitmentMont(self.layer_index),
            Tasks::TableDecommit(TableDecommitTarget::Fri(self.layer_index)),
            Tasks::StarkVerifyLayerAssignNext,
        ]
    }

    /// The task's complete effect: the pending queries carry over, every
    /// per-layer buffer is cleared, and the loaded context holds this
    /// layer's coset size, evaluation point, committed root and sibling
    /// leaves.
    pub open spec fn applies(
        &self,
        old_c: Cache,
        old_i: Intermediate,
        new_c: Cache,
        new_i: Intermediate,
        children: Seq<Tasks>,
        response: TaskResponse,
    ) -> bool {
        &&& response matches TaskResponse::StarkVerifyFriLayer { sibling_leaves }
        &&& old_i.verify.config matches Some(cfg)
        &&& old_i.verify.stark_commitment matches Some(commitment)
        &&& new_i == old_i
        &&& new_c.fri.fri_queries == old_c.fri.fri_queries
        &&& new_c.fri.next_queries@ =~= Seq::<crate::cache::FriQuery>::empty()
        &&& new_c.fri.verify_indices@ =~= Seq::<u64>::empty()
        &&& new_c.fri.verify_y_values@ =~= Seq::<Felt>::empty()
        &&& new_c.fri.decommitment_values@ =~= Seq::<Felt>::empty()
        &&& new_c.fri.decommitment_montgomery@ =~= Seq::<Felt>::empty()
        &&& new_c.fri.layer == Some(
            (StarkVerifyLayerContext {
                layer_index: self.layer_index,
                coset_size: (1u64 << cfg.fri.fri_step_sizes@[self.layer_index + 1]),
                eval_point: commitment.fri.eval_points@[self.layer_index as int],
                commitment_root: commitment.fri.inner_layer_roots@[self.layer_index as int],
                sibling_leaves: sibling_leaves,
            }),
        )
        &&& children =~= self.spec_children(old_c, old_i, response)
    }

    /// The layer's sub-tasks, in execution order.
    pub fn children(&self) -> (r: Vec<Tasks>)
        ensures
            r@ =~= seq![
                Tasks::ComputeNextLayer(self.layer_index),
                Tasks::StarkVerifyLayerDecommitmentMont(self.layer_index),
                Tasks::TableDecommit(TableDecommitTarget::Fri(self.layer_index)),
                Tasks::StarkVerifyLayerAssignNext,
            ],
    {
        let mut r: Vec<Tasks> = Vec::new();
        r.push(Tasks::ComputeNextLayer(self.layer_index));
        r.push(Tasks::StarkVerifyLayerDecommitmentMont(self.layer_index));
        r.push(Tasks::TableDecommit(TableDecommitTarget::Fri(self.layer_index)));
        r.push(Tasks::StarkVerifyLayerAssignNext);
        r
    }

    /// Installs the layer context: succeeds exactly when
    /// [`Self::accepts`] holds, with the effect [`Self::applies`] states.
    /// A missing input is the missing-intermediate error; one that does
    /// not cover this layer, or a step outside 1 to 4, is the
    /// invalid-value error. Failures leave the account untouched.
    pub fn execute(
        &self,
        cache: &mut Cache,
        intermediate: &mut Intermediate,
        response: TaskResponse,
    ) -> (r: Result<Vec<Tasks>, ProgramError>)
        ensures
            r is Ok <==> self.accepts(*old(cache), *old(intermediate), response),
            r matches Ok(children) ==> self.applies(
                *old(cache),
                *old(intermediate),
                *final(cache),
                *final(intermediate),
                children@,
                response,
            ),
            *final(intermediate) == *old(intermediate),
            r is Err ==> *final(cache) == *old(cache),
            r matches Err(e) ==> {
                &&& (response matches TaskResponse::Failed { code } ==> e
                    == ProgramError::VerificationFailed(code))
                &&& (response is StarkVerifyFriLayer && !Self::inputs_ready(*old(intermediate))
                    ==> e == ProgramError::MissingIntermediate)
                &&& (response is StarkVerifyFriLayer && Self::inputs_ready(*old(intermediate))
                    && !self.layer_covered(*old(intermediate)) ==> e == ProgramError::InvalidValue)
            },
    {
        match response {
            TaskResponse::StarkVerifyFriLayer { sibling_leaves } => {
                let cfg = match &intermediate.verify.config {
                    Some(c) => c,
                    None => {
                        return Err(ProgramError::MissingIntermediate);
                    },
                };
                let commitment = match &intermediate.verify.stark_commitment {
                    Some(c) => c,
                    None => {
                        return Err(ProgramError::MissingIntermediate);
                    },
                };
                let i = self.layer_index as usize;
                if i + 1 >= cfg.fri.fri_step_sizes.len() {
                    return Err(ProgramError::InvalidValue);
                }
                let step = cfg.fri.fri_step_sizes[i + 1];
                if step < 1 || step > 4 {
                    return Err(ProgramError::InvalidValue);
                }
                if i >= commitment.fri.eval_points.len()
                    || i >= commitment.fri.inner_layer_roots.len() {
                    return Err(ProgramError::InvalidValue);
                }
                let context = StarkVerifyLayerContext {
                    layer_index: self.layer_index,
                    coset_size: 1u64 << step,
                    eval_point: commitment.fri.eval_points[i],
                    commitment_root: commitment.fri.inner_layer_roots[i],
                    sibling_leaves: sibling_leaves,
                };
                cache.fri.next_queries = Vec::new();
                cache.fri.verify_indices = Vec::new();
                cache.fri.verify_y_values = Vec::new();
                cache.fri.decommitment_values = Vec::new();
                cache.fri.decommitment_montgomery = Vec::new();
                cache.fri.layer = Some(context);
                Ok(self.children())
            },
            TaskResponse::Failed { code } => Err(ProgramError::VerificationFailed(code)),
            _ => Err(ProgramError::ResponseMismatch),
        }
    }
}

} // verus!
