use vstd::prelude::*;

verus! {

use crate::cache::Cache;
use crate::error::ProgramError;
use crate::intermediate::Intermediate;
use crate::response::TaskResponse;
use crate::task::Tasks;

/// The FRI epilogue. Checks that the committed last-layer polynomial has
/// exactly 2 to the declared degree bound many coefficients — the
/// invalid-value failure — and has the executor evaluate it at every
/// remaining query, which must all agree.
#[derive(Debug, Clone, Copy, PartialEq, Eq)]
pub struct StarkVerifyLastLayerTask;

impl StarkVerifyLastLayerTask {
    pub fn view() -> (r: StarkVerifyLastLayerTask)
        ensures
            r == (StarkVerifyLastLayerTask),
    {
        StarkVerifyLastLayerTask
    }

    /// The configuration and the commitment snapshot are present.
    pub open spec fn inputs_ready(old_i: Intermediate) -> bool {
        &&& old_i.verify.config is Some
        &&& old_i.verify.stark_commitment is Some
    }

    /// The committed coefficient count equals 2 to the declared bound.
    pub open spec fn count_matches(old_i: Intermediate) -> bool {
        &&& old_i.verify.config matches Some(cfg)
        &&& old_i.verify.stark_commitment matches Some(commitment)
        &&& cfg.fri.log_last_layer_degree_bound < 64
        &&& commitment.fri.last_layer_coefficients@.len() == (1u64
            << cfg.fri.log_last_layer_degree_bound)
    }

    /// The task succeeds exactly when its inputs are present, the
    /// coefficient count equals the declared degree bound, and the
    /// executor's polynomial check passed.
    pub open spec fn accepts(
        &self,
        old_c: Cache,
        old_i: Intermediate,
        response: TaskResponse,
    ) -> bool {
        &&& response is StarkVerifyLastLayer
        &&& Self::inputs_ready(old_i)
        &&& Self::count_matches(old_i)
    }

    /// A leaf task.
    pub open spec fn spec_children(
        &self,
        old_c: Cache,
        old_i: Intermediate,
        response: TaskResponse,
    ) -> Seq<Tasks> {
        Seq::empty()
    }

    /// The task's complete effect: nothing in the account changes.
    pub open spec fn applies(
        &self,
        old_c: Cache,
        old_i: Intermediate,
        new_c: Cache,
        new_i: Intermediate,
        children: Seq<Tasks>,
        response: TaskResponse,
    ) -> bool {
        &&& new_i == old_i
        &&& new_c == old_c
        &&& children =~= self.spec_children(old_c, old_i, response)
    }

    /// A leaf task.
    pub fn children(&self) -> (r: Vec<Tasks>)
        ensures
            r@ =~= Seq::<Tasks>::empty(),
    {
        Vec::new()
    }

    /// Passes exactly when [`Self::accepts`] holds. A missing input is
    /// the missing-intermediate error; a coefficient count that does not
    /// equal 2 to the declared bound is the invalid-value error; a query
    /// the polynomial disagrees with comes back under the executor's
    /// code. Nothing in the account changes either way.
    pub fn execute(
        &self,
        cache: &mut Cache,
        intermediate: &mut Intermediate,
        response: TaskResponse,
    ) -> (r: Result<Vec<Tasks>, ProgramError>)
        ensures
            r is Ok <==> self.accepts(*old(cache), *old(intermediate), response),
            r matches Ok(children) ==> self.applies(
                *old(cache),
                *old(intermediate),
                *final(cache),
                *final(intermediate),
                children@,
                response,
            ),
            *final(cache) == *old(cache) && *final(intermediate) == *old(intermediate),
            r matches Err(e) ==> {
                &&& (response matches TaskResponse::Failed { code } ==> e
                    == ProgramError::VerificationFailed(code))
                &&& (response is StarkVerifyLastLayer && !Self::inputs_ready(*old(intermediate))
                    ==> e == ProgramError::MissingIntermediate)
                &&& (response is StarkVerifyLastLayer && Self::inputs_ready(*old(intermediate))
                    && !Self::count_matches(*old(intermediate)) ==> e == ProgramError::InvalidValue)
            },
    {
        if let TaskResponse::Failed { code } = response {
            return Err(ProgramError::VerificationFailed(code));
        }
        let cfg = match &intermediate.verify.config {
            Some(c) => c,
            None => {
                return Err(ProgramError::MissingIntermediate);
            },
        };
        let commitment = match &intermediate.verify.stark_commitment {
            Some(c) => c,
            None => {
                return Err(ProgramError::MissingIntermediate);
            },
        };
        let bound = cfg.fri.log_last_layer_degree_bound;
        if bound >= 64 {
            return Err(ProgramError::InvalidValue);
        }
        if commitment.fri.last_layer_coefficients.len() as u64 != (1u64 << bound) {
            return Err(ProgramError::InvalidValue);
        }
        match response {
            TaskResponse::StarkVerifyLastLayer => Ok(self.children()),
            _ => Err(ProgramError::ResponseMismatch),
        }
    }
}

} // verus!
