use vstd::prelude::*;

pub mod assign_next;
pub mod compute_next_layer;
pub mod decommitment_mont;
pub mod layer;

verus! {

use crate::cache::Cache;
use crate::error::ProgramError;
use crate::intermediate::Intermediate;
use crate::response::TaskResponse;
use crate::task::Tasks;

/// Fans the FRI phase out into one task per inner layer: a FRI run with
/// `n_layers` layers has `n_layers - 1` inner layers, each verified by its
/// own StarkVerifyFriLayer task, in ascending layer order.
#[derive(Debug, Clone, Copy, PartialEq, Eq)]
pub struct StarkVerifyLayersTask;

impl StarkVerifyLayersTask {
    pub fn view() -> (r: StarkVerifyLayersTask)
        ensures
            r == (StarkVerifyLayersTask),
    {
        StarkVerifyLayersTask
    }

    /// The declared layer count is one a real run can have: at least the
    /// last layer, and few enough that every inner layer has a one-byte
    /// index.
    pub open spec fn layer_count_real(old_i: Intermediate) -> bool {
        &&& old_i.verify.config matches Some(cfg)
        &&& 1 <= cfg.fri.n_layers <= 256
    }

    /// The task succeeds exactly when the configuration is present and
    /// its layer count is a real one.
    pub open spec fn accepts(
        &self,
        old_c: Cache,
        old_i: Intermediate,
        response: TaskResponse,
    ) -> bool {
        &&& response is StarkVerifyLayers
        &&& old_i.verify.config is Some
        &&& Self::layer_count_real(old_i)
    }

    /// The inner-layer tasks 0 to `n_layers - 2`, in execution order.
    pub open spec fn spec_children(
        &self,
        old_c: Cache,
        old_i: Intermediate,
        response: TaskResponse,
    ) -> Seq<Tasks> {
        match old_i.verify.config {
            Some(cfg) => Seq::new(
                (cfg.fri.n_layers - 1) as nat,
                |k: int| Tasks::StarkVerifyFriLayer(k as u8),
            ),
            None => Seq::empty(),
        }
    }

    /// The task's complete effect: pure fan-out, nothing in the account
    /// changes.
    pub open spec fn applies(
        &self,
        old_c: Cache,
        old_i: Intermediate,
        new_c: Cache,
        new_i: Intermediate,
        children: Seq<Tasks>,
        response: TaskResponse,
    ) -> bool {
        &&& new_i == old_i
        &&& new_c == old_c
        &&& children =~= self.spec_children(old_c, old_i, response)
    }

    /// Pure fan-out: succeeds exactly when [`Self::accepts`] holds, with
    /// the children [`Self::spec_children`] lists. A missing
    /// configuration is the missing-intermediate error; a layer count no
    /// real run can have is the invalid-value error. Nothing in the
    /// account changes either way.
    pub fn execute(
        &self,
        cache: &mut Cache,
        intermediate: &mut Intermediate,
        response: TaskResponse,
    ) -> (r: Result<Vec<Tasks>, ProgramError>)
        ensures
            r is Ok <==> self.accepts(*old(cache), *old(intermediate), response),
            r matches Ok(children) ==> self.applies(
                *old(cache),
                *old(intermediate),
                *final(cache),
                *final(intermediate),
                children@,
                response,
            ),
            *final(cache) == *old(cache) && *final(intermediate) == *old(intermediate),
            r matches Err(e) ==> {
                &&& (response matches TaskResponse::Failed { code } ==> e
                    == ProgramError::VerificationFailed(code))
                &&& (response is StarkVerifyLayers && old(intermediate).verify.config is None
                    ==> e == ProgramError::MissingIntermediate)
                &&& (response is StarkVerifyLayers && old(intermediate).verify.config is Some
                    && !Self::layer_count_real(*old(intermediate)) ==> e
                    == ProgramError::InvalidValue)
            },
    {
        match response {
            TaskResponse::StarkVerifyLayers => {
                let cfg = match &intermediate.verify.config {
                    Some(c) => c,
                    None => {
                        return Err(ProgramError::MissingIntermediate);
                    },
                };
                let n_layers = cfg.fri.n_layers;
                if n_layers < 1 || n_layers > 256 {
                    return Err(ProgramError::InvalidValue);
                }
                let inner = (n_layers - 1) as usize;
                let mut children: Vec<Tasks> = Vec::new();
                let mut k: usize = 0;
                while k < inner
                    invariant
                        k <= inner,
                        inner <= 255,
                        children@.len() == k,
                        forall|j: int|
                            0 <= j < k ==> children@[j] == Tasks::StarkVerifyFriLayer(j as u8),
                    decreases inner - k,
                {
                    children.push(Tasks::StarkVerifyFriLayer(k as u8));
                    k = k + 1;
                }
                Ok(children)
            },
            TaskResponse::Failed { code } => Err(ProgramError::VerificationFailed(code)),
            _ => Err(ProgramError::ResponseMismatch),
        }
    }
}

} // verus!
