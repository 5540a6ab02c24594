use vstd::prelude::*;

verus! {

use crate::cache::Cache;
use crate::error::ProgramError;
use crate::intermediate::{Intermediate, ProofConfig, VerifyIntermediate};
use crate::response::TaskResponse;
use crate::task::Tasks;

/// Whether a query index lies below the evaluation domain size, which is
/// 2 to `log_trace_domain_size + log_n_cosets`. A domain of 2^64 elements
/// or more admits every index.
pub open spec fn query_in_range(cfg: ProofConfig, q: u64) -> bool {
    cfg.log_trace_domain_size + cfg.log_n_cosets >= 64 || q < (1u64 << (
    cfg.log_trace_domain_size + cfg.log_n_cosets) as u64)
}

/// Draws the query indices: the executor samples `n_queries` indices below
/// the evaluation domain size from the transcript; the task persists them.
#[derive(Debug, Clone, Copy, PartialEq, Eq)]
pub struct GenerateQueriesTask;

impl GenerateQueriesTask {
    pub fn view() -> (r: GenerateQueriesTask)
        ensures
            r == (GenerateQueriesTask),
    {
        GenerateQueriesTask
    }

    /// The task succeeds exactly when the root task has run (the
    /// configuration is present) and the executor handed back exactly
    /// `n_queries` indices, each below the evaluation domain size.
    pub open spec fn accepts(
        &self,
        old_c: Cache,
        old_i: Intermediate,
        response: TaskResponse,
    ) -> bool {
        &&& response matches TaskResponse::GenerateQueries { queries, transcript }
        &&& old_i.verify.config matches Some(cfg)
        &&& queries@.len() == cfg.n_queries
        &&& forall|k: int| 0 <= k < queries@.len() ==> query_in_range(cfg, #[trigger] queries@[k])
    }

    /// A leaf task.
    pub open spec fn spec_children(
        &self,
        old_c: Cache,
        old_i: Intermediate,
        response: TaskResponse,
    ) -> Seq<Tasks> {
        Seq::empty()
    }

    /// The task's complete effect: the query indices and the advanced
    /// transcript are stored; everything else is untouched.
    pub open spec fn applies(
        &self,
        old_c: Cache,
        old_i: Intermediate,
        new_c: Cache,
        new_i: Intermediate,
        children: Seq<Tasks>,
        response: TaskResponse,
    ) -> bool {
        &&& response matches TaskResponse::GenerateQueries { queries, transcript }
        &&& new_i =~= (Intermediate {
            verify: (VerifyIntermediate {
                queries: queries,
                transcript: Some(transcript),
                ..old_i.verify
            }),
            ..old_i
        })
        &&& new_c == old_c
        &&& children =~= self.spec_children(old_c, old_i, response)
    }

    /// A leaf task.
    pub fn children(&self) -> (r: Vec<Tasks>)
        ensures
            r@ =~= Seq::<Tasks>::empty(),
    {
        Vec::new()
    }

    /// Stores the drawn query indices: succeeds exactly when
    /// [`Self::accepts`] holds, with the effect [`Self::applies`] states.
    /// Without the configuration the missing-intermediate code is
    /// returned; an index count or range the executor's own contract
    /// rules out is rejected as a mismatched response.
    pub fn execute(
        &self,
        cache: &mut Cache,
        intermediate: &mut Intermediate,
        response: TaskResponse,
    ) -> (r: Result<Vec<Tasks>, ProgramError>)
        ensures
            r is Ok <==> self.accepts(*old(cache), *old(intermediate), response),
            r matches Ok(children) ==> self.applies(
                *old(cache),
                *old(intermediate),
                *final(cache),
                *final(intermediate),
                children@,
                response,
            ),
            r is Err ==> *final(cache) == *old(cache) && *final(intermediate) == *old(
                intermediate,
            ),
            r matches Err(e) ==> {
                &&& (response matches TaskResponse::Failed { code } ==> e
                    == ProgramError::VerificationFailed(code))
                &&& (response is GenerateQueries && old(intermediate).verify.config is None ==> e
                    == ProgramError::MissingIntermediate)
                &&& (response is GenerateQueries && old(intermediate).verify.config is Some ==> e
                    == ProgramError::ResponseMismatch)
            },
    {
        match response {
            TaskResponse::GenerateQueries { queries, transcript } => {
                let cfg = match &intermediate.verify.config {
                    Some(cfg) => cfg,
                    None => {
                        return Err(ProgramError::MissingIntermediate);
                    },
                };
                if queries.len() as u64 != cfg.n_queries {
                    return Err(ProgramError::ResponseMismatch);
                }
                // The domain bound is checkable whenever it fits a
                // machine word; a domain of 2^64 or more admits any index.
                if cfg.log_trace_domain_size < 64 && cfg.log_n_cosets < 64 && cfg.log_trace_domain_size
                    + cfg.log_n_cosets < 64 {
                    let bound: u64 = 1u64 << (cfg.log_trace_domain_size + cfg.log_n_cosets);
                    let mut k: usize = 0;
                    while k < queries.len()
                        invariant
                            k <= queries@.len(),
                            response is GenerateQueries,
                            response->queries == queries,
                            old(intermediate).verify.config matches Some(c) && c == *cfg,
                            cfg.log_trace_domain_size + cfg.log_n_cosets < 64,
                            bound == (1u64 << (cfg.log_trace_domain_size + cfg.log_n_cosets) as u64),
                            forall|j: int|
                                0 <= j < k ==> query_in_range(*cfg, #[trigger] queries@[j]),
                        decreases queries@.len() - k,
                    {
                        if queries[k] >= bound {
                            return Err(ProgramError::ResponseMismatch);
                        }
                        k = k + 1;
                    }
                }
                proof {
                    assert(forall|j: int|
                        0 <= j < queries@.len() ==> query_in_range(
                            old(intermediate).verify.config->Some_0,
                            #[trigger] queries@[j],
                        ));
                }
                intermediate.verify.queries = queries;
                intermediate.verify.transcript = Some(transcript);
                Ok(self.children())
            },
            TaskResponse::Failed { code } => Err(ProgramError::VerificationFailed(code)),
            _ => Err(ProgramError::ResponseMismatch),
        }
    }
}

} // verus!
