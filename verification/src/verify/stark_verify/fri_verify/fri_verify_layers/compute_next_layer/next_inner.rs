use vstd::prelude::*;

verus! {

use crate::cache::{Cache, FriQuery, StarkVerifyLayerContext};
use crate::error::ProgramError;
use crate::felt::Felt;
use crate::intermediate::Intermediate;
use crate::response::TaskResponse;
use crate::task::Tasks;

/// How one coset's elements are assembled, walking the coset's positions
/// in order: a position whose index the front pending query carries takes
/// that query's value and consumes the query; any other position takes
/// the next sibling leaf from the witness. The result is the element
/// list, the number of queries consumed, and the number of siblings
/// consumed — or nothing, if the witness runs out of siblings.
pub open spec fn spec_assemble_coset(
    queries: Seq<FriQuery>,
    siblings: Seq<Felt>,
    start: int,
    size: nat,
) -> Option<(Seq<Felt>, int, int)>
    decreases size,
{
    if size == 0 {
        Some((Seq::empty(), 0, 0))
    } else if queries.len() > 0 && queries[0].index == start {
        match spec_assemble_coset(queries.drop_first(), siblings, start + 1, (size - 1) as nat) {
            Some((elts, nq, ns)) => Some((seq![queries[0].y_value] + elts, nq + 1, ns)),
            None => None,
        }
    } else if siblings.len() > 0 {
        match spec_assemble_coset(queries, siblings.drop_first(), start + 1, (size - 1) as nat) {
            Some((elts, nq, ns)) => Some((seq![siblings[0]] + elts, nq, ns + 1)),
            None => None,
        }
    } else {
        None
    }
}

/// Folds exactly one coset of the current layer and reschedules itself
/// while queries remain. The coset is the one containing the front
/// pending query; its elements come from the pending queries where the
/// indices match and from the witness's sibling leaves everywhere else.
/// The folded value and the x-coordinate inverses are the executor's
/// work; everything else — which queries the coset consumes, which
/// siblings fill the gaps, and all bookkeeping — is the task's own.
#[derive(Debug, Clone, Copy, PartialEq, Eq)]
pub struct ComputeNextInnerTask {
    pub layer_index: u8,
}

impl ComputeNextInnerTask {
    /// The view selects the layer the task works on.
    pub fn view(layer_index: u8) -> (r: ComputeNextInnerTask)
        ensures
            r == (ComputeNextInnerTask { layer_index }),
    {
        ComputeNextInnerTask { layer_index }
    }

    /// The front query's coset can be assembled: this layer's context is
    /// loaded, its coset size is a real one (2 to a folding step of 1 to
    /// 4), and the witness holds enough sibling leaves to fill every
    /// position no pending query covers.
    pub open spec fn fold_defined(&self, old_c: Cache) -> bool {
        &&& old_c.fri.layer matches Some(ctx)
        &&& ctx.layer_index == self.layer_index
        &&& (ctx.coset_size == 2 || ctx.coset_size == 4 || ctx.coset_size == 8 || ctx.coset_size
            == 16)
        &&& spec_assemble_coset(
            old_c.fri.fri_queries@,
            ctx.sibling_leaves@,
            (old_c.fri.fri_queries@[0].index as int / ctx.coset_size as int) * (
            ctx.coset_size as int),
            ctx.coset_size as nat,
        ) is Some
    }

    /// The task succeeds exactly when the executor handed in the fold's
    /// values and either no queries are pending (a no-op) or the front
    /// query's coset can be assembled.
    pub open spec fn accepts(
        &self,
        old_c: Cache,
        old_i: Intermediate,
        response: TaskResponse,
    ) -> bool {
        &&& response is ComputeNextInner
        &&& (old_c.fri.fri_queries@.len() == 0 || self.fold_defined(old_c))
    }

    /// The task reschedules itself exactly when it had a coset to fold.
    pub open spec fn spec_children(
        &self,
        old_c: Cache,
        old_i: Intermediate,
        response: TaskResponse,
    ) -> Seq<Tasks> {
        if old_c.fri.fri_queries@.len() == 0 {
            Seq::empty()
        } else {
            seq![Tasks::ComputeNextInner(self.layer_index)]
        }
    }

    /// The task's complete effect. With no pending queries, nothing
    /// changes. Otherwise the coset of the front query is assembled as
    /// [`spec_assemble_coset`] says: at least one query and a prefix of
    /// the sibling leaves are consumed, the coset's index and elements
    /// are recorded for the Merkle check, and the folded query joins the
    /// next layer's list.
    pub open spec fn applies(
        &self,
        old_c: Cache,
        old_i: Intermediate,
        new_c: Cache,
        new_i: Intermediate,
        children: Seq<Tasks>,
        response: TaskResponse,
    ) -> bool {
        &&& response matches TaskResponse::ComputeNextInner {
            coset_x_inv,
            folded_value,
            next_x_inv,
        }
        &&& new_i == old_i
        &&& children =~= self.spec_children(old_c, old_i, response)
        &&& if old_c.fri.fri_queries@.len() == 0 {
            new_c == old_c
        } else {
            &&& old_c.fri.layer matches Some(ctx)
            &&& {
                let size = ctx.coset_size;
                let coset_index = old_c.fri.fri_queries@[0].index as int / size as int;
                let start = coset_index * size;
                &&& spec_assemble_coset(
                    old_c.fri.fri_queries@,
                    ctx.sibling_leaves@,
                    start,
                    size as nat,
                ) matches Some((elts, nq, ns))
                &&& nq >= 1
                &&& new_c.fri.fri_queries@ =~= old_c.fri.fri_queries@.skip(nq)
                &&& new_c.fri.layer matches Some(fctx)
                &&& fctx == (StarkVerifyLayerContext { sibling_leaves: fctx.sibling_leaves, ..ctx })
                &&& fctx.sibling_leaves@ =~= ctx.sibling_leaves@.skip(ns)
                &&& new_c.fri.verify_indices@ =~= old_c.fri.verify_indices@.push(
                    coset_index as u64,
                )
                &&& new_c.fri.verify_y_values@ =~= old_c.fri.verify_y_values@ + elts
                &&& new_c.fri.next_queries@ =~= old_c.fri.next_queries@.push(
                    (FriQuery {
                        index: coset_index as u64,
                        y_value: folded_value,
                        x_inv_value: next_x_inv,
                    }),
                )
                &&& new_c.fri.decommitment_values@ =~= old_c.fri.decommitment_values@
                &&& new_c.fri.decommitment_montgomery@ =~= old_c.fri.decommitment_montgomery@
            }
        }
    }

    /// Folds one coset: succeeds exactly when [`Self::accepts`] holds,
    /// with the effect [`Self::applies`] states. With queries pending, a
    /// missing layer context is the missing-intermediate error; a context
    /// for another layer, an unreal coset size, or a witness that runs
    /// out of sibling leaves is the invalid-value error. Failures leave
    /// the account untouched.
    pub fn execute(
        &self,
        cache: &mut Cache,
        intermediate: &mut Intermediate,
        response: TaskResponse,
    ) -> (r: Result<Vec<Tasks>, ProgramError>)
        ensures
            r is Ok <==> self.accepts(*old(cache), *old(intermediate), response),
            r matches Ok(children) ==> self.applies(
                *old(cache),
                *old(intermediate),
                *final(cache),
                *final(intermediate),
                children@,
                response,
            ),
            *final(intermediate) == *old(intermediate),
            r is Err ==> *final(cache) == *old(cache),
            r matches Err(e) ==> {
                &&& (response matches TaskResponse::Failed { code } ==> e
                    == ProgramError::VerificationFailed(code))
                &&& (response is ComputeNextInner && old(cache).fri.fri_queries@.len() > 0 && old(
                    cache,
                ).fri.layer is None ==> e == ProgramError::MissingIntermediate)
                &&& (response is ComputeNextInner && old(cache).fri.fri_queries@.len() > 0 && old(
                    cache,
                ).fri.layer is Some && !self.fold_defined(*old(cache)) ==> e
                    == ProgramError::InvalidValue)
            },
    {
        let (folded_value, next_x_inv) = match response {
            TaskResponse::ComputeNextInner { coset_x_inv: _, folded_value, next_x_inv } => (
                folded_value,
                next_x_inv,
            ),
            TaskResponse::Failed { code } => {
                return Err(ProgramError::VerificationFailed(code));
            },
            _ => {
                return Err(ProgramError::ResponseMismatch);
            },
        };
        if cache.fri.fri_queries.len() == 0 {
            return Ok(Vec::new());
        }
        let size = match &cache.fri.layer {
            Some(ctx) => {
                if ctx.layer_index != self.layer_index {
                    return Err(ProgramError::InvalidValue);
                }
                ctx.coset_size
            },
            None => {
                return Err(ProgramError::MissingIntermediate);
            },
        };
        if !(size == 2 || size == 4 || size == 8 || size == 16) {
            return Err(ProgramError::InvalidValue);
        }
        let first_index = cache.fri.fri_queries[0].index;
        let coset_index = first_index / size;
        proof {
            assert(coset_index * size <= first_index) by (nonlinear_arith)
                requires
                    size > 0,
                    coset_index == first_index / size,
                    first_index <= u64::MAX,
            ;
            assert(first_index < coset_index * size + size) by (nonlinear_arith)
                requires
                    size > 0,
                    coset_index == first_index / size,
            ;
        }
        let start = coset_index * size;

        // Assemble the coset's elements, walking its positions in order.
        // Nothing is written yet: the walk only decides which pending
        // queries the coset consumes and which sibling leaves fill the
        // remaining positions.
        let queries = &cache.fri.fri_queries;
        let siblings = match &cache.fri.layer {
            Some(ctx) => &ctx.sibling_leaves,
            None => {
                return Err(ProgramError::MissingIntermediate);
            },
        };
        let mut elements: Vec<Felt> = Vec::new();
        let mut qpos: usize = 0;
        let mut spos: usize = 0;
        let mut k: u64 = 0;
        proof {
            assert(queries@.skip(0) =~= queries@);
            assert(siblings@.skip(0) =~= siblings@);
        }
        while k < size
            invariant
                k <= size,
                response is ComputeNextInner,
                *cache == *old(cache),
                old(cache).fri.layer matches Some(ctx) && ctx.coset_size == size
                    && ctx.layer_index == self.layer_index,
                queries@ == old(cache).fri.fri_queries@,
                siblings@ == old(cache).fri.layer->Some_0.sibling_leaves@,
                first_index == queries@[0].index,
                coset_index == first_index / size,
                start == coset_index * size,
                size == 2 || size == 4 || size == 8 || size == 16,
                qpos <= queries@.len(),
                spos <= siblings@.len(),
                queries@.len() > 0,
                elements@.len() == k,
                start + k > queries@[0].index ==> qpos >= 1,
                spec_assemble_coset(queries@, siblings@, start as int, size as nat) == (match
                    spec_assemble_coset(
                    queries@.skip(qpos as int),
                    siblings@.skip(spos as int),
                    start + k,
                    (size - k) as nat,
                ) {
                    Some((elts, nq, ns)) => Some::<(Seq<Felt>, int, int)>(
                        (elements@ + elts, qpos + nq, spos + ns),
                    ),
                    None => None::<(Seq<Felt>, int, int)>,
                }),
            decreases size - k,
        {
            let take_query = qpos < queries.len() && (queries[qpos].index as u128) == (
            start as u128 + k as u128);
            proof {
                let qrem = queries@.skip(qpos as int);
                let srem = siblings@.skip(spos as int);
                assert(qrem.len() > 0 ==> qrem[0] == queries@[qpos as int]);
                assert(srem.len() > 0 ==> srem[0] == siblings@[spos as int]);
                if take_query {
                    assert(qrem.drop_first() =~= queries@.skip(qpos as int + 1));
                } else if spos < siblings@.len() {
                    assert(srem.drop_first() =~= siblings@.skip(spos as int + 1));
                }
            }
            if take_query {
                elements.push(queries[qpos].y_value);
                qpos = qpos + 1;
            } else if spos < siblings.len() {
                elements.push(siblings[spos]);
                spos = spos + 1;
            } else {
                // The witness ran out of siblings: the coset cannot be
                // assembled, which is exactly the spec's undefined case.
                proof {
                    assert(spec_assemble_coset(
                        queries@.skip(qpos as int),
                        siblings@.skip(spos as int),
                        start + k,
                        (size - k) as nat,
                    ) is None);
                    assert(spec_assemble_coset(queries@, siblings@, start as int, size as nat)
                        is None);
                    let octx = old(cache).fri.layer->Some_0;
                    assert(queries@ == old(cache).fri.fri_queries@);
                    assert(siblings@ == octx.sibling_leaves@);
                    assert(octx.coset_size == size);
                    assert(coset_index == first_index / size);
                    assert(start as int == (old(cache).fri.fri_queries@[0].index as int
                        / octx.coset_size as int) * (octx.coset_size as int));
                    assert(!self.fold_defined(*old(cache)));
                }
                return Err(ProgramError::InvalidValue);
            }
            k = k + 1;
        }
        proof {
            assert(spec_assemble_coset(
                queries@.skip(qpos as int),
                siblings@.skip(spos as int),
                start + size,
                0,
            ) == Some::<(Seq<Felt>, int, int)>((Seq::empty(), 0, 0)));
            assert(elements@ + Seq::<Felt>::empty() =~= elements@);
            assert(qpos >= 1);
        }

        // Build every new buffer before touching the account, then commit
        // them together: the used queries and siblings are consumed, the
        // coset is recorded for the Merkle check, and the folded query
        // joins the next layer's list.
        let remaining_queries = crate::util::copy_suffix(&cache.fri.fri_queries, qpos);
        let new_ctx = match &cache.fri.layer {
            Some(ctx) => (StarkVerifyLayerContext {
                layer_index: ctx.layer_index,
                coset_size: ctx.coset_size,
                eval_point: ctx.eval_point,
                commitment_root: ctx.commitment_root,
                sibling_leaves: crate::util::copy_suffix(&ctx.sibling_leaves, spos),
            }),
            None => {
                return Err(ProgramError::MissingIntermediate);
            },
        };
        let new_y_values = crate::util::concat_vec(&cache.fri.verify_y_values, &elements);

        cache.fri.fri_queries = remaining_queries;
        cache.fri.layer = Some(new_ctx);
        cache.fri.verify_indices.push(coset_index);
        cache.fri.verify_y_values = new_y_values;
        cache.fri.next_queries.push(
            FriQuery { index: coset_index, y_value: folded_value, x_inv_value: next_x_inv },
        );

        let mut children: Vec<Tasks> = Vec::new();
        children.push(Tasks::ComputeNextInner(self.layer_index));
        Ok(children)
    }
}

} // verus!
