use vstd::prelude::*;

verus! {

use crate::felt::Felt;

/// One FRI query: the index of the queried element inside the current
/// layer, its value, and the inverse of its x-coordinate.
#[derive(Debug, Clone, Copy, PartialEq, Eq)]
#[verifier::ext_equal]
pub struct FriQuery {
    pub index: u64,
    pub y_value: Felt,
    pub x_inv_value: Felt,
}

/// The context one StarkVerifyFriLayer task loads for its layer, consumed
/// by the folding, decommitment and Merkle sub-tasks that follow it.
#[derive(Debug, Clone, PartialEq, Eq)]
#[verifier::ext_equal]
pub struct StarkVerifyLayerContext {
    /// Which inner layer the context belongs to.
    pub layer_index: u8,
    /// Elements per coset at this layer: 2 to the layer's step size.
    pub coset_size: u64,
    /// The layer's evaluation point.
    pub eval_point: Felt,
    /// The layer's committed tree root.
    pub commitment_root: Felt,
    /// The sibling leaves of the layer's witness, consumed front-first as
    /// cosets are assembled.
    pub sibling_leaves: Vec<Felt>,
}

/// The FRI working state: scratch that the folding tasks fill and drain
/// across invocations. Always re-initialised by the task that owns the
/// next write; never read across a layer boundary.
#[derive(Debug, Clone, PartialEq, Eq)]
#[verifier::ext_equal]
pub struct FriCache {
    /// The current layer's pending queries.
    pub fri_queries: Vec<FriQuery>,
    /// The next layer's queries, one per folded coset.
    pub next_queries: Vec<FriQuery>,
    /// Coset indices for the layer's Merkle verification.
    pub verify_indices: Vec<u64>,
    /// Coset element values for the layer's Merkle verification.
    pub verify_y_values: Vec<Felt>,
    /// The decommitment buffer handed to the Merkle check.
    pub decommitment_values: Vec<Felt>,
    /// The decommitment values in Montgomery form.
    pub decommitment_montgomery: Vec<Felt>,
    /// The loaded layer context, if a layer is in progress.
    pub layer: Option<StarkVerifyLayerContext>,
}

/// Scratch space for expensive inner computations. Nothing in it is part
/// of any task's contract except the FRI working state, which carries the
/// fold from one invocation to the next.
#[derive(Debug, Clone, PartialEq, Eq)]
#[verifier::ext_equal]
pub struct Cache {
    pub fri: FriCache,
}

impl Cache {
    /// A fresh, zeroed cache.
    pub fn new() -> (r: Cache)
        ensures
            r.fri.fri_queries@.len() == 0,
            r.fri.next_queries@.len() == 0,
            r.fri.verify_indices@.len() == 0,
            r.fri.verify_y_values@.len() == 0,
            r.fri.decommitment_values@.len() == 0,
            r.fri.decommitment_montgomery@.len() == 0,
            r.fri.layer is None,
    {
        Cache {
            fri: FriCache {
                fri_queries: Vec::new(),
                next_queries: Vec::new(),
                verify_indices: Vec::new(),
                verify_y_values: Vec::new(),
                decommitment_values: Vec::new(),
                decommitment_montgomery: Vec::new(),
                layer: None,
            },
        }
    }
}

} // verus!
