use vstd::prelude::*;

verus! {

use crate::felt::Felt;
use crate::intermediate::{FriCommitment, ProofConfig, StarkDomains, TracesCommitment, Transcript};

/// What the cryptographic executor hands back for one task: the values the
/// task's primitives computed from the proof bytes and the account state,
/// or the failure of one of their checks.
///
/// Each successful variant belongs to exactly one task kind; an invocation
/// whose response does not match the popped task is rejected. The library
/// checks every structural relation between a response and the account
/// (lengths, pairings, presence of inputs); the field values themselves
/// are the primitives' own output and are stored as given.
#[derive(Debug, Clone, PartialEq, Eq)]
#[verifier::ext_equal]
pub enum TaskResponse {
    /// A cryptographic check rejected the proof; the code is the
    /// executor's own error code.
    Failed { code: u32 },
    /// Root task: the parsed configuration, the derived domains, and the
    /// seeded transcript. The executor has already validated the
    /// configuration and the public input.
    VerifyProofRoot {
        n_original_columns: u32,
        n_interaction_columns: u32,
        config: ProofConfig,
        domains: StarkDomains,
        transcript: Transcript,
    },
    /// Traces and composition commitments, with the challenges drawn
    /// between them; the OODS consistency check has passed.
    StarkCommit {
        traces: TracesCommitment,
        composition_alpha: Felt,
        composition_root: Felt,
        interaction_after_composition: Felt,
        transcript: Transcript,
    },
    /// The OODS challenge and its powers array.
    StarkCommitOodsCoef { oods_alpha: Felt, oods_coefficients: Vec<Felt>, transcript: Transcript },
    /// The FRI commitment rounds' output.
    StarkCommitFri { fri: FriCommitment, transcript: Transcript },
    /// The proof-of-work check has passed and the transcript has read the
    /// nonce; the proof's OODS values accompany it for the snapshot.
    StarkCommitAssign { oods_values: Vec<Felt>, transcript: Transcript },
    /// The query indices drawn from the transcript, sorted ascending.
    GenerateQueries { queries: Vec<u64>, transcript: Transcript },
    /// The query points and the OODS boundary polynomial's evaluations at
    /// them, one pair per query.
    StarkVerify { points: Vec<Felt>, evaluations: Vec<Felt> },
    /// The Merkle authentication batch has verified.
    TableDecommit,
    /// The inverted, shifted x-coordinates of the first layer's queries,
    /// one per query.
    StarkVerifyFri { x_inv_values: Vec<Felt> },
    /// No cryptographic work: the layer fan-out is pure.
    StarkVerifyLayers,
    /// The last layer polynomial agreed with every remaining query.
    StarkVerifyLastLayer,
    /// The sibling leaves of the layer's witness, to be consumed as the
    /// layer's cosets are assembled.
    StarkVerifyFriLayer { sibling_leaves: Vec<Felt> },
    /// No cryptographic work: queries move between slots unchanged.
    StarkVerifyLayerAssignNext,
    /// The decommitment values in Montgomery form, one per coset element.
    StarkVerifyLayerDecommitmentMont { montgomery_values: Vec<Felt> },
    /// No cryptographic work: the fold is scheduled, not computed.
    ComputeNextLayer,
    /// One coset's fold: the inverse x-coordinate of the coset, the folded
    /// value, and the inverse x-coordinate it carries to the next layer.
    ComputeNextInner { coset_x_inv: Felt, folded_value: Felt, next_x_inv: Felt },
    /// The program hash and public output yielded by the layout's
    /// public-input verifier.
    VerifyOutput { program_hash: Felt, output: Vec<Felt> },
}

} // verus!
