use vstd::prelude::*;

verus! {

use crate::felt::Felt;

/// The proof's configuration, parsed into plain values by the root task
/// and consumed by every later task that has to make a decision.
#[derive(Debug, Clone, PartialEq, Eq)]
#[verifier::ext_equal]
pub struct ProofConfig {
    /// Number of queries the verifier draws.
    pub n_queries: u64,
    /// Log2 of the trace domain size.
    pub log_trace_domain_size: u64,
    /// Log2 of the number of cosets in the evaluation domain.
    pub log_n_cosets: u64,
    /// Number of commitment layers using a verifier-friendly hash.
    pub n_verifier_friendly_commitment_layers: u64,
    /// Proof-of-work difficulty in bits.
    pub pow_n_bits: u8,
    /// The FRI component's configuration.
    pub fri: FriConfig,
}

/// The FRI configuration: how many layers, how much folding per step, and
/// the degree bound of the last layer.
#[derive(Debug, Clone, PartialEq, Eq)]
#[verifier::ext_equal]
pub struct FriConfig {
    /// Number of FRI layers, inner and last together.
    pub n_layers: u64,
    /// One folding step size per layer; entry 0 is always zero.
    pub fri_step_sizes: Vec<u64>,
    /// Log2 of the last layer polynomial's degree bound.
    pub log_last_layer_degree_bound: u64,
}

/// The evaluation and trace domains derived from the configuration.
#[derive(Debug, Clone, Copy, PartialEq, Eq)]
#[verifier::ext_equal]
pub struct StarkDomains {
    pub log_eval_domain_size: Felt,
    pub eval_domain_size: Felt,
    pub eval_generator: Felt,
    pub log_trace_domain_size: Felt,
    pub trace_domain_size: Felt,
    pub trace_generator: Felt,
}

/// The Fiat-Shamir transcript's running state: a digest and a counter.
/// Every value the verifier "draws at random" is a function of this pair.
#[derive(Debug, Clone, Copy, PartialEq, Eq)]
#[verifier::ext_equal]
pub struct Transcript {
    pub digest: Felt,
    pub counter: Felt,
}

/// The commitment to the execution traces: the two tree roots and the
/// interaction challenges drawn between them.
#[derive(Debug, Clone, PartialEq, Eq)]
#[verifier::ext_equal]
pub struct TracesCommitment {
    pub original_root: Felt,
    pub interaction_root: Felt,
    pub interaction_elements: Vec<Felt>,
}

/// The FRI commitment: one tree root and one evaluation point per inner
/// layer, and the last layer's polynomial coefficients.
#[derive(Debug, Clone, PartialEq, Eq)]
#[verifier::ext_equal]
pub struct FriCommitment {
    pub inner_layer_roots: Vec<Felt>,
    pub eval_points: Vec<Felt>,
    pub last_layer_coefficients: Vec<Felt>,
}

/// The complete STARK commitment snapshot that the verify phase reads.
#[derive(Debug, Clone, PartialEq, Eq)]
#[verifier::ext_equal]
pub struct StarkCommitment {
    pub traces: TracesCommitment,
    pub composition_root: Felt,
    pub interaction_after_composition: Felt,
    pub oods_values: Vec<Felt>,
    pub interaction_after_oods: Vec<Felt>,
    pub fri: FriCommitment,
}

/// Values the root task derives once and every later task reads.
#[derive(Debug, Clone, PartialEq, Eq)]
#[verifier::ext_equal]
pub struct VerifyIntermediate {
    /// Column count of the original trace.
    pub n_original_columns: u32,
    /// Column count of the interaction trace.
    pub n_interaction_columns: u32,
    /// The parsed proof configuration; written by the root task.
    pub config: Option<ProofConfig>,
    /// The derived domains; written by the root task.
    pub stark_domains: Option<StarkDomains>,
    /// The transcript; seeded by the root task, advanced by the commit
    /// tasks and the query generator.
    pub transcript: Option<Transcript>,
    /// The finished commitment snapshot; written by StarkCommitAssign.
    pub stark_commitment: Option<StarkCommitment>,
    /// The query indices; written by GenerateQueries.
    pub queries: Vec<u64>,
}

/// The verified program's observable result.
#[derive(Debug, Clone, PartialEq, Eq)]
#[verifier::ext_equal]
pub struct VerifyOutputIntermediate {
    /// The public output sequence; written by VerifyOutput.
    pub output: Vec<Felt>,
    /// The program hash; written by VerifyOutput.
    pub program_hash: Option<Felt>,
}

/// Partial commitment outputs shared between the commit sub-tasks before
/// StarkCommitAssign copies them into the canonical snapshot.
#[derive(Debug, Clone, PartialEq, Eq)]
#[verifier::ext_equal]
pub struct StarkCommitIntermediate {
    pub traces_commitment: Option<TracesCommitment>,
    pub composition_alpha: Option<Felt>,
    pub composition_root: Option<Felt>,
    pub interaction_after_composition: Option<Felt>,
    pub oods_alpha: Option<Felt>,
    /// The OODS coefficients; written by StarkCommitOodsCoef.
    pub oods_coefficients: Vec<Felt>,
    pub fri_commitment: Option<FriCommitment>,
}

/// The query points and FRI input evaluations; written by StarkVerify and
/// consumed by StarkVerifyFri.
#[derive(Debug, Clone, PartialEq, Eq)]
#[verifier::ext_equal]
pub struct StarkVerifyIntermediate {
    pub points: Vec<Felt>,
    pub evaluations: Vec<Felt>,
}

/// Everything computed during verification and consumed by later tasks.
/// Each field is written only by the task whose name matches it;
/// downstream tasks read but never re-initialise.
#[derive(Debug, Clone, PartialEq, Eq)]
#[verifier::ext_equal]
pub struct Intermediate {
    pub verify: VerifyIntermediate,
    pub verify_output: VerifyOutputIntermediate,
    pub stark_commit: StarkCommitIntermediate,
    pub stark_verify: StarkVerifyIntermediate,
}

impl Intermediate {
    /// A fresh, empty intermediate region.
    pub fn new() -> (r: Intermediate)
        ensures
            r.verify.config is None,
            r.verify.stark_domains is None,
            r.verify.transcript is None,
            r.verify.stark_commitment is None,
            r.verify.queries@.len() == 0,
            r.verify_output.output@.len() == 0,
            r.verify_output.program_hash is None,
            r.stark_commit.traces_commitment is None,
            r.stark_commit.oods_coefficients@.len() == 0,
            r.stark_commit.fri_commitment is None,
            r.stark_verify.points@.len() == 0,
            r.stark_verify.evaluations@.len() == 0,
    {
        Intermediate {
            verify: VerifyIntermediate {
                n_original_columns: 0,
                n_interaction_columns: 0,
                config: None,
                stark_domains: None,
                transcript: None,
                stark_commitment: None,
                queries: Vec::new(),
            },
            verify_output: VerifyOutputIntermediate { output: Vec::new(), program_hash: None },
            stark_commit: StarkCommitIntermediate {
                traces_commitment: None,
                composition_alpha: None,
                composition_root: None,
                interaction_after_composition: None,
                oods_alpha: None,
                oods_coefficients: Vec::new(),
                fri_commitment: None,
            },
            stark_verify: StarkVerifyIntermediate { points: Vec::new(), evaluations: Vec::new() },
        }
    }

    /// The verified public output, empty until VerifyOutput has run.
    pub fn output(&self) -> (r: &Vec<Felt>)
        ensures
            r@ == self.verify_output.output@,
    {
        &self.verify_output.output
    }

    /// The verified program hash, None until VerifyOutput has run.
    pub fn program_hash(&self) -> (r: Option<Felt>)
        ensures
            r == self.verify_output.program_hash,
    {
        self.verify_output.program_hash
    }
}

} // verus!
