//! An on-chain STARK proof verifier split into small resumable tasks.
//!
//! The host limits any single invocation's compute, but allows many
//! sequential invocations against one persistent proof account. The
//! account holds the published proof bytes, the values tasks exchange,
//! the FRI working state, and a bounded stack of pending task
//! descriptors; three commands drive it through the Publish, Verify and
//! Verified stages. Everything the pipeline decides — stage transitions,
//! scheduling, descriptor codecs, fragment splicing, and the data flow
//! between tasks — is verified here; the cryptographic primitives are
//! opaque operations whose results an executor hands in.

use vstd::prelude::*;

pub mod cache;
pub mod error;
pub mod felt;
pub mod intermediate;
pub mod publish;
pub mod response;
pub mod schedule;
pub mod task;
pub mod util;
pub mod verify;

verus! {

use crate::error::ProgramError;

/// The three-valued lifecycle of a proof account: fragments of the proof
/// are published, then verification tasks run one per invocation, then the
/// account is verified. The stage only ever advances.
#[derive(Debug, Clone, Copy, PartialEq, Eq, Structural)]
pub enum VerificationStage {
    Publish,
    Verify,
    Verified,
}

impl VerificationStage {
    /// The stage's position in the order Publish < Verify < Verified.
    pub open spec fn spec_rank(&self) -> int {
        match self {
            VerificationStage::Publish => 0,
            VerificationStage::Verify => 1,
            VerificationStage::Verified => 2,
        }
    }

    /// Decodes the account's stage byte. Exactly the bytes 0, 1 and 2 are
    /// stages; any other byte is rejected with the unknown-stage code.
    pub fn from_byte(value: u8) -> (r: Result<VerificationStage, ProgramError>)
        ensures
            value == 0 ==> r == Ok::<VerificationStage, ProgramError>(VerificationStage::Publish),
            value == 1 ==> r == Ok::<VerificationStage, ProgramError>(VerificationStage::Verify),
            value == 2 ==> r == Ok::<VerificationStage, ProgramError>(VerificationStage::Verified),
            value > 2 ==> r == Err::<VerificationStage, ProgramError>(ProgramError::UnknownStage),
    {
        match value {
            0 => Ok(VerificationStage::Publish),
            1 => Ok(VerificationStage::Verify),
            2 => Ok(VerificationStage::Verified),
            _ => Err(ProgramError::UnknownStage),
        }
    }

    /// Encodes the stage into the account's stage byte.
    pub fn to_byte(&self) -> (r: u8)
        ensures
            r == self.spec_byte(),
            r <= 2,
    {
        match self {
            VerificationStage::Publish => 0,
            VerificationStage::Verify => 1,
            VerificationStage::Verified => 2,
        }
    }

    pub open spec fn spec_byte(&self) -> u8 {
        match self {
            VerificationStage::Publish => 0,
            VerificationStage::Verify => 1,
            VerificationStage::Verified => 2,
        }
    }
}

/// `a` comes no later than `b` in the lifecycle order.
pub open spec fn stage_le(a: VerificationStage, b: VerificationStage) -> bool {
    a.spec_rank() <= b.spec_rank()
}

/// The lifecycle order is transitive, so the per-invocation guarantee that
/// the stage never moves backwards extends to any sequence of invocations.
pub proof fn lemma_stage_le_trans(a: VerificationStage, b: VerificationStage, c: VerificationStage)
    requires
        stage_le(a, b),
        stage_le(b, c),
    ensures
        stage_le(a, c),
{
}

/// The three commands a client can send to the account.
#[derive(Debug, Clone, PartialEq, Eq)]
pub enum Entrypoint {
    /// Splice `data` into the proof region starting at `offset`.
    PublishFragment { offset: usize, data: Vec<u8> },
    /// Seed the schedule with the root verification task.
    Schedule,
    /// Pop one task, execute it, push its children.
    VerifyProof,
}


use crate::cache::Cache;
use crate::intermediate::Intermediate;
use crate::publish::{splice, write_fragment};
use crate::response::TaskResponse;
use crate::schedule::Schedule;
use crate::schedule::SCHEDULE_CAPACITY;
use crate::task::{spec_decode, spec_encode, spec_view, Tasks};

/// The persistent verifier state: the proof region the client publishes
/// into, the scratch cache, the intermediate values tasks exchange, and
/// the schedule of pending tasks. The host stores it in one account and
/// grants each invocation exclusive mutable access; the stage byte lives
/// beside it in the account header.
#[derive(Debug, Clone, PartialEq, Eq)]
#[verifier::ext_equal]
pub struct ProofAccount {
    /// The serialised proof bytes, written by PublishFragment commands
    /// during the Publish stage and read-only thereafter.
    pub proof_bytes: Vec<u8>,
    /// Scratch for the FRI fold, carried between invocations.
    pub cache: Cache,
    /// Values computed by tasks and consumed by later tasks.
    pub intermediate: Intermediate,
    /// The pending task descriptors.
    pub schedule: Schedule,
}

impl ProofAccount {
    /// A fresh account with a zeroed proof region of the given size, an
    /// empty schedule, and empty caches and intermediates.
    pub fn new(proof_region_size: usize) -> (r: ProofAccount)
        ensures
            r.proof_bytes@.len() == proof_region_size,
            forall|j: int| 0 <= j < proof_region_size ==> r.proof_bytes@[j] == 0u8,
            r.schedule@.len() == 0,
    {
        let mut proof_bytes: Vec<u8> = Vec::new();
        let mut i: usize = 0;
        while i < proof_region_size
            invariant
                i <= proof_region_size,
                proof_bytes@.len() == i,
                forall|j: int| 0 <= j < i ==> proof_bytes@[j] == 0u8,
            decreases proof_region_size - i,
        {
            proof_bytes.push(0u8);
            i = i + 1;
        }
        ProofAccount {
            proof_bytes,
            cache: Cache::new(),
            intermediate: Intermediate::new(),
            schedule: Schedule::new(),
        }
    }

    /// The task the next VerifyProof invocation will pop, so the caller
    /// can compute that task's executor response ahead of the call.
    pub fn next_task(&self) -> (r: Option<Result<Tasks, ProgramError>>)
        ensures
            self.schedule@.len() == 0 ==> r is None,
            self.schedule@.len() > 0 ==> r == Some(spec_decode(self.schedule@.last()@)),
    {
        match self.schedule.peek() {
            Some(record) => Some(Tasks::decode(&record)),
            None => None,
        }
    }
}

/// After one VerifyProof invocation, the new schedule extends the old one
/// minus its popped top by the encodings of the executed task's children,
/// pushed in reverse so that LIFO pops run them in execution order.
pub open spec fn schedule_extends(
    old_s: Seq<crate::task::RawTask>,
    new_s: Seq<crate::task::RawTask>,
    children: Seq<Tasks>,
) -> bool {
    &&& old_s.len() > 0
    &&& new_s.len() == old_s.len() - 1 + children.len()
    &&& new_s.take(old_s.len() - 1) =~= old_s.drop_last()
    &&& forall|k: int| 0 <= k < children.len() ==> #[trigger] child_encoded_at(old_s, new_s, children, k)
}

/// Position `k` of the appended block holds the encoding of the child
/// that is `k`-th from the end of the execution-order list.
pub open spec fn child_encoded_at(
    old_s: Seq<crate::task::RawTask>,
    new_s: Seq<crate::task::RawTask>,
    children: Seq<Tasks>,
    k: int,
) -> bool {
    new_s[old_s.len() - 1 + k]@ =~= spec_encode(children[children.len() - 1 - k])
}

/// The stage an invocation leaves behind: the returned stage on success,
/// the unchanged input stage on failure.
pub open spec fn stage_after(
    stage: VerificationStage,
    r: Result<VerificationStage, ProgramError>,
) -> VerificationStage {
    match r {
        Ok(s) => s,
        Err(_) => stage,
    }
}

/// Handles one command against the account. The account's stage byte is
/// passed in and the stage to write back is returned; a failed invocation
/// leaves the stage as it was.
///
/// PublishFragment splices its bytes into the proof region, only in the
/// Publish stage. Schedule clears the schedule, pushes the single root
/// task and advances to Verify, only in the Publish stage. VerifyProof
/// pops one task, executes it against the executor's response, pushes the
/// task's children in execution order, and advances to Verified exactly
/// when the schedule empties; each wrong-stage combination fails with its
/// own code, and popping an empty schedule fails with the empty-schedule
/// code.
pub fn process_instruction(
    instruction: &Entrypoint,
    account: &mut ProofAccount,
    stage: VerificationStage,
    response: Option<TaskResponse>,
) -> (r: Result<VerificationStage, ProgramError>)
    requires
        instruction matches Entrypoint::PublishFragment { offset, data } ==> offset + data@.len()
            <= old(account).proof_bytes@.len(),
    ensures
        // the stage is monotone: no invocation ever moves it backwards
        stage_le(stage, stage_after(stage, r)),
        // a Publish-stage account with an empty schedule keeps its
        // schedule empty for as long as it stays in the Publish stage
        (stage is Publish && old(account).schedule@.len() == 0 && stage_after(stage, r)
            is Publish) ==> final(account).schedule@.len() == 0,
        // PublishFragment: splice in the Publish stage, error elsewhere
        instruction matches Entrypoint::PublishFragment { offset, data } ==> (stage is Publish
            ==> r == Ok::<VerificationStage, ProgramError>(VerificationStage::Publish) && final(account).proof_bytes@ =~= splice(old(account).proof_bytes@, offset as int, data@) && final(account).schedule == old(account).schedule && final(account).cache == old(account).cache && final(account).intermediate == old(account).intermediate),
        (instruction is PublishFragment && !(stage is Publish)) ==> r == Err::<
            VerificationStage,
            ProgramError,
        >(ProgramError::PublishWrongStage) && *final(account) == *old(account),
        // Schedule: seed the root task and advance, error outside Publish
        (instruction is Schedule && stage is Publish) ==> r == Ok::<
            VerificationStage,
            ProgramError,
        >(VerificationStage::Verify) && final(account).schedule@.len() == 1 && final(account).schedule@[0]@ =~= spec_encode(Tasks::VerifyProofWithoutStark) && final(account).proof_bytes == old(account).proof_bytes && final(account).cache == old(account).cache
            && final(account).intermediate == old(account).intermediate,
        (instruction is Schedule && !(stage is Publish)) ==> r == Err::<
            VerificationStage,
            ProgramError,
        >(ProgramError::ScheduleWrongStage) && *final(account) == *old(account),
        // VerifyProof: stage discipline and completion detection
        (instruction is VerifyProof && stage is Verified) ==> r == Err::<
            VerificationStage,
            ProgramError,
        >(ProgramError::AlreadyVerified) && *final(account) == *old(account),
        (instruction is VerifyProof && stage is Publish) ==> r == Err::<
            VerificationStage,
            ProgramError,
        >(ProgramError::VerifyWrongStage) && *final(account) == *old(account),
        (instruction is VerifyProof && stage is Verify && old(account).schedule@.len() == 0) ==> r
            == Err::<VerificationStage, ProgramError>(ProgramError::ScheduleEmpty) && *final(account) == *old(account),
        (instruction is VerifyProof && r is Ok) ==> stage is Verify && final(account).proof_bytes
            == old(account).proof_bytes && (stage_after(stage, r) is Verified <==> final(account).schedule@.len() == 0) && (stage_after(stage, r) is Verify <==> final(account).schedule@.len() > 0),
        // success is owed exactly when the popped descriptor decodes, the
        // executor's response is the decoded task's and that task accepts
        // it, and the task's children fit the schedule
        (instruction is VerifyProof && stage is Verify && old(account).schedule@.len() > 0) ==> (
        spec_decode(old(account).schedule@.last()@) matches Ok(t) ==> (r is Ok ==> (response
            matches Some(resp) && spec_view(t).accepts(
            old(account).cache,
            old(account).intermediate,
            resp,
        ) && old(account).schedule@.len() - 1 + spec_view(t).spec_children(
            old(account).cache,
            old(account).intermediate,
            resp,
        ).len() <= SCHEDULE_CAPACITY))),
        (instruction is VerifyProof && stage is Verify && old(account).schedule@.len() > 0) ==> (
        spec_decode(old(account).schedule@.last()@) matches Ok(t) ==> (response matches Some(resp)
            ==> (spec_view(t).accepts(old(account).cache, old(account).intermediate, resp) && old(
            account,
        ).schedule@.len() - 1 + spec_view(t).spec_children(
            old(account).cache,
            old(account).intermediate,
            resp,
        ).len() <= SCHEDULE_CAPACITY ==> r is Ok))),
        // a successful invocation has exactly the popped task's effect:
        // the cache and intermediate change as that task's contract says,
        // and the schedule holds the old descriptors below the popped one
        // with the task's children appended in reverse execution order
        (instruction is VerifyProof && stage is Verify && old(account).schedule@.len() > 0) ==> (
        spec_decode(old(account).schedule@.last()@) matches Ok(t) ==> (r is Ok ==> (response
            matches Some(resp) && spec_view(t).applies(
            old(account).cache,
            old(account).intermediate,
            final(account).cache,
            final(account).intermediate,
            spec_view(t).spec_children(old(account).cache, old(account).intermediate, resp),
            resp,
        ) && schedule_extends(
            old(account).schedule@,
            final(account).schedule@,
            spec_view(t).spec_children(old(account).cache, old(account).intermediate, resp),
        )))),
        // a failed invocation has at most popped the top descriptor, and
        // only a schedule-capacity failure leaves a task's effect behind
        (instruction is VerifyProof && r is Err) ==> final(account).schedule@ =~= old(
            account,
        ).schedule@ || final(account).schedule@ =~= old(account).schedule@.drop_last(),
        (instruction is VerifyProof && r is Err && r != Err::<VerificationStage, ProgramError>(
            ProgramError::ScheduleFull,
        )) ==> final(account).cache == old(account).cache && final(account).intermediate == old(
            account,
        ).intermediate,
        // a descriptor that does not decode fails with its decode error,
        // after the pop and before anything else
        (instruction is VerifyProof && stage is Verify && old(account).schedule@.len() > 0) ==> (
        spec_decode(old(account).schedule@.last()@) matches Err(de) ==> r == Err::<
            VerificationStage,
            ProgramError,
        >(de) && final(account).schedule@ =~= old(account).schedule@.drop_last() && final(account).cache == old(account).cache && final(account).intermediate == old(account).intermediate),
        // an invocation that fails after the pop has at most popped: the
        // proof region never changes outside the Publish stage
        (instruction is VerifyProof) ==> final(account).proof_bytes == old(account).proof_bytes,
{
    match instruction {
        Entrypoint::PublishFragment { offset, data } => {
            if !matches!(stage, VerificationStage::Publish) {
                return Err(ProgramError::PublishWrongStage);
            }
            write_fragment(&mut account.proof_bytes, *offset, data.as_slice());
            Ok(VerificationStage::Publish)
        },
        Entrypoint::Schedule => {
            if !matches!(stage, VerificationStage::Publish) {
                return Err(ProgramError::ScheduleWrongStage);
            }
            account.schedule.flush();
            match account.schedule.push(Tasks::VerifyProofWithoutStark.encode()) {
                Ok(()) => (),
                Err(e) => {
                    return Err(e);
                },
            }
            Ok(VerificationStage::Verify)
        },
        Entrypoint::VerifyProof => {
            if matches!(stage, VerificationStage::Verified) {
                return Err(ProgramError::AlreadyVerified);
            }
            if !matches!(stage, VerificationStage::Verify) {
                return Err(ProgramError::VerifyWrongStage);
            }
            let record = match account.schedule.next() {
                Some(record) => record,
                None => {
                    return Err(ProgramError::ScheduleEmpty);
                },
            };
            let task = match Tasks::decode(&record) {
                Ok(task) => task,
                Err(e) => {
                    return Err(e);
                },
            };
            let response = match response {
                Some(response) => response,
                None => {
                    return Err(ProgramError::ResponseMismatch);
                },
            };
            let ghost resp = response;
            let children = match task.view().execute(
                &mut account.cache,
                &mut account.intermediate,
                response,
            ) {
                Ok(children) => children,
                Err(e) => {
                    return Err(e);
                },
            };
            let mut records: Vec<crate::task::RawTask> = Vec::new();
            let mut i: usize = 0;
            while i < children.len()
                invariant
                    i <= children@.len(),
                    records@.len() == i,
                    forall|k: int| 0 <= k < i ==> records@[k]@ =~= spec_encode(#[trigger] children@[k]),
                decreases children@.len() - i,
            {
                records.push(children[i].encode());
                i = i + 1;
            }
            match account.schedule.push_slice(records.as_slice()) {
                Ok(()) => (),
                Err(e) => {
                    return Err(e);
                },
            }
            proof {
                let old_s = old(account).schedule@;
                let new_s = account.schedule@;
                let cs = spec_view(task).spec_children(
                    old(account).cache,
                    old(account).intermediate,
                    resp,
                );
                assert(children@ == cs);
                assert forall|k: int| 0 <= k < cs.len() implies #[trigger] child_encoded_at(
                    old_s,
                    new_s,
                    cs,
                    k,
                ) by {
                    assert(new_s[old_s.len() - 1 + k] == records@.reverse()[k]);
                    assert(records@.reverse()[k] == records@[records@.len() - 1 - k]);
                }
                assert(schedule_extends(old_s, new_s, cs));
            }
            if account.schedule.finished() {
                Ok(VerificationStage::Verified)
            } else {
                Ok(VerificationStage::Verify)
            }
        },
    }
}

} // verus!
