use vstd::prelude::*;

verus! {

/// Every way an invocation can fail. Each variant is surfaced to the host
/// as a distinct numeric code (see [`ProgramError::code`]); the codes for
/// the protocol errors are fixed by the wire contract, the remaining ones
/// extend that table.
#[derive(Debug, Clone, Copy, PartialEq, Eq, Structural)]
pub enum ProgramError {
    /// A task descriptor's kind byte is not a known task kind.
    UnknownTask,
    /// VerifyProof was invoked while the schedule is empty.
    ScheduleEmpty,
    /// The account's stage byte holds an unknown value.
    UnknownStage,
    /// PublishFragment was invoked outside the Publish stage.
    PublishWrongStage,
    /// Schedule was invoked outside the Publish stage.
    ScheduleWrongStage,
    /// VerifyProof was invoked in the Publish stage.
    VerifyWrongStage,
    /// A TableDecommit descriptor carries an unknown target byte.
    UnknownDecommitTarget,
    /// VerifyProof was invoked after the run already reached Verified.
    AlreadyVerified,
    /// Pushing a task's children would overflow the schedule's capacity.
    ScheduleFull,
    /// The executor's response does not belong to the task that was popped.
    ResponseMismatch,
    /// A task needs an intermediate value that no predecessor has written.
    MissingIntermediate,
    /// Two buffers that must pair up element-for-element have different
    /// lengths.
    InvalidLength,
    /// The last-layer polynomial's coefficient count does not equal the
    /// declared degree bound.
    InvalidValue,
    /// A cryptographic primitive rejected the proof; the inner code is the
    /// executor's own error code, passed through unchanged.
    VerificationFailed(u32),
}

impl ProgramError {
    /// The numeric code under which the host reports this error.
    pub fn code(&self) -> (r: u32)
        ensures
            r == self.spec_code(),
    {
        match self {
            ProgramError::UnknownTask => 2,
            ProgramError::ScheduleEmpty => 3,
            ProgramError::UnknownStage => 6,
            ProgramError::PublishWrongStage => 7,
            ProgramError::ScheduleWrongStage => 8,
            ProgramError::VerifyWrongStage => 9,
            ProgramError::UnknownDecommitTarget => 17,
            ProgramError::AlreadyVerified => 32,
            ProgramError::ScheduleFull => 33,
            ProgramError::ResponseMismatch => 34,
            ProgramError::MissingIntermediate => 35,
            ProgramError::InvalidLength => 36,
            ProgramError::InvalidValue => 37,
            ProgramError::VerificationFailed(c) => *c,
        }
    }

    /// The code of each variant, as the host sees it.
    pub open spec fn spec_code(&self) -> u32 {
        match self {
            ProgramError::UnknownTask => 2,
            ProgramError::ScheduleEmpty => 3,
            ProgramError::UnknownStage => 6,
            ProgramError::PublishWrongStage => 7,
            ProgramError::ScheduleWrongStage => 8,
            ProgramError::VerifyWrongStage => 9,
            ProgramError::UnknownDecommitTarget => 17,
            ProgramError::AlreadyVerified => 32,
            ProgramError::ScheduleFull => 33,
            ProgramError::ResponseMismatch => 34,
            ProgramError::MissingIntermediate => 35,
            ProgramError::InvalidLength => 36,
            ProgramError::InvalidValue => 37,
            ProgramError::VerificationFailed(c) => *c,
        }
    }
}

} // verus!
