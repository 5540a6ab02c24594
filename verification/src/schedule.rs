use vstd::prelude::*;

verus! {

use crate::error::ProgramError;
use crate::task::{plan_tasks, spec_encode, spec_plan, RawTask};

/// The schedule never holds more than this many pending descriptors.
pub const SCHEDULE_CAPACITY: usize = 1000;

/// The stack of pending task descriptors. Descriptors are popped in LIFO
/// order, which walks the task tree depth-first. The stack's height is the
/// length of its view; its capacity is fixed at [`SCHEDULE_CAPACITY`].
#[derive(Debug, Clone, PartialEq, Eq)]
pub struct Schedule {
    data: Vec<RawTask>,
}

impl View for Schedule {
    type V = Seq<RawTask>;

    /// The pending descriptors, bottom of the stack first.
    closed spec fn view(&self) -> Seq<RawTask> {
        self.data@
    }
}

impl Schedule {
    /// An empty schedule.
    pub fn new() -> (r: Schedule)
        ensures
            r@ =~= Seq::<RawTask>::empty(),
    {
        Schedule { data: Vec::new() }
    }

    /// The run is complete exactly when no descriptor is pending.
    pub fn finished(&self) -> (r: bool)
        ensures
            r == (self@.len() == 0),
    {
        self.data.len() == 0
    }

    /// Returns and removes the top descriptor, or None on an empty stack.
    pub fn next(&mut self) -> (r: Option<RawTask>)
        ensures
            old(self)@.len() == 0 ==> r is None && *final(self) == *old(self),
            old(self)@.len() > 0 ==> r == Some(old(self)@.last())
                && final(self)@ =~= old(self)@.drop_last(),
    {
        if self.data.len() == 0 {
            None
        } else {
            self.data.pop()
        }
    }

    /// The top descriptor without removing it: the task the next
    /// VerifyProof invocation will run.
    pub fn peek(&self) -> (r: Option<RawTask>)
        ensures
            self@.len() == 0 ==> r is None,
            self@.len() > 0 ==> r == Some(self@.last()),
    {
        if self.data.len() == 0 {
            None
        } else {
            Some(self.data[self.data.len() - 1])
        }
    }

    /// Appends one descriptor; fails with the schedule-full code when the
    /// stack is at capacity, leaving it unchanged.
    pub fn push(&mut self, value: RawTask) -> (r: Result<(), ProgramError>)
        ensures
            old(self)@.len() < SCHEDULE_CAPACITY ==> r is Ok
                && final(self)@ =~= old(self)@.push(value),
            old(self)@.len() >= SCHEDULE_CAPACITY ==> r == Err::<(), ProgramError>(
                ProgramError::ScheduleFull,
            ) && final(self)@ =~= old(self)@,
    {
        if self.data.len() < SCHEDULE_CAPACITY {
            self.data.push(value);
            Ok(())
        } else {
            Err(ProgramError::ScheduleFull)
        }
    }

    /// Appends a task's children, given in execution order. Since pops are
    /// LIFO, the block is pushed in reverse, so that the first child of the
    /// slice is the next descriptor popped. Fails with the schedule-full
    /// code, leaving the stack unchanged, when the block does not fit.
    pub fn push_slice(&mut self, tasks: &[RawTask]) -> (r: Result<(), ProgramError>)
        ensures
            old(self)@.len() + tasks@.len() <= SCHEDULE_CAPACITY ==> r is Ok
                && final(self)@ =~= old(self)@ + tasks@.reverse(),
            old(self)@.len() + tasks@.len() > SCHEDULE_CAPACITY ==> r == Err::<(), ProgramError>(
                ProgramError::ScheduleFull,
            ) && final(self)@ =~= old(self)@,
    {
        if tasks.len() > SCHEDULE_CAPACITY || self.data.len() > SCHEDULE_CAPACITY - tasks.len() {
            return Err(ProgramError::ScheduleFull);
        }
        let mut i: usize = tasks.len();
        while i > 0
            invariant
                i <= tasks@.len(),
                self.data@.len() == old(self).data@.len() + (tasks@.len() - i),
                self.data@ =~= old(self).data@ + tasks@.reverse().take(tasks@.len() - i),
                old(self).data@.len() + tasks@.len() <= SCHEDULE_CAPACITY,
            decreases i,
        {
            i = i - 1;
            let t = tasks[i];
            proof {
                assert(tasks@.reverse()[tasks@.len() - i - 1] == tasks@[i as int]);
            }
            self.data.push(t);
        }
        proof {
            assert(tasks@.reverse().take(tasks@.len() as int) =~= tasks@.reverse());
        }
        Ok(())
    }

    /// Empties the schedule.
    pub fn flush(&mut self)
        ensures
            final(self)@ =~= Seq::<RawTask>::empty(),
    {
        self.data.clear();
    }

    /// A schedule holding exactly the given descriptors, bottom first.
    pub fn from_slice(tasks: &[RawTask]) -> (r: Schedule)
        requires
            tasks@.len() <= SCHEDULE_CAPACITY,
        ensures
            r@ =~= tasks@,
    {
        let mut data: Vec<RawTask> = Vec::new();
        let mut i: usize = 0;
        while i < tasks.len()
            invariant
                i <= tasks@.len(),
                data@ =~= tasks@.take(i as int),
            decreases tasks@.len() - i,
        {
            data.push(tasks[i]);
            i = i + 1;
        }
        proof {
            assert(tasks@.take(tasks@.len() as int) =~= tasks@);
        }
        Schedule { data }
    }

    /// The pending descriptors, bottom of the stack first, for a host
    /// that persists the schedule.
    pub fn records(&self) -> (r: &Vec<RawTask>)
        ensures
            r@ =~= self@,
    {
        &self.data
    }

    /// How many descriptors are pending: the stack's `top` cursor.
    pub fn remaining(&self) -> (r: usize)
        ensures
            r == self@.len(),
    {
        self.data.len()
    }
}

impl Default for Schedule {
    /// An empty schedule.
    fn default() -> (r: Schedule)
        ensures
            r@ =~= Seq::<RawTask>::empty(),
    {
        Schedule::new()
    }
}

/// After a task's children are appended, the next descriptor popped is the
/// first child in execution order: pushing reversed and popping LIFO yields
/// the intended order.
pub proof fn lemma_push_slice_then_next(stack: Seq<RawTask>, children: Seq<RawTask>)
    requires
        children.len() > 0,
    ensures
        (stack + children.reverse()).last() == children[0],
        (stack + children.reverse()).drop_last() =~= stack + children.drop_first().reverse(),
{
    let combined = stack + children.reverse();
    assert(combined.last() == children.reverse()[children.len() - 1]);
    assert(children.reverse()[children.len() - 1] == children[0]);
    assert forall|j: int| 0 <= j < children.len() - 1 implies children.drop_first().reverse()[j]
        == children.reverse()[j] by {
        assert(children.drop_first().reverse()[j] == children.drop_first()[children.len() - 2 - j]);
        assert(children.drop_first()[children.len() - 2 - j] == children[children.len() - 1 - j]);
    }
}

impl Schedule {
    /// Appends the task plan of a run with the given number of FRI
    /// layers: every statically known task of the tree, in execution
    /// order. The data-dependent per-coset folds are not part of the
    /// plan — they schedule themselves at run time — so the plan's size
    /// is a lower bound on a run's invocations, not the exact count.
    /// Fails, leaving the schedule unchanged, exactly when the layer
    /// count is not a real one or the plan does not fit.
    pub fn generate_tasks(&mut self, n_layers: u64) -> (r: Result<(), ProgramError>)
        ensures
            r is Ok <==> (1 <= n_layers <= 256 && old(self)@.len() + spec_plan(
                (n_layers - 1) as nat,
            ).len() <= SCHEDULE_CAPACITY),
            match r {
                Ok(()) => {
                    &&& final(self)@.len() == old(self)@.len() + spec_plan(
                        (n_layers - 1) as nat,
                    ).len()
                    &&& final(self)@.take(old(self)@.len() as int) =~= old(self)@
                    &&& forall|j: int|
                        0 <= j < spec_plan((n_layers - 1) as nat).len() ==> final(self)@[old(
                            self,
                        )@.len() + j]@ =~= spec_encode(#[trigger] spec_plan((n_layers - 1) as nat)[j])
                },
                Err(e) => {
                    &&& final(self)@ =~= old(self)@
                    &&& (!(1 <= n_layers <= 256) ==> e == ProgramError::InvalidValue)
                    &&& (1 <= n_layers <= 256 ==> e == ProgramError::ScheduleFull)
                },
            },
    {
        if n_layers < 1 || n_layers > 256 {
            return Err(ProgramError::InvalidValue);
        }
        let n_inner = (n_layers - 1) as u8;
        let plan = plan_tasks(n_inner);
        if plan.len() > SCHEDULE_CAPACITY || self.remaining() > SCHEDULE_CAPACITY - plan.len() {
            return Err(ProgramError::ScheduleFull);
        }
        let ghost base = self@;
        let ghost the_plan = plan@;
        let mut j: usize = 0;
        while j < plan.len()
            invariant
                j <= plan@.len(),
                plan@ == the_plan,
                the_plan =~= spec_plan(n_inner as nat),
                base.len() + plan@.len() <= SCHEDULE_CAPACITY,
                self@.len() == base.len() + j,
                self@.take(base.len() as int) =~= base,
                forall|k: int|
                    0 <= k < j ==> self@[base.len() + k]@ =~= spec_encode(#[trigger] the_plan[k]),
            decreases plan@.len() - j,
        {
            let record = plan[j].encode();
            match self.push(record) {
                Ok(()) => (),
                Err(e) => {
                    return Err(e);
                },
            }
            j = j + 1;
        }
        Ok(())
    }
}

} // verus!
