use stark_pipeline::error::ProgramError;
use stark_pipeline::schedule::{Schedule, SCHEDULE_CAPACITY};
use stark_pipeline::task::Tasks;

#[test]
fn push_and_next_are_lifo() {
    let mut s = Schedule::new();
    assert!(s.finished());
    s.push([1, 0, 0, 0]).unwrap();
    s.push([2, 0, 0, 0]).unwrap();
    assert_eq!(s.remaining(), 2);
    assert_eq!(s.next(), Some([2, 0, 0, 0]));
    assert_eq!(s.next(), Some([1, 0, 0, 0]));
    assert_eq!(s.next(), None);
    assert!(s.finished());
}

#[test]
fn push_slice_pops_first_child_first() {
    // Children are handed over in execution order; the next pop must
    // return the first of them.
    let mut s = Schedule::new();
    s.push([9, 0, 0, 0]).unwrap();
    let children = [[5, 0, 0, 0], [6, 0, 0, 0], [7, 0, 0, 0]];
    s.push_slice(&children).unwrap();
    assert_eq!(s.next(), Some([5, 0, 0, 0]));
    assert_eq!(s.next(), Some([6, 0, 0, 0]));
    assert_eq!(s.next(), Some([7, 0, 0, 0]));
    assert_eq!(s.next(), Some([9, 0, 0, 0]));
    assert_eq!(s.next(), None);
}

#[test]
fn push_fails_at_capacity() {
    let mut s = Schedule::new();
    for _ in 0..SCHEDULE_CAPACITY {
        s.push([1, 0, 0, 0]).unwrap();
    }
    assert_eq!(s.push([1, 0, 0, 0]), Err(ProgramError::ScheduleFull));
    assert_eq!(s.remaining(), SCHEDULE_CAPACITY);
    assert_eq!(s.push_slice(&[[1, 0, 0, 0]]), Err(ProgramError::ScheduleFull));
}

#[test]
fn flush_empties_and_peek_observes_top() {
    let mut s = Schedule::from_slice(&[[1, 0, 0, 0], [2, 0, 0, 0]]);
    assert_eq!(s.remaining(), 2);
    assert_eq!(s.peek(), Some([2, 0, 0, 0]));
    assert_eq!(s.remaining(), 2);
    s.flush();
    assert!(s.finished());
    assert_eq!(s.peek(), None);
}

#[test]
fn generate_tasks_enumerates_the_plan() {
    // A run with three FRI layers has two inner layers: twelve tasks up
    // to the fan-out, five per inner layer, and two afterwards.
    let mut s = Schedule::new();
    s.generate_tasks(3).unwrap();
    assert_eq!(s.remaining(), 12 + 2 * 5 + 2);
    let mut tasks: Vec<Tasks> = Vec::new();
    while let Some(record) = s.next() {
        tasks.push(Tasks::decode(&record).unwrap());
    }
    // The plan is stored bottom-first, so popping returns it reversed;
    // restore the forward order for the check.
    tasks.reverse();
    assert_eq!(tasks[0], Tasks::VerifyProofWithoutStark);
    assert_eq!(tasks[1], Tasks::StarkCommit);
    assert_eq!(tasks[11], Tasks::StarkVerifyLayersTask);
    assert_eq!(tasks[12], Tasks::StarkVerifyFriLayer(0));
    assert_eq!(tasks[17], Tasks::StarkVerifyFriLayer(1));
    assert_eq!(tasks[22], Tasks::StarkVerifyLastLayerTask);
    assert_eq!(tasks[23], Tasks::VerifyOutput);
}

#[test]
fn generate_tasks_rejects_bad_layer_counts() {
    let mut s = Schedule::new();
    assert_eq!(s.generate_tasks(0), Err(ProgramError::InvalidValue));
    assert_eq!(s.generate_tasks(1000), Err(ProgramError::InvalidValue));
    assert!(s.finished());
}
