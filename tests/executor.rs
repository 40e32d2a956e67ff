use coop_executor::executor::{Executor, Step, TaskState};
use coop_executor::wake::{WakeError, WAKE_CAPACITY};

/// Drives the executor until it is idle. Task `id` reports `Pending`
/// `pendings[id]` times and then `Ready`. Returns the ids in resume order.
fn drive(exec: &mut Executor, pendings: &mut Vec<u32>) -> Vec<usize> {
    let mut order = Vec::new();
    while let Some(id) = exec.next_task() {
        order.push(id);
        if pendings[id] > 0 {
            pendings[id] -= 1;
            exec.report(Step::Pending);
        } else {
            exec.report(Step::Ready);
        }
    }
    order
}

#[test]
fn ready_at_once_is_resumed_exactly_once() {
    let mut exec = Executor::new();
    let id = exec.spawn();
    assert_eq!(id, 0);
    let mut pendings = vec![0];
    let order = drive(&mut exec, &mut pendings);
    assert_eq!(order, vec![0]);
    assert_eq!(exec.ready_len(), 0);
    assert_eq!(exec.pending_wake_count(), 0);
    assert_eq!(exec.state(0), Some(TaskState::Done));
}

#[test]
fn three_resumptions_in_queue_order() {
    let mut exec = Executor::new();
    let a = exec.spawn();
    let b = exec.spawn();
    let mut pendings = vec![2, 0];
    let order = drive(&mut exec, &mut pendings);
    assert_eq!(order, vec![a, b, a, a]);
    assert_eq!(order.iter().filter(|&&i| i == a).count(), 3);
}

#[test]
fn round_robin_is_fifo() {
    let mut exec = Executor::new();
    let a = exec.spawn();
    let b = exec.spawn();
    let c = exec.spawn();
    let mut pendings = vec![1, 1, 1];
    let order = drive(&mut exec, &mut pendings);
    assert_eq!(order, vec![a, b, c, a, b, c]);
}

#[test]
fn thousand_tasks_complete_once_each() {
    let mut exec = Executor::new();
    for i in 0..1000usize {
        assert_eq!(exec.spawn(), i);
    }
    let mut pendings = vec![0; 1000];
    let order = drive(&mut exec, &mut pendings);
    assert_eq!(order.len(), 1000);
    let mut seen = vec![false; 1000];
    for id in order {
        assert!(!seen[id]);
        seen[id] = true;
    }
    for id in 0..1000usize {
        assert_eq!(exec.state(id), Some(TaskState::Done));
    }
}

#[test]
fn wake_is_safe_in_every_phase() {
    let mut exec = Executor::new();
    let a = exec.spawn();
    let b = exec.spawn();
    // before the task first runs
    assert_eq!(exec.wake(a), Ok(()));
    let first = exec.next_task();
    assert_eq!(first, Some(a));
    assert_eq!(exec.pending_wake_count(), 0);
    // while it runs
    assert_eq!(exec.wake(a), Ok(()));
    assert_eq!(exec.wake(a), Ok(()));
    exec.report(Step::Ready);
    // after it completed, and for an id that was never spawned
    assert_eq!(exec.wake(a), Ok(()));
    assert_eq!(exec.wake(77), Ok(()));
    assert_eq!(exec.pending_wake_count(), 4);
    assert_eq!(exec.next_task(), Some(b));
    exec.report(Step::Ready);
    assert_eq!(exec.next_task(), None);
    assert_eq!(exec.state(a), Some(TaskState::Done));
    assert_eq!(exec.state(77), None);
}

#[test]
fn repeated_wakes_do_not_duplicate_a_task() {
    let mut exec = Executor::new();
    let a = exec.spawn();
    let b = exec.spawn();
    for _ in 0..50 {
        assert_eq!(exec.wake(a), Ok(()));
        assert_eq!(exec.wake(b), Ok(()));
    }
    exec.drain_wakes();
    assert_eq!(exec.pending_wake_count(), 0);
    assert_eq!(exec.ready_len(), 2);
    let mut pendings = vec![1, 0];
    let order = drive(&mut exec, &mut pendings);
    assert_eq!(order, vec![a, b, a]);
}

#[test]
fn wake_after_pending_resumes_the_task_again() {
    let mut exec = Executor::new();
    let a = exec.spawn();
    assert_eq!(exec.next_task(), Some(a));
    assert_eq!(exec.wake(a), Ok(()));
    exec.report(Step::Pending);
    assert_eq!(exec.state(a), Some(TaskState::Queued));
    assert_eq!(exec.next_task(), Some(a));
    assert_eq!(exec.running_task(), Some(a));
    exec.report(Step::Ready);
    assert_eq!(exec.next_task(), None);
}

#[test]
fn wake_overflow_is_reported() {
    let mut exec = Executor::new();
    let a = exec.spawn();
    for _ in 0..WAKE_CAPACITY {
        assert_eq!(exec.wake(a), Ok(()));
    }
    assert_eq!(exec.wake(a), Err(WakeError::Overflow));
    assert_eq!(exec.pending_wake_count(), WAKE_CAPACITY);
    assert_eq!(exec.next_task(), Some(a));
    assert_eq!(exec.pending_wake_count(), 0);
    assert_eq!(exec.wake(a), Ok(()));
}

#[test]
fn empty_executor_is_idle() {
    let mut exec = Executor::new();
    assert_eq!(exec.task_count(), 0);
    assert_eq!(exec.next_task(), None);
    exec.report(Step::Pending);
    assert_eq!(exec.ready_len(), 0);
    assert_eq!(exec.running_task(), None);
}

#[test]
fn report_without_running_task_changes_nothing() {
    let mut exec = Executor::new();
    let a = exec.spawn();
    exec.report(Step::Ready);
    assert_eq!(exec.state(a), Some(TaskState::Queued));
    assert_eq!(exec.ready_len(), 1);
}
