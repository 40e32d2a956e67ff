//! The scheduling core of a cooperative executor.
//!
//! The executor tracks tasks by id; whoever owns the computations resumes the
//! task that `next_task` hands out and reports the outcome with `report`.
//! A task that reports `Pending` goes straight back to the tail of the ready
//! queue (eager requeueing), so every task that has not completed is always
//! scheduled: it is either on the ready queue or the one being resumed. A wake
//! request therefore never has to move a task; the run loop only consumes it,
//! and a request for a completed or unknown task is a harmless no-op.

use std::collections::VecDeque;
use vstd::prelude::*;
use crate::wake::{WakeChannel, WakeError, WAKE_CAPACITY};

verus! {

/// Where a task stands in its life.
#[derive(Clone, Copy, Debug, PartialEq, Eq, Structural)]
pub enum TaskState {
    /// On the ready queue, waiting to be resumed.
    Queued,
    /// Handed out by `next_task` and not yet reported.
    Running,
    /// Reported `Ready`; it is never resumed again.
    Done,
}

/// The outcome of resuming a task once.
#[derive(Clone, Copy, Debug, PartialEq, Eq, Structural)]
pub enum Step {
    /// More work remains.
    Pending,
    /// The computation has finished.
    Ready,
}

/// Ready queue, task states and the consuming end of the wake channel.
pub struct Executor {
    ready: VecDeque<usize>,
    states: Vec<TaskState>,
    running: Option<usize>,
    wakes: WakeChannel,
}

/// `s` holds no value twice.
pub open spec fn distinct(s: Seq<usize>) -> bool {
    forall|i: int, j: int| 0 <= i < j < s.len() ==> s[i] != s[j]
}

impl Executor {
    /// The ids on the ready queue, head first.
    pub closed spec fn ready_queue(&self) -> Seq<usize> {
        self.ready@
    }

    /// The state of each task, indexed by task id.
    pub closed spec fn states(&self) -> Seq<TaskState> {
        self.states@
    }

    /// The task handed out and not yet reported, if any.
    pub closed spec fn running(&self) -> Option<usize> {
        self.running
    }

    /// The wake requests not yet consumed, oldest first.
    pub closed spec fn pending_wakes(&self) -> Seq<usize> {
        self.wakes@
    }

    /// The bound on waiting wake requests.
    pub closed spec fn wake_capacity(&self) -> nat {
        self.wakes.capacity()
    }

    /// A task that has not completed is scheduled: queued exactly once, or running.
    pub open spec fn wf(&self) -> bool {
        let q = self.ready_queue();
        let st = self.states();
        &&& self.wf_channel()
        &&& st.len() <= usize::MAX
        &&& distinct(q)
        &&& forall|i: int| 0 <= i < q.len() ==> q[i] < st.len() && st[q[i] as int] == TaskState::Queued
        &&& forall|id: usize| id < st.len() && st[id as int] == TaskState::Queued ==> q.contains(id)
        &&& forall|id: usize|
            id < st.len() && st[id as int] == TaskState::Running ==> self.running() == Some(id)
        &&& match self.running() {
            Some(r) => r < st.len() && st[r as int] == TaskState::Running,
            None => true,
        }
    }

    pub closed spec fn wf_channel(&self) -> bool {
        self.wakes.wf()
    }

    /// Every task has completed.
    pub open spec fn all_done(&self) -> bool {
        forall|id: int| 0 <= id < self.states().len() ==> self.states()[id] == TaskState::Done
    }

    /// An executor with no tasks and an empty wake channel.
    pub fn new() -> (r: Self)
        ensures
            r.wf(),
            r.ready_queue() == Seq::<usize>::empty(),
            r.states() == Seq::<TaskState>::empty(),
            r.running() is None,
            r.pending_wakes() == Seq::<usize>::empty(),
            r.wake_capacity() == WAKE_CAPACITY,
    {
        Executor {
            ready: VecDeque::new(),
            states: Vec::new(),
            running: None,
            wakes: WakeChannel::new(WAKE_CAPACITY),
        }
    }

    /// Registers a new task and puts it at the tail of the ready queue; its id
    /// is the number of tasks spawned before it.
    pub fn spawn(&mut self) -> (id: usize)
        requires
            old(self).wf(),
            old(self).states().len() < usize::MAX,
        ensures
            final(self).wf(),
            id == old(self).states().len(),
            final(self).states() == old(self).states().push(TaskState::Queued),
            final(self).ready_queue() == old(self).ready_queue().push(id),
            final(self).running() == old(self).running(),
            final(self).pending_wakes() == old(self).pending_wakes(),
            final(self).wake_capacity() == old(self).wake_capacity(),
    {
        let id = self.states.len();
        self.states.push(TaskState::Queued);
        self.ready.push_back(id);
        proof {
            let q = self.ready@;
            let q0 = old(self).ready@;
            let st = self.states@;
            assert forall|k: usize| k < st.len() && st[k as int] == TaskState::Queued implies q.contains(k) by {
                if k < id {
                    let j = choose|j: int| 0 <= j < q0.len() && q0[j] == k;
                    assert(q[j] == k);
                } else {
                    assert(q[q.len() - 1] == k);
                }
            }
        }
        id
    }

    /// Asks for task `id` to be resumed again. Callable at any time, for any id:
    /// before the task first runs, while it runs, after it completed. Refused,
    /// with nothing changed, only when the wake channel is full.
    pub fn wake(&mut self, id: usize) -> (r: Result<(), WakeError>)
        requires
            old(self).wf(),
        ensures
            final(self).wf(),
            final(self).ready_queue() == old(self).ready_queue(),
            final(self).states() == old(self).states(),
            final(self).running() == old(self).running(),
            final(self).wake_capacity() == old(self).wake_capacity(),
            old(self).pending_wakes().len() < old(self).wake_capacity() ==> r is Ok
                && final(self).pending_wakes() == old(self).pending_wakes().push(id),
            old(self).pending_wakes().len() >= old(self).wake_capacity() ==> r == Err::<(), WakeError>(
                WakeError::Overflow,
            ) && final(self).pending_wakes() == old(self).pending_wakes(),
    {
        self.wakes.send(id)
    }

    /// Consumes every waiting wake request. Each woken task that has not
    /// completed is already scheduled, so the ready queue stays as it is.
    pub fn drain_wakes(&mut self)
        requires
            old(self).wf(),
        ensures
            final(self).wf(),
            final(self).pending_wakes() == Seq::<usize>::empty(),
            final(self).ready_queue() == old(self).ready_queue(),
            final(self).states() == old(self).states(),
            final(self).running() == old(self).running(),
            final(self).wake_capacity() == old(self).wake_capacity(),
            forall|i: int|
                0 <= i < old(self).pending_wakes().len() ==> #[trigger] old(self).is_scheduled_or_stale(
                    old(self).pending_wakes()[i],
                ),
    {
        proof {
            assert forall|i: int| 0 <= i < old(self).pending_wakes().len() implies #[trigger] old(
                self,
            ).is_scheduled_or_stale(old(self).pending_wakes()[i]) by {
                lemma_unfinished_task_is_scheduled(*old(self), old(self).pending_wakes()[i]);
            }
        }
        loop
            invariant
                self.wf(),
                self.ready_queue() == old(self).ready_queue(),
                self.states() == old(self).states(),
                self.running() == old(self).running(),
                self.wake_capacity() == old(self).wake_capacity(),
            ensures
                self.pending_wakes() == Seq::<usize>::empty(),
            decreases self.pending_wakes().len(),
        {
            match self.wakes.try_recv() {
                Some(_id) => {},
                None => {
                    break;
                },
            }
        }
    }

    /// Task `id` is on the ready queue or running, or it has completed, or no
    /// task has that id.
    pub open spec fn is_scheduled_or_stale(&self, id: usize) -> bool {
        ||| self.ready_queue().contains(id)
        ||| self.running() == Some(id)
        ||| id >= self.states().len()
        ||| self.states()[id as int] == TaskState::Done
    }

    /// Drains the wake channel, then hands out the task at the head of the
    /// ready queue to be resumed once. `None` means that the ready queue and
    /// the channel are both empty, and then every task has completed.
    pub fn next_task(&mut self) -> (r: Option<usize>)
        requires
            old(self).wf(),
            old(self).running() is None,
        ensures
            final(self).wf(),
            final(self).pending_wakes() == Seq::<usize>::empty(),
            final(self).wake_capacity() == old(self).wake_capacity(),
            old(self).ready_queue().len() == 0 ==> r is None && final(self).all_done()
                && final(self).states() == old(self).states()
                && final(self).ready_queue() == old(self).ready_queue()
                && final(self).running() is None,
            old(self).ready_queue().len() > 0 ==> {
                let id = old(self).ready_queue()[0];
                &&& r == Some(id)
                &&& old(self).states()[id as int] == TaskState::Queued
                &&& final(self).ready_queue() == old(self).ready_queue().drop_first()
                &&& final(self).states() == old(self).states().update(id as int, TaskState::Running)
                &&& final(self).running() == Some(id)
            },
    {
        self.drain_wakes();
        let head = self.ready.pop_front();
        match head {
            None => {
                proof {
                    assert forall|id: int| 0 <= id < self.states().len() implies self.states()[id]
                        == TaskState::Done by {
                        if self.states()[id] == TaskState::Queued {
                            assert(self.ready@.contains(id as usize));
                        }
                    }
                }
                None
            },
            Some(id) => {
                proof {
                    assert(old(self).ready_queue()[0] == id);
                }
                self.states.set(id, TaskState::Running);
                self.running = Some(id);
                proof {
                    let q = self.ready@;
                    let q0 = old(self).ready_queue();
                    let st = self.states@;
                    assert forall|i: int| 0 <= i < q.len() implies q[i] < st.len() && st[q[i] as int]
                        == TaskState::Queued by {
                        assert(q[i] == q0[i + 1]);
                        assert(q0[i + 1] != q0[0]);
                    }
                    assert forall|k: int| 0 <= k < st.len() && st[k] == TaskState::Queued implies q.contains(
                        k as usize,
                    ) by {
                        assert(k != id as int);
                        assert(old(self).states()[k] == TaskState::Queued);
                        assert(q0.contains(k as usize));
                        let j = choose|j: int| 0 <= j < q0.len() && q0[j] == k as usize;
                        assert(j != 0);
                        assert(q[j - 1] == k as usize);
                    }
                    assert(distinct(q)) by {
                        assert forall|a: int, b: int| 0 <= a < b < q.len() implies q[a] != q[b] by {
                            assert(q[a] == q0[a + 1] && q[b] == q0[b + 1]);
                        }
                    }
                }
                Some(id)
            },
        }
    }

    /// Records the outcome of resuming the running task: `Pending` puts it back
    /// at the tail of the ready queue, `Ready` completes it. With no task
    /// running nothing changes.
    pub fn report(&mut self, outcome: Step)
        requires
            old(self).wf(),
        ensures
            final(self).wf(),
            final(self).running() is None,
            final(self).pending_wakes() == old(self).pending_wakes(),
            final(self).wake_capacity() == old(self).wake_capacity(),
            old(self).running() is None ==> final(self).ready_queue() == old(self).ready_queue()
                && final(self).states() == old(self).states(),
            old(self).running() is Some && outcome == Step::Pending ==> {
                let id = old(self).running().unwrap();
                &&& final(self).ready_queue() == old(self).ready_queue().push(id)
                &&& final(self).states() == old(self).states().update(id as int, TaskState::Queued)
            },
            old(self).running() is Some && outcome == Step::Ready ==> {
                let id = old(self).running().unwrap();
                &&& final(self).ready_queue() == old(self).ready_queue()
                &&& final(self).states() == old(self).states().update(id as int, TaskState::Done)
            },
    {
        match self.running {
            None => {},
            Some(id) => {
                self.running = None;
                match outcome {
                    Step::Pending => {
                        proof {
                            assert(!self.ready@.contains(id));
                        }
                        self.states.set(id, TaskState::Queued);
                        self.ready.push_back(id);
                        proof {
                            let q = self.ready@;
                            let q0 = old(self).ready_queue();
                            let st = self.states@;
                            assert forall|i: int| 0 <= i < q.len() implies q[i] < st.len() && st[q[i] as int]
                                == TaskState::Queued by {
                                if i < q0.len() {
                                    assert(q[i] == q0[i]);
                                    assert(old(self).states()[q0[i] as int] == TaskState::Queued);
                                }
                            }
                            assert forall|k: int| 0 <= k < st.len() && st[k] == TaskState::Queued implies q.contains(
                                k as usize,
                            ) by {
                                if k == id as int {
                                    assert(q[q.len() - 1] == id);
                                } else {
                                    assert(old(self).states()[k] == TaskState::Queued);
                                    assert(q0.contains(k as usize));
                                    let j = choose|j: int| 0 <= j < q0.len() && q0[j] == k as usize;
                                    assert(q[j] == k as usize);
                                }
                            }
                            assert(distinct(q)) by {
                                assert forall|a: int, b: int| 0 <= a < b < q.len() implies q[a] != q[b] by {
                                    if b == q.len() - 1 {
                                        assert(q[a] == q0[a]);
                                    }
                                }
                            }
                        }
                    },
                    Step::Ready => {
                        self.states.set(id, TaskState::Done);
                        proof {
                            let q = self.ready@;
                            let st = self.states@;
                            assert forall|i: int| 0 <= i < q.len() implies q[i] < st.len() && st[q[i] as int]
                                == TaskState::Queued by {
                                assert(old(self).states()[q[i] as int] == TaskState::Queued);
                            }
                        }
                    },
                }
            },
        }
    }
    /// The number of tasks spawned so far.
    pub fn task_count(&self) -> (r: usize)
        ensures
            r == self.states().len(),
    {
        self.states.len()
    }

    /// The state of task `id`; `None` when no task has that id.
    pub fn state(&self, id: usize) -> (r: Option<TaskState>)
        ensures
            id < self.states().len() ==> r == Some(self.states()[id as int]),
            id >= self.states().len() ==> r is None,
    {
        if id < self.states.len() {
            Some(self.states[id])
        } else {
            None
        }
    }

    /// The number of tasks on the ready queue.
    pub fn ready_len(&self) -> (r: usize)
        ensures
            r == self.ready_queue().len(),
    {
        self.ready.len()
    }

    /// The number of wake requests not yet consumed.
    pub fn pending_wake_count(&self) -> (r: usize)
        requires
            self.wf(),
        ensures
            r == self.pending_wakes().len(),
    {
        self.wakes.len()
    }

    /// The task handed out and not yet reported, if any.
    pub fn running_task(&self) -> (r: Option<usize>)
        ensures
            r == self.running(),
    {
        self.running
    }
}

/// A completed task is neither queued nor running, so `next_task` never hands
/// it out again: a computation is not resumed after it reported `Ready`.
pub proof fn lemma_completed_task_never_resumed(e: Executor, id: usize)
    requires
        e.wf(),
        id < e.states().len(),
        e.states()[id as int] == TaskState::Done,
    ensures
        !e.ready_queue().contains(id),
        e.running() != Some(id),
{
    if e.ready_queue().contains(id) {
        let k = choose|k: int| 0 <= k < e.ready_queue().len() && e.ready_queue()[k] == id;
    }
}

/// In a well-formed executor every task that has not completed is scheduled:
/// it waits on the ready queue or is the one being resumed, so a wake request
/// for it can never be lost.
pub proof fn lemma_unfinished_task_is_scheduled(e: Executor, id: usize)
    requires
        e.wf(),
    ensures
        e.is_scheduled_or_stale(id),
        id < e.states().len() && e.states()[id as int] != TaskState::Done ==> e.ready_queue().contains(id)
            || e.running() == Some(id),
{
}



/// The tasks that have not completed.
pub open spec fn unfinished(e: Executor) -> Set<usize> {
    Set::new(|id: usize| id < e.states().len() && e.states()[id as int] != TaskState::Done)
}

/// No task is lost: every task that has not completed is held exactly once,
/// on the ready queue or as the running task, and nothing else is held.
pub proof fn lemma_no_task_lost(e: Executor)
    requires
        e.wf(),
    ensures
        e.running() is None ==> unfinished(e) == e.ready_queue().to_set(),
        e.running() matches Some(r) ==> unfinished(e) == e.ready_queue().to_set().insert(r)
            && !e.ready_queue().contains(r),
        unfinished(e).len() == e.ready_queue().len() + if e.running() is Some {
            1nat
        } else {
            0nat
        },
{
    broadcast use vstd::set::group_set_axioms, vstd::seq_lib::seq_to_set_is_finite;

    let q = e.ready_queue();
    let st = e.states();
    assert(q.no_duplicates());
    q.unique_seq_to_set();
    assert forall|id: usize| #[trigger] q.to_set().contains(id) implies id < st.len() && st[id as int]
        == TaskState::Queued by {
        let k = choose|k: int| 0 <= k < q.len() && q[k] == id;
    }
    match e.running() {
        None => {
            assert(unfinished(e) =~= q.to_set());
        },
        Some(r) => {
            assert(!q.to_set().contains(r));
            assert(unfinished(e) =~= q.to_set().insert(r));
        },
    }
}

} // verus!
