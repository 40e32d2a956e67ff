//! The wake channel: a bounded FIFO of reschedule requests, one task id each.

use std::collections::VecDeque;
use vstd::prelude::*;

verus! {

/// How many wake requests may wait in an executor's channel at once.
pub const WAKE_CAPACITY: usize = 10000;

/// Why a wake request was not delivered.
#[derive(Clone, Copy, Debug, PartialEq, Eq, Structural)]
pub enum WakeError {
    /// The channel already holds as many requests as it may.
    Overflow,
}

/// A bounded channel of task ids waiting to be rescheduled.
pub struct WakeChannel {
    pending: VecDeque<usize>,
    capacity: usize,
}

impl View for WakeChannel {
    type V = Seq<usize>;

    closed spec fn view(&self) -> Seq<usize> {
        self.pending@
    }
}

impl WakeChannel {
    /// The most requests the channel holds at once.
    pub closed spec fn capacity(&self) -> nat {
        self.capacity as nat
    }

    pub closed spec fn wf(&self) -> bool {
        self.pending@.len() <= self.capacity
    }

    /// An empty channel for at most `capacity` requests.
    pub fn new(capacity: usize) -> (r: Self)
        ensures
            r.wf(),
            r@ == Seq::<usize>::empty(),
            r.capacity() == capacity,
    {
        WakeChannel { pending: VecDeque::new(), capacity }
    }

    /// Queues a request for task `id`; refused, with nothing changed, when full.
    pub fn send(&mut self, id: usize) -> (r: Result<(), WakeError>)
        requires
            old(self).wf(),
        ensures
            final(self).wf(),
            final(self).capacity() == old(self).capacity(),
            old(self)@.len() < old(self).capacity() ==> r is Ok && final(self)@ == old(self)@.push(id),
            old(self)@.len() >= old(self).capacity() ==> r == Err::<(), WakeError>(WakeError::Overflow)
                && final(self)@ == old(self)@,
    {
        if self.pending.len() >= self.capacity {
            return Err(WakeError::Overflow);
        }
        self.pending.push_back(id);
        Ok(())
    }

    /// Takes the oldest request without waiting; `None` when there is none.
    pub fn try_recv(&mut self) -> (r: Option<usize>)
        requires
            old(self).wf(),
        ensures
            final(self).wf(),
            final(self).capacity() == old(self).capacity(),
            old(self)@.len() == 0 ==> r is None && final(self)@ == old(self)@,
            old(self)@.len() > 0 ==> r == Some(old(self)@[0]) && final(self)@ == old(self)@.drop_first(),
    {
        self.pending.pop_front()
    }

    /// The number of requests waiting.
    pub fn len(&self) -> (r: usize)
        requires
            self.wf(),
        ensures
            r == self@.len(),
    {
        self.pending.len()
    }
}

} // verus!
