//! A bounded FIFO work queue. A push onto a full queue hands the item back.

use std::collections::VecDeque;
use vstd::prelude::*;

verus! {

/// A FIFO queue that never holds more than `max_size` items.
pub struct WorkQueue<T> {
    queue: VecDeque<T>,
    max_size: usize,
}

impl<T> View for WorkQueue<T> {
    type V = Seq<T>;

    closed spec fn view(&self) -> Seq<T> {
        self.queue@
    }
}

impl<T> WorkQueue<T> {
    /// The bound the queue was made with.
    pub closed spec fn capacity(&self) -> nat {
        self.max_size as nat
    }

    pub closed spec fn wf(&self) -> bool {
        self.queue@.len() <= self.max_size
    }

    /// An empty queue that holds at most `max_size` items.
    pub fn new(max_size: usize) -> (r: Self)
        ensures
            r.wf(),
            r@ == Seq::<T>::empty(),
            r.capacity() == max_size,
    {
        WorkQueue { queue: VecDeque::new(), max_size }
    }

    /// Appends `item` at the tail if there is room; otherwise hands it back.
    pub fn push(&mut self, item: T) -> (r: Result<(), T>)
        requires
            old(self).wf(),
        ensures
            final(self).wf(),
            final(self).capacity() == old(self).capacity(),
            old(self)@.len() < old(self).capacity() ==> r is Ok && final(self)@ == old(self)@.push(item),
            old(self)@.len() >= old(self).capacity() ==> r == Err::<(), T>(item) && final(self)@ == old(self)@,
    {
        if self.queue.len() >= self.max_size {
            return Err(item);
        }
        self.queue.push_back(item);
        Ok(())
    }

    /// Removes and returns the item at the head, if any.
    pub fn pop(&mut self) -> (r: Option<T>)
        requires
            old(self).wf(),
        ensures
            final(self).wf(),
            final(self).capacity() == old(self).capacity(),
            old(self)@.len() == 0 ==> r is None && final(self)@ == old(self)@,
            old(self)@.len() > 0 ==> r == Some(old(self)@[0]) && final(self)@ == old(self)@.drop_first(),
    {
        self.queue.pop_front()
    }

    /// The number of items waiting.
    pub fn len(&self) -> (r: usize)
        requires
            self.wf(),
        ensures
            r == self@.len(),
    {
        self.queue.len()
    }
}

} // verus!
