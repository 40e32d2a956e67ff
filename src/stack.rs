//! A last-in, first-out stack. Exclusive access comes from `&mut self`, so no
//! lock and no compare-and-swap is needed on the owner's side.

use vstd::prelude::*;

verus! {

/// A LIFO stack; its view lists the items bottom first, so the top is last.
pub struct LockFreeStack<T> {
    items: Vec<T>,
}

impl<T> View for LockFreeStack<T> {
    type V = Seq<T>;

    closed spec fn view(&self) -> Seq<T> {
        self.items@
    }
}

impl<T> LockFreeStack<T> {
    /// An empty stack.
    pub fn new() -> (r: Self)
        ensures
            r@ == Seq::<T>::empty(),
    {
        LockFreeStack { items: Vec::new() }
    }

    /// Puts `data` on top.
    pub fn push(&mut self, data: T)
        ensures
            final(self)@ == old(self)@.push(data),
    {
        self.items.push(data);
    }

    /// Removes and returns the top item; `None` when the stack is empty.
    pub fn pop(&mut self) -> (r: Option<T>)
        ensures
            old(self)@.len() == 0 ==> r is None && final(self)@ == old(self)@,
            old(self)@.len() > 0 ==> r == Some(old(self)@.last()) && final(self)@ == old(self)@.drop_last(),
    {
        self.items.pop()
    }

    /// Whether the stack holds no item.
    pub fn is_empty(&self) -> (r: bool)
        ensures
            r == (self@.len() == 0),
    {
        self.items.len() == 0
    }
}

} // verus!
