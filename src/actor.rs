//! Handles to actors: each actor owns the receiving end of a mailbox and the
//! handle holds the sending end.

use std::sync::mpsc::Sender;
use vstd::prelude::*;

verus! {

#[verifier::external_type_specification]
#[verifier::external_body]
#[verifier::reject_recursive_types(T)]
pub struct ExSender<T>(Sender<T>);

/// What a send to an actor whose mailbox is gone reports.
pub open spec fn terminated_message() -> Seq<char> {
    "Actor has terminated"@
}

/// Relies on std::sync::mpsc::Sender::send: it hands the message to the
/// mailbox, or fails when the receiving end has been dropped. Which of the two
/// happens depends on the other thread, so nothing is promised here.
#[verifier::external_body]
fn deliver<M>(sender: &Sender<M>, msg: M) -> (delivered: bool) {
    sender.send(msg).is_ok()
}

/// The result of a send, given whether the mailbox took the message.
pub fn send_outcome(delivered: bool) -> (r: Result<(), String>)
    ensures
        delivered ==> r is Ok,
        !delivered ==> (r matches Err(e) && e@ == terminated_message()),
{
    if delivered {
        Ok(())
    } else {
        Err(String::from_str("Actor has terminated"))
    }
}

/// The sending side of one actor's mailbox.
#[verifier::reject_recursive_types(M)]
pub struct ActorHandle<M> {
    sender: Sender<M>,
}

impl<M> ActorHandle<M> {
    /// The sending end this handle posts through.
    pub closed spec fn sender(&self) -> Sender<M> {
        self.sender
    }

    /// A handle that sends through `sender`.
    pub fn new(sender: Sender<M>) -> (r: Self)
        ensures
            r.sender() == sender,
    {
        ActorHandle { sender }
    }

    /// Posts `msg` to the actor's mailbox; fails with the terminated message
    /// when the actor has stopped receiving.
    pub fn send(&self, msg: M) -> (r: Result<(), String>)
        ensures
            r matches Err(e) ==> e@ == terminated_message(),
    {
        let delivered = deliver(&self.sender, msg);
        send_outcome(delivered)
    }
}

/// Book-keeping for the actors started so far.
pub struct ActorSystem {
    spawned: usize,
}

impl ActorSystem {
    /// The number of actors started.
    pub closed spec fn count(&self) -> nat {
        self.spawned as nat
    }

    /// A system with no actors.
    pub fn new() -> (r: Self)
        ensures
            r.count() == 0,
    {
        ActorSystem { spawned: 0 }
    }

    /// Records that one more actor was started.
    pub fn record_spawn(&mut self)
        requires
            old(self).count() < usize::MAX,
        ensures
            final(self).count() == old(self).count() + 1,
    {
        self.spawned = self.spawned + 1;
    }

    /// The number of actors started.
    pub fn actor_count(&self) -> (r: usize)
        ensures
            r == self.count(),
    {
        self.spawned
    }
}

} // verus!
