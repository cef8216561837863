//! Bounded first-in first-out queue between the event loop and the processor.
use vstd::prelude::*;
use crate::message::MqttMessage;

verus! {

/// What became of a message offered to the queue.
#[derive(Clone, Copy, Debug, PartialEq, Eq, Structural)]
pub enum EnqueueOutcome {
    Queued,
    Full,
    Closed,
}

/// The outcome of offering a message to a queue holding `len` messages.
pub open spec fn enqueue_outcome(closed: bool, len: nat, capacity: nat) -> EnqueueOutcome {
    if closed {
        EnqueueOutcome::Closed
    } else if len < capacity {
        EnqueueOutcome::Queued
    } else {
        EnqueueOutcome::Full
    }
}

/// Messages waiting to be forwarded, oldest first, never more than the capacity.
pub struct MessageQueue {
    items: Vec<MqttMessage>,
    capacity: usize,
    closed: bool,
}

impl View for MessageQueue {
    type V = Seq<MqttMessage>;

    closed spec fn view(&self) -> Seq<MqttMessage> {
        self.items@
    }
}

impl MessageQueue {
    pub closed spec fn spec_capacity(&self) -> nat {
        self.capacity as nat
    }

    pub closed spec fn spec_closed(&self) -> bool {
        self.closed
    }

    pub open spec fn wf(&self) -> bool {
        self@.len() <= self.spec_capacity()
    }

    /// An open, empty queue that holds at most `capacity` messages.
    pub fn new(capacity: usize) -> (r: MessageQueue)
        ensures
            r.wf(),
            r@ == Seq::<MqttMessage>::empty(),
            r.spec_capacity() == capacity,
            !r.spec_closed(),
    {
        MessageQueue { items: Vec::new(), capacity, closed: false }
    }

    pub fn len(&self) -> (r: usize)
        ensures
            r == self@.len(),
    {
        self.items.len()
    }

    pub fn capacity(&self) -> (r: usize)
        ensures
            r == self.spec_capacity(),
    {
        self.capacity
    }

    pub fn is_closed(&self) -> (r: bool)
        ensures
            r == self.spec_closed(),
    {
        self.closed
    }

    /// Appends `msg` if the queue is open and has room; otherwise drops it.
    /// Never waits.
    pub fn try_push(&mut self, msg: MqttMessage) -> (r: EnqueueOutcome)
        requires
            old(self).wf(),
        ensures
            final(self).wf(),
            r == enqueue_outcome(old(self).spec_closed(), old(self)@.len(), old(self).spec_capacity()),
            final(self)@ == (if r == EnqueueOutcome::Queued {
                old(self)@.push(msg)
            } else {
                old(self)@
            }),
            final(self).spec_capacity() == old(self).spec_capacity(),
            final(self).spec_closed() == old(self).spec_closed(),
    {
        if self.closed {
            EnqueueOutcome::Closed
        } else if self.items.len() < self.capacity {
            self.items.push(msg);
            EnqueueOutcome::Queued
        } else {
            EnqueueOutcome::Full
        }
    }

    /// Takes the oldest message, if any.
    pub fn pop(&mut self) -> (r: Option<MqttMessage>)
        requires
            old(self).wf(),
        ensures
            final(self).wf(),
            old(self)@.len() == 0 ==> r is None && final(self)@ == old(self)@,
            old(self)@.len() > 0 ==> r == Some(old(self)@[0]) && final(self)@ == old(self)@.drop_first(),
            final(self).spec_capacity() == old(self).spec_capacity(),
            final(self).spec_closed() == old(self).spec_closed(),
    {
        if self.items.len() == 0 {
            None
        } else {
            let m = self.items.remove(0);
            assert(self.items@ =~= old(self)@.drop_first());
            Some(m)
        }
    }

    /// Refuses every later message; those already queued can still be taken.
    pub fn close(&mut self)
        ensures
            final(self)@ == old(self)@,
            final(self).spec_capacity() == old(self).spec_capacity(),
            final(self).spec_closed(),
    {
        self.closed = true;
    }
}

} // verus!
