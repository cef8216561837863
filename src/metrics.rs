//! Message counters shared by the event loop, the processor and the control plane.
use vstd::prelude::*;
use crate::api::MetricsResponse;

verus! {

/// A counter after one more event; a counter at its largest value stays there.
pub open spec fn bumped(n: usize) -> usize {
    if n < usize::MAX {
        (n + 1) as usize
    } else {
        n
    }
}

/// One more by saturating addition.
pub fn bump(n: usize) -> (r: usize)
    ensures
        r == bumped(n),
{
    n.saturating_add(1)
}

/// Counters of the bridge. All but `active_topics` only grow.
#[derive(Clone, Copy, Debug, PartialEq, Eq, Structural)]
pub struct MessageMetrics {
    pub messages_received: usize,
    pub messages_processed: usize,
    pub messages_dropped: usize,
    pub processing_errors: usize,
    pub active_topics: usize,
}

/// The counters after a publish arrived from the broker: it is received, and
/// dropped unless it was queued.
pub open spec fn after_publish(m: MessageMetrics, queued: bool) -> MessageMetrics {
    MessageMetrics {
        messages_received: bumped(m.messages_received),
        messages_dropped: if queued {
            m.messages_dropped
        } else {
            bumped(m.messages_dropped)
        },
        ..m
    }
}

/// The counters after a forward attempt: processed on success, an error otherwise.
pub open spec fn after_forward(m: MessageMetrics, ok: bool) -> MessageMetrics {
    if ok {
        MessageMetrics { messages_processed: bumped(m.messages_processed), ..m }
    } else {
        MessageMetrics { processing_errors: bumped(m.processing_errors), ..m }
    }
}

/// The counters after `n` publishes that all found the queue unable to take them.
pub open spec fn after_drops(m: MessageMetrics, n: nat) -> MessageMetrics
    decreases n,
{
    if n == 0 {
        m
    } else {
        after_publish(after_drops(m, (n - 1) as nat), false)
    }
}

impl MessageMetrics {
    /// All counters at zero.
    pub fn new() -> (r: MessageMetrics)
        ensures
            r.messages_received == 0,
            r.messages_processed == 0,
            r.messages_dropped == 0,
            r.processing_errors == 0,
            r.active_topics == 0,
    {
        MessageMetrics {
            messages_received: 0,
            messages_processed: 0,
            messages_dropped: 0,
            processing_errors: 0,
            active_topics: 0,
        }
    }

    /// Counts a publish that arrived, and a drop unless it was queued.
    pub fn record_publish(&mut self, queued: bool)
        ensures
            *final(self) == after_publish(*old(self), queued),
    {
        self.messages_received = bump(self.messages_received);
        if !queued {
            self.messages_dropped = bump(self.messages_dropped);
        }
    }

    /// Counts the outcome of one forward attempt.
    pub fn record_forward(&mut self, ok: bool)
        ensures
            *final(self) == after_forward(*old(self), ok),
    {
        if ok {
            self.messages_processed = bump(self.messages_processed);
        } else {
            self.processing_errors = bump(self.processing_errors);
        }
    }

    /// Records how many topics the topic set holds.
    pub fn set_active_topics(&mut self, n: usize)
        ensures
            *final(self) == (MessageMetrics { active_topics: n, ..*old(self) }),
    {
        self.active_topics = n;
    }

    /// The counters as the control plane reports them.
    pub fn snapshot(&self) -> (r: MetricsResponse)
        ensures
            r.messages_received == self.messages_received,
            r.messages_processed == self.messages_processed,
            r.messages_dropped == self.messages_dropped,
            r.processing_errors == self.processing_errors,
            r.active_topics == self.active_topics,
    {
        MetricsResponse {
            messages_received: self.messages_received,
            messages_processed: self.messages_processed,
            messages_dropped: self.messages_dropped,
            processing_errors: self.processing_errors,
            active_topics: self.active_topics,
        }
    }
}

/// A publish that arrives while the queue has room, once forwarded
/// successfully, adds exactly one to the received and to the processed count
/// and drops nothing.
pub proof fn lemma_no_loss(m: MessageMetrics)
    requires
        m.messages_received < usize::MAX,
        m.messages_processed < usize::MAX,
    ensures
        after_forward(after_publish(m, true), true).messages_received == m.messages_received + 1,
        after_forward(after_publish(m, true), true).messages_processed == m.messages_processed + 1,
        after_forward(after_publish(m, true), true).messages_dropped == m.messages_dropped,
        after_forward(after_publish(m, true), true).processing_errors == m.processing_errors,
{
}

/// `n` publishes that find the queue full add exactly `n` to the dropped count
/// and to the received count, and leave the other counters alone.
pub proof fn lemma_bounded_drop(m: MessageMetrics, n: nat)
    requires
        m.messages_received + n <= usize::MAX,
        m.messages_dropped + n <= usize::MAX,
    ensures
        after_drops(m, n).messages_dropped == m.messages_dropped + n,
        after_drops(m, n).messages_received == m.messages_received + n,
        after_drops(m, n).messages_processed == m.messages_processed,
        after_drops(m, n).processing_errors == m.processing_errors,
        after_drops(m, n).active_topics == m.active_topics,
    decreases n,
{
    if n > 0 {
        lemma_bounded_drop(m, (n - 1) as nat);
    }
}

/// A failed forward adds exactly one to the error count and changes nothing
/// else; the next forward is counted as if the failure had not happened.
pub proof fn lemma_error_isolation(m: MessageMetrics, next_ok: bool)
    requires
        m.processing_errors < usize::MAX,
    ensures
        after_forward(m, false).processing_errors == m.processing_errors + 1,
        after_forward(m, false).messages_processed == m.messages_processed,
        after_forward(m, false).messages_received == m.messages_received,
        after_forward(m, false).messages_dropped == m.messages_dropped,
        after_forward(after_forward(m, false), next_ok).messages_processed
            == after_forward(m, next_ok).messages_processed,
{
}

} // verus!
