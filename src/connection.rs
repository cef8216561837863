//! The connection manager: the decisions of the broker session's lifecycle.
//!
//! The caller performs each returned action (open a session, subscribe, poll,
//! sleep) and hands the result back as the next event.
use vstd::prelude::*;
use crate::message::{MqttMessage, QoS};
use crate::metrics::{after_publish, MessageMetrics};
use crate::queue::{enqueue_outcome, EnqueueOutcome, MessageQueue};
use crate::topics::{names, TopicSet};

verus! {

/// Default pause after a connection loss, in milliseconds.
pub const DEFAULT_BACKOFF_MS: u64 = 5000;

/// Capacity of the queue between the event loop and the processor.
pub const QUEUE_CAPACITY: usize = 100;

/// Where the session stands.
#[derive(Clone, Copy, Debug, PartialEq, Eq, Structural)]
pub enum Phase {
    Disconnected,
    Connecting,
    Subscribing,
    Polling,
    Backoff,
}

/// What happened since the last action.
#[derive(Debug)]
pub enum ConnEvent {
    /// The bridge starts.
    Start,
    /// A session was opened.
    SessionOpened,
    /// Opening the session failed.
    ConnectFailed,
    /// A subscribe request finished, successfully or not.
    SubscribeDone,
    /// The broker delivered a publish.
    Publish(MqttMessage),
    /// Another protocol packet came or went.
    OtherPacket,
    /// Polling the session failed: the connection is lost.
    PollError,
    /// The pause after a connection loss is over.
    BackoffElapsed,
}

/// What to do next.
#[derive(Debug, PartialEq, Eq)]
pub enum ConnAction {
    /// Open a new session, discarding the old one.
    OpenSession,
    /// Ask the broker to subscribe to a topic.
    Subscribe(String, QoS),
    /// Wait for the session's next event.
    Poll,
    /// Pause for this many milliseconds.
    Sleep(u64),
    /// Nothing to do for this event; keep waiting for the one the phase expects.
    Wait,
}

/// Receives a publish: counts it, queues it if the queue can take it, and
/// counts a drop otherwise. Never waits.
pub fn handle_publish(metrics: &mut MessageMetrics, queue: &mut MessageQueue, msg: MqttMessage) -> (r:
    EnqueueOutcome)
    requires
        old(queue).wf(),
    ensures
        final(queue).wf(),
        r == enqueue_outcome(old(queue).spec_closed(), old(queue)@.len(), old(queue).spec_capacity()),
        *final(metrics) == after_publish(*old(metrics), r == EnqueueOutcome::Queued),
        final(queue)@ == (if r == EnqueueOutcome::Queued {
            old(queue)@.push(msg)
        } else {
            old(queue)@
        }),
        final(queue).spec_capacity() == old(queue).spec_capacity(),
        final(queue).spec_closed() == old(queue).spec_closed(),
{
    let r = queue.try_push(msg);
    metrics.record_publish(r == EnqueueOutcome::Queued);
    r
}

/// The session's state, with the topics still to subscribe to in this session.
pub struct ConnectionManager {
    phase: Phase,
    pending: Vec<String>,
    qos: QoS,
    backoff_ms: u64,
    /// The topic set as it was read when the current session opened.
    snapshot: Ghost<Set<Seq<char>>>,
    /// The topics subscribed to since the current session opened.
    subscribed: Ghost<Set<Seq<char>>>,
}

impl ConnectionManager {
    pub closed spec fn spec_phase(&self) -> Phase {
        self.phase
    }

    pub closed spec fn spec_qos(&self) -> QoS {
        self.qos
    }

    pub closed spec fn spec_backoff_ms(&self) -> u64 {
        self.backoff_ms
    }

    /// Topics still to subscribe to in this session.
    pub closed spec fn pending(&self) -> Set<Seq<char>> {
        names(self.pending@).to_set()
    }

    pub closed spec fn snapshot(&self) -> Set<Seq<char>> {
        self.snapshot@
    }

    pub closed spec fn subscribed(&self) -> Set<Seq<char>> {
        self.subscribed@
    }

    /// Every topic of the snapshot is subscribed to or still pending, and none
    /// is pending once polling has begun.
    pub closed spec fn wf(&self) -> bool {
        &&& self.snapshot@ == self.subscribed@ + self.pending()
        &&& self.phase != Phase::Subscribing ==> self.pending@.len() == 0
    }

    /// A manager that has not connected yet.
    pub fn new(qos: QoS, backoff_ms: u64) -> (r: ConnectionManager)
        ensures
            r.wf(),
            r.spec_phase() == Phase::Disconnected,
            r.spec_qos() == qos,
            r.spec_backoff_ms() == backoff_ms,
    {
        let r = ConnectionManager {
            phase: Phase::Disconnected,
            pending: Vec::new(),
            qos,
            backoff_ms,
            snapshot: Ghost(Set::empty()),
            subscribed: Ghost(Set::empty()),
        };
        assert(r.pending() =~= Set::empty());
        assert(r.snapshot@ =~= r.subscribed@ + r.pending());
        r
    }

    pub fn phase(&self) -> (r: Phase)
        ensures
            r == self.spec_phase(),
    {
        self.phase
    }

    /// Subscribes to the next pending topic, or starts polling when none is left.
    fn next_subscription(&mut self) -> (r: ConnAction)
        requires
            old(self).wf(),
            old(self).spec_phase() == Phase::Subscribing,
        ensures
            final(self).wf(),
            final(self).snapshot() == old(self).snapshot(),
            final(self).spec_qos() == old(self).spec_qos(),
            final(self).spec_backoff_ms() == old(self).spec_backoff_ms(),
            old(self).pending().is_empty() ==> r == ConnAction::Poll && final(self).spec_phase()
                == Phase::Polling && final(self).subscribed() == old(self).subscribed(),
            !old(self).pending().is_empty() ==> exists|t: String|
                r == ConnAction::Subscribe(t, old(self).spec_qos()) && old(self).pending().contains(
                    t@,
                ) && final(self).spec_phase() == Phase::Subscribing && final(self).subscribed()
                    == old(self).subscribed().insert(t@),
    {
        let ghost before = names(self.pending@);
        match self.pending.pop() {
            None => {
                assert(old(self).pending() =~= Set::empty());
                self.phase = Phase::Polling;
                ConnAction::Poll
            },
            Some(t) => {
                proof {
                    assert(before =~= names(self.pending@).push(t@));
                    assert(before[before.len() - 1] == t@);
                    assert(before.to_set() =~= names(self.pending@).to_set().insert(t@)) by {
                        assert forall|x| before.contains(x) <==> names(self.pending@).contains(x) || x == t@ by {
                            if before.contains(x) {
                                let j = choose|j: int| 0 <= j < before.len() && before[j] == x;
                                if j < before.len() - 1 {
                                    assert(names(self.pending@)[j] == x);
                                }
                            }
                            if names(self.pending@).contains(x) {
                                let j = choose|j: int| 0 <= j < names(self.pending@).len() && names(self.pending@)[j] == x;
                                assert(before[j] == x);
                            }
                        }
                    }
                    self.subscribed = Ghost(self.subscribed@.insert(t@));
                    assert(self.snapshot@ =~= self.subscribed@ + self.pending());
                    assert(old(self).pending().contains(t@));
                }
                ConnAction::Subscribe(t, self.qos)
            },
        }
    }

    /// Decides the next action from the event that just happened.
    ///
    /// A publish is counted and queued in any phase. A new session reads the
    /// topic set afresh and subscribes to each of its topics, one per action,
    /// before polling. A lost connection or a failed connect leads to a pause
    /// and then to a new session. Any other event outside the phase that
    /// expects it changes nothing.
    pub fn step(
        &mut self,
        event: ConnEvent,
        topics: &TopicSet,
        metrics: &mut MessageMetrics,
        queue: &mut MessageQueue,
    ) -> (r: ConnAction)
        requires
            old(self).wf(),
            topics.wf(),
            old(queue).wf(),
        ensures
            final(self).wf(),
            final(queue).wf(),
            final(self).spec_qos() == old(self).spec_qos(),
            final(self).spec_backoff_ms() == old(self).spec_backoff_ms(),
            match event {
                ConnEvent::Publish(msg) => {
                    let o = enqueue_outcome(
                        old(queue).spec_closed(),
                        old(queue)@.len(),
                        old(queue).spec_capacity(),
                    );
                    &&& *final(metrics) == after_publish(*old(metrics), o == EnqueueOutcome::Queued)
                    &&& final(queue)@ == (if o == EnqueueOutcome::Queued {
                        old(queue)@.push(msg)
                    } else {
                        old(queue)@
                    })
                    &&& final(self).spec_phase() == old(self).spec_phase()
                    &&& r == (if old(self).spec_phase() == Phase::Polling {
                        ConnAction::Poll
                    } else {
                        ConnAction::Wait
                    })
                },
                _ => *final(metrics) == *old(metrics) && final(queue)@ == old(queue)@,
            },
            final(queue).spec_capacity() == old(queue).spec_capacity(),
            final(queue).spec_closed() == old(queue).spec_closed(),
            // starting, and reconnecting after the pause
            (event is Start && old(self).spec_phase() == Phase::Disconnected) || (event is BackoffElapsed
                && old(self).spec_phase() == Phase::Backoff) ==> r == ConnAction::OpenSession
                && final(self).spec_phase() == Phase::Connecting,
            // losing the connection, or failing to open it
            (event is PollError && old(self).spec_phase() == Phase::Polling) || (event is ConnectFailed
                && old(self).spec_phase() == Phase::Connecting) ==> r == ConnAction::Sleep(
                old(self).spec_backoff_ms(),
            ) && final(self).spec_phase() == Phase::Backoff,
            // a new session: a fresh read of the topic set
            event is SessionOpened && old(self).spec_phase() == Phase::Connecting ==> final(self).snapshot()
                == topics@ && (topics@.is_empty() ==> r == ConnAction::Poll && final(self).spec_phase()
                == Phase::Polling) && (!topics@.is_empty() ==> exists|t: String|
                r == ConnAction::Subscribe(t, old(self).spec_qos()) && topics@.contains(t@)
                    && final(self).subscribed() == set![t@]),
            // one subscription done: the next one, or polling
            event is SubscribeDone && old(self).spec_phase() == Phase::Subscribing ==> final(self).snapshot()
                == old(self).snapshot() && (old(self).pending().is_empty() ==> r == ConnAction::Poll
                && final(self).spec_phase() == Phase::Polling) && (!old(self).pending().is_empty()
                ==> exists|t: String|
                r == ConnAction::Subscribe(t, old(self).spec_qos()) && old(self).pending().contains(t@)
                    && final(self).subscribed() == old(self).subscribed().insert(t@)),
            // other packets while polling
            event is OtherPacket && old(self).spec_phase() == Phase::Polling ==> r == ConnAction::Poll
                && final(self).spec_phase() == Phase::Polling,
            // an event that its phase does not expect
            !(event is Publish) && !((event is Start && old(self).spec_phase() == Phase::Disconnected)
                || (event is SessionOpened && old(self).spec_phase() == Phase::Connecting) || (
            event is ConnectFailed && old(self).spec_phase() == Phase::Connecting) || (event is SubscribeDone
                && old(self).spec_phase() == Phase::Subscribing) || (event is OtherPacket
                && old(self).spec_phase() == Phase::Polling) || (event is PollError && old(self).spec_phase()
                == Phase::Polling) || (event is BackoffElapsed && old(self).spec_phase()
                == Phase::Backoff)) ==> r == ConnAction::Wait && final(self).spec_phase()
                == old(self).spec_phase() && final(self).snapshot() == old(self).snapshot()
                && final(self).subscribed() == old(self).subscribed(),
    {
        match event {
            ConnEvent::Publish(msg) => {
                handle_publish(metrics, queue, msg);
                if self.phase == Phase::Polling {
                    ConnAction::Poll
                } else {
                    ConnAction::Wait
                }
            },
            ConnEvent::Start => {
                if self.phase == Phase::Disconnected {
                    self.phase = Phase::Connecting;
                    ConnAction::OpenSession
                } else {
                    ConnAction::Wait
                }
            },
            ConnEvent::BackoffElapsed => {
                if self.phase == Phase::Backoff {
                    self.phase = Phase::Connecting;
                    ConnAction::OpenSession
                } else {
                    ConnAction::Wait
                }
            },
            ConnEvent::ConnectFailed => {
                if self.phase == Phase::Connecting {
                    self.phase = Phase::Backoff;
                    ConnAction::Sleep(self.backoff_ms)
                } else {
                    ConnAction::Wait
                }
            },
            ConnEvent::PollError => {
                if self.phase == Phase::Polling {
                    self.phase = Phase::Backoff;
                    ConnAction::Sleep(self.backoff_ms)
                } else {
                    ConnAction::Wait
                }
            },
            ConnEvent::OtherPacket => {
                if self.phase == Phase::Polling {
                    ConnAction::Poll
                } else {
                    ConnAction::Wait
                }
            },
            ConnEvent::SessionOpened => {
                if self.phase == Phase::Connecting {
                    self.pending = topics.list();
                    self.phase = Phase::Subscribing;
                    self.snapshot = Ghost(topics@);
                    self.subscribed = Ghost(Set::empty());
                    assert(self.snapshot@ =~= self.subscribed@ + self.pending());
                    self.next_subscription()
                } else {
                    ConnAction::Wait
                }
            },
            ConnEvent::SubscribeDone => {
                if self.phase == Phase::Subscribing {
                    self.next_subscription()
                } else {
                    ConnAction::Wait
                }
            },
        }
    }
}

/// Once polling resumes after a session opened, every topic that the topic set
/// held when the session opened has received a subscribe request.
pub proof fn lemma_resubscribe_complete(cm: &ConnectionManager)
    requires
        cm.wf(),
        cm.spec_phase() == Phase::Polling,
    ensures
        cm.snapshot().subset_of(cm.subscribed()),
{
    assert(names(cm.pending@).len() == 0);
    assert(cm.pending() =~= Set::empty());
}

} // verus!
