//! The forwarder's own state: the sink topic and the last observed connectivity.
use vstd::prelude::*;
use vstd::string::StringExecFns;

verus! {

/// Prefix of the error returned when the sink refuses a message.
pub open spec fn send_error_text(cause: Seq<char>) -> Seq<char> {
    "Failed to send to Kafka: "@ + cause
}

/// The forwarder's state. The connectivity flag is the outcome of the last
/// send, for health reporting only.
pub struct KafkaProducer {
    topic: String,
    is_connected: bool,
}

impl KafkaProducer {
    pub closed spec fn spec_topic(&self) -> Seq<char> {
        self.topic@
    }

    pub closed spec fn spec_connected(&self) -> bool {
        self.is_connected
    }

    /// A forwarder to the sink topic `topic`, not yet seen connected.
    pub fn new(topic: &str) -> (r: KafkaProducer)
        ensures
            r.spec_topic() == topic@,
            !r.spec_connected(),
    {
        KafkaProducer { topic: String::from_str(topic), is_connected: false }
    }

    /// The sink topic that messages go to.
    pub fn topic(&self) -> (r: &String)
        ensures
            r@ == self.spec_topic(),
    {
        &self.topic
    }

    /// The outcome of the last send; never probes the sink.
    pub fn check_connection(&self) -> (r: bool)
        ensures
            r == self.spec_connected(),
    {
        self.is_connected
    }

    /// Records the outcome of a send: the flag follows it, and a failure is
    /// reported with its cause.
    pub fn record_send(&mut self, outcome: Result<(), String>) -> (r: Result<(), String>)
        ensures
            final(self).spec_topic() == old(self).spec_topic(),
            final(self).spec_connected() == outcome is Ok,
            outcome is Ok ==> r is Ok,
            outcome is Err ==> r is Err && r->Err_0@ == send_error_text(outcome->Err_0@),
    {
        match outcome {
            Ok(()) => {
                self.is_connected = true;
                Ok(())
            },
            Err(cause) => {
                self.is_connected = false;
                let mut text = String::from_str("Failed to send to Kafka: ");
                text.append(cause.as_str());
                proof {
                    reveal_strlit("Failed to send to Kafka: ");
                }
                Err(text)
            },
        }
    }
}

} // verus!
