//! Messages as the bridge carries them from the broker to the sink.
use vstd::prelude::*;

verus! {

/// Delivery guarantee of a publish or a subscription.
#[derive(Clone, Copy, Debug, PartialEq, Eq, Structural)]
pub enum QoS {
    AtMostOnce,
    AtLeastOnce,
    ExactlyOnce,
}

/// A message received from the broker, with the instants it was received at.
///
/// `received_at` is a monotonic instant and `timestamp` a wall-clock instant,
/// both in milliseconds from their own origins.
#[derive(Debug)]
pub struct MqttMessage {
    pub topic: String,
    pub payload: Vec<u8>,
    pub qos: QoS,
    pub retain: bool,
    pub received_at: u64,
    pub timestamp: u64,
}

impl MqttMessage {
    pub fn new(
        topic: String,
        payload: Vec<u8>,
        qos: QoS,
        retain: bool,
        received_at: u64,
        timestamp: u64,
    ) -> (r: MqttMessage)
        ensures
            r.topic@ == topic@,
            r.payload@ == payload@,
            r.qos == qos,
            r.retain == retain,
            r.received_at == received_at,
            r.timestamp == timestamp,
    {
        MqttMessage { topic, payload, qos, retain, received_at, timestamp }
    }
}

} // verus!
