//! The processor: turns each queued message into a forward request and counts
//! the outcome.
use vstd::prelude::*;
use vstd::string::StringExecFns;
use vstd::utf8::{decode_utf8, valid_utf8};
use crate::forwarder::{send_error_text, KafkaProducer};
use crate::message::MqttMessage;
use crate::metrics::{after_forward, MessageMetrics};

verus! {

/// What the log shows of a payload that is not UTF-8.
pub open spec fn binary_placeholder() -> Seq<char> {
    "[binary data]"@
}

/// The text logged for a payload, given its UTF-8 decoding if it has one.
pub open spec fn shown_text(decoded: Option<Seq<char>>) -> Seq<char> {
    match decoded {
        Some(s) => s,
        None => binary_placeholder(),
    }
}

/// The UTF-8 decoding of `b`, if `b` is valid UTF-8.
pub open spec fn utf8_of(b: Seq<u8>) -> Option<Seq<char>> {
    if valid_utf8(b) {
        Some(decode_utf8(b))
    } else {
        None
    }
}

/// Relies on std::str::from_utf8: `Ok` exactly for valid UTF-8, holding the
/// characters the bytes encode.
#[verifier::external_body]
fn utf8_text(b: &[u8]) -> (r: Option<String>)
    ensures
        r is Some <==> valid_utf8(b@),
        r is Some ==> r->Some_0@ == decode_utf8(b@),
{
    match std::str::from_utf8(b) {
        Ok(s) => Some(s.to_string()),
        Err(_) => None,
    }
}

/// The text to log for a payload, given its decoding: the text itself, or a
/// placeholder for binary data.
pub fn payload_text(decoded: Option<String>) -> (r: String)
    ensures
        r@ == shown_text(
            match decoded {
                Some(s) => Some(s@),
                None => None,
            },
        ),
{
    match decoded {
        Some(s) => s,
        None => {
            proof {
                reveal_strlit("[binary data]");
            }
            String::from_str("[binary data]")
        },
    }
}

/// A message as it is handed to the sink: keyed by its topic, payload
/// unchanged, with the text to log.
pub struct ForwardRequest {
    pub key: String,
    pub payload: Vec<u8>,
    pub text: String,
}

fn copy_bytes(b: &Vec<u8>) -> (r: Vec<u8>)
    ensures
        r@ == b@,
{
    let mut out: Vec<u8> = Vec::with_capacity(b.len());
    let mut i: usize = 0;
    while i < b.len()
        invariant
            i <= b@.len(),
            out@ == b@.subrange(0, i as int),
        decreases b@.len() - i,
    {
        out.push(b[i]);
        i = i + 1;
        assert(out@ =~= b@.subrange(0, i as int));
    }
    assert(out@ =~= b@);
    out
}

/// Prepares the forwarding of one message. A payload that is not UTF-8 is no
/// error: it is forwarded unchanged and logged as binary.
pub fn process_message(message: &MqttMessage) -> (r: ForwardRequest)
    ensures
        r.key@ == message.topic@,
        r.payload@ == message.payload@,
        r.text@ == shown_text(utf8_of(message.payload@)),
{
    let decoded = utf8_text(message.payload.as_slice());
    let text = payload_text(decoded);
    ForwardRequest { key: message.topic.clone(), payload: copy_bytes(&message.payload), text }
}

/// Records the outcome of forwarding one message: the forwarder's flag, and
/// a processed message or a processing error. A failure is reported and the
/// next message is handled as usual.
pub fn finish_forward(
    metrics: &mut MessageMetrics,
    producer: &mut KafkaProducer,
    outcome: Result<(), String>,
) -> (r: Result<(), String>)
    ensures
        *final(metrics) == after_forward(*old(metrics), outcome is Ok),
        final(producer).spec_connected() == outcome is Ok,
        final(producer).spec_topic() == old(producer).spec_topic(),
        outcome is Ok ==> r is Ok,
        outcome is Err ==> r is Err && r->Err_0@ == send_error_text(outcome->Err_0@),
{
    let ok = outcome.is_ok();
    let r = producer.record_send(outcome);
    metrics.record_forward(ok);
    r
}

} // verus!
