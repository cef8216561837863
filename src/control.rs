//! Control-plane operations over the topic set and the counters.
use vstd::prelude::*;
use vstd::string::StringExecFns;
use crate::api::{ApiResponse, MetricsResponse, SubscribeRequest, TopicsResponse};
use crate::metrics::MessageMetrics;
use crate::topics::{names, TopicSet};

verus! {

pub open spec fn subscribed_text(topic: Seq<char>, added: bool) -> Seq<char> {
    if added {
        "Subscribed to topic: "@ + topic
    } else {
        "Already subscribed to topic: "@ + topic
    }
}

pub open spec fn unsubscribed_text(topic: Seq<char>, removed: bool) -> Seq<char> {
    if removed {
        "Unsubscribed from topic: "@ + topic
    } else {
        "Not subscribed to topic: "@ + topic
    }
}

fn message_with(prefix: &str, topic: &String) -> (r: String)
    ensures
        r@ == prefix@ + topic@,
{
    let mut text = String::from_str(prefix);
    text.append(topic.as_str());
    text
}

/// Adds the requested topic to the set; the broker subscription follows on the
/// next session. Adding a present topic is no error and changes nothing.
pub fn subscribe_topic(
    topics: &mut TopicSet,
    metrics: &mut MessageMetrics,
    request: SubscribeRequest,
) -> (r: ApiResponse)
    requires
        old(topics).wf(),
    ensures
        final(topics).wf(),
        final(topics)@ == old(topics)@.insert(request.topic@),
        *final(metrics) == (MessageMetrics { active_topics: final(metrics).active_topics, ..*old(metrics) }),
        final(metrics).active_topics == final(topics)@.len(),
        r.success,
        r.message@ == subscribed_text(request.topic@, !old(topics)@.contains(request.topic@)),
{
    let topic = request.topic;
    let shown = topic.clone();
    let added = topics.add(topic);
    metrics.set_active_topics(topics.len());
    let message = if added {
        proof {
            reveal_strlit("Subscribed to topic: ");
        }
        message_with("Subscribed to topic: ", &shown)
    } else {
        proof {
            reveal_strlit("Already subscribed to topic: ");
        }
        message_with("Already subscribed to topic: ", &shown)
    };
    ApiResponse { success: true, message }
}

/// Removes a topic from the set; removing an absent topic is no error and
/// changes nothing.
pub fn unsubscribe_topic(
    topics: &mut TopicSet,
    metrics: &mut MessageMetrics,
    topic: &String,
) -> (r: ApiResponse)
    requires
        old(topics).wf(),
    ensures
        final(topics).wf(),
        final(topics)@ == old(topics)@.remove(topic@),
        *final(metrics) == (MessageMetrics { active_topics: final(metrics).active_topics, ..*old(metrics) }),
        final(metrics).active_topics == final(topics)@.len(),
        r.success,
        r.message@ == unsubscribed_text(topic@, old(topics)@.contains(topic@)),
{
    let removed = topics.remove(topic);
    metrics.set_active_topics(topics.len());
    let message = if removed {
        proof {
            reveal_strlit("Unsubscribed from topic: ");
        }
        message_with("Unsubscribed from topic: ", topic)
    } else {
        proof {
            reveal_strlit("Not subscribed to topic: ");
        }
        message_with("Not subscribed to topic: ", topic)
    };
    ApiResponse { success: true, message }
}

/// The topics, each once, in the order they were added.
pub fn list_topics(topics: &TopicSet) -> (r: TopicsResponse)
    requires
        topics.wf(),
    ensures
        names(r.topics@) == topics.order(),
        names(r.topics@).to_set() == topics@,
{
    topics.topics_response()
}

/// A snapshot of the counters.
pub fn read_metrics(metrics: &MessageMetrics) -> (r: MetricsResponse)
    ensures
        r.messages_received == metrics.messages_received,
        r.messages_processed == metrics.messages_processed,
        r.messages_dropped == metrics.messages_dropped,
        r.processing_errors == metrics.processing_errors,
        r.active_topics == metrics.active_topics,
{
    metrics.snapshot()
}

} // verus!
