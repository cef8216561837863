//! Bodies exchanged with the control plane.
use vstd::prelude::*;

verus! {

/// Request for subscribing to a topic.
pub struct SubscribeRequest {
    /// Topic to subscribe to.
    pub topic: String,
}

/// Standard control-plane response.
pub struct ApiResponse {
    /// Whether the operation was successful.
    pub success: bool,
    /// Response message.
    pub message: String,
}

/// Response listing the subscribed topics.
pub struct TopicsResponse {
    /// Subscribed topics.
    pub topics: Vec<String>,
}

/// Response carrying a snapshot of the message counters.
pub struct MetricsResponse {
    /// Total number of messages received.
    pub messages_received: usize,
    /// Total number of messages forwarded successfully.
    pub messages_processed: usize,
    /// Number of messages dropped because the queue was full or closed.
    pub messages_dropped: usize,
    /// Number of forwarding failures.
    pub processing_errors: usize,
    /// Number of topics in the topic set.
    pub active_topics: usize,
}

} // verus!
