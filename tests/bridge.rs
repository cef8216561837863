use mqtt_subscriber::api::SubscribeRequest;
use mqtt_subscriber::config::{build_config, parse_decimal, qos_from_level};
use mqtt_subscriber::connection::{
    handle_publish, ConnAction, ConnEvent, ConnectionManager, Phase, DEFAULT_BACKOFF_MS,
    QUEUE_CAPACITY,
};
use mqtt_subscriber::control::{list_topics, read_metrics, subscribe_topic, unsubscribe_topic};
use mqtt_subscriber::forwarder::KafkaProducer;
use mqtt_subscriber::message::{MqttMessage, QoS};
use mqtt_subscriber::metrics::MessageMetrics;
use mqtt_subscriber::processor::{finish_forward, payload_text, process_message};
use mqtt_subscriber::queue::{EnqueueOutcome, MessageQueue};
use mqtt_subscriber::topics::TopicSet;

fn msg(topic: &str, payload: &[u8]) -> MqttMessage {
    MqttMessage::new(topic.to_string(), payload.to_vec(), QoS::AtMostOnce, false, 7, 1_700_000_000_000)
}

/// Drives a fresh session to polling and returns the topics it subscribed to.
fn run_session(
    cm: &mut ConnectionManager,
    topics: &TopicSet,
    metrics: &mut MessageMetrics,
    queue: &mut MessageQueue,
) -> Vec<String> {
    let mut subscribed = Vec::new();
    let mut action = cm.step(ConnEvent::SessionOpened, topics, metrics, queue);
    loop {
        match action {
            ConnAction::Subscribe(t, qos) => {
                assert_eq!(qos, QoS::AtLeastOnce);
                subscribed.push(t);
                action = cm.step(ConnEvent::SubscribeDone, topics, metrics, queue);
            }
            ConnAction::Poll => break,
            other => panic!("unexpected action {:?}", other),
        }
    }
    subscribed.sort();
    subscribed
}

#[test]
fn add_twice_remove_absent_keeps_one() {
    let mut set = TopicSet::new();
    assert!(set.add("a".to_string()));
    assert!(!set.add("a".to_string()));
    assert!(!set.remove(&"b".to_string()));
    assert_eq!(set.list(), vec!["a".to_string()]);
    assert_eq!(set.len(), 1);
}

#[test]
fn list_size_counts_distinct_topics() {
    let mut set = TopicSet::new();
    set.add("x".to_string());
    set.add("y".to_string());
    set.add("x".to_string());
    set.remove(&"y".to_string());
    set.remove(&"y".to_string());
    set.add("z".to_string());
    assert_eq!(set.list(), vec!["x".to_string(), "z".to_string()]);
    assert!(set.contains(&"z".to_string()));
    assert!(!set.contains(&"y".to_string()));
}

#[test]
fn sensor_message_is_forwarded_and_counted() {
    let m = msg("sensor/1", b"23.5");
    let req = process_message(&m);
    assert_eq!(req.key, "sensor/1");
    assert_eq!(req.payload, b"23.5".to_vec());
    assert_eq!(req.text, "23.5");
    let mut metrics = MessageMetrics::new();
    let mut producer = KafkaProducer::new("mqtt-messages");
    assert!(finish_forward(&mut metrics, &mut producer, Ok(())).is_ok());
    assert_eq!(metrics.messages_processed, 1);
    assert_eq!(metrics.processing_errors, 0);
    assert!(producer.check_connection());
}

#[test]
fn binary_payload_is_forwarded_unchanged() {
    let m = msg("cam/1", &[0xff, 0x00, 0xfe]);
    let req = process_message(&m);
    assert_eq!(req.payload, vec![0xff, 0x00, 0xfe]);
    assert_eq!(req.text, "[binary data]");
    assert_eq!(payload_text(None), "[binary data]");
}

#[test]
fn multibyte_payload_is_decoded() {
    let m = msg("t", "é°C".as_bytes());
    let req = process_message(&m);
    assert_eq!(req.text, "é°C");
    assert_eq!(req.payload, "é°C".as_bytes().to_vec());
}

#[test]
fn no_loss_with_room_in_queue() {
    let mut metrics = MessageMetrics::new();
    let mut queue = MessageQueue::new(QUEUE_CAPACITY);
    let mut producer = KafkaProducer::new("sink");
    assert_eq!(handle_publish(&mut metrics, &mut queue, msg("a", b"1")), EnqueueOutcome::Queued);
    assert_eq!(metrics.messages_received, 1);
    assert_eq!(metrics.messages_dropped, 0);
    let m = queue.pop().unwrap();
    assert_eq!(m.topic, "a");
    let _ = process_message(&m);
    finish_forward(&mut metrics, &mut producer, Ok(())).unwrap();
    assert_eq!(metrics.messages_processed, 1);
    assert!(queue.pop().is_none());
}

#[test]
fn full_queue_drops_and_counts() {
    let mut metrics = MessageMetrics::new();
    let mut queue = MessageQueue::new(2);
    handle_publish(&mut metrics, &mut queue, msg("a", b"1"));
    handle_publish(&mut metrics, &mut queue, msg("a", b"2"));
    for _ in 0..3 {
        assert_eq!(handle_publish(&mut metrics, &mut queue, msg("a", b"x")), EnqueueOutcome::Full);
    }
    assert_eq!(metrics.messages_received, 5);
    assert_eq!(metrics.messages_dropped, 3);
    assert_eq!(queue.len(), 2);
    assert_eq!(queue.pop().unwrap().payload, b"1".to_vec());
    assert_eq!(queue.pop().unwrap().payload, b"2".to_vec());
}

#[test]
fn closed_queue_drops() {
    let mut metrics = MessageMetrics::new();
    let mut queue = MessageQueue::new(4);
    queue.close();
    assert_eq!(handle_publish(&mut metrics, &mut queue, msg("a", b"1")), EnqueueOutcome::Closed);
    assert_eq!(metrics.messages_dropped, 1);
    assert!(queue.is_closed());
}

#[test]
fn forward_failure_is_isolated() {
    let mut metrics = MessageMetrics::new();
    let mut producer = KafkaProducer::new("sink");
    let err = finish_forward(&mut metrics, &mut producer, Err("timed out".to_string()));
    assert_eq!(err, Err("Failed to send to Kafka: timed out".to_string()));
    assert_eq!(metrics.processing_errors, 1);
    assert!(!producer.check_connection());
    finish_forward(&mut metrics, &mut producer, Ok(())).unwrap();
    assert_eq!(metrics.messages_processed, 1);
    assert_eq!(metrics.processing_errors, 1);
    assert!(producer.check_connection());
    assert_eq!(producer.topic(), "sink");
}

#[test]
fn poll_error_reconnects_and_resubscribes_everything() {
    let mut topics = TopicSet::new();
    topics.add("a".to_string());
    topics.add("b".to_string());
    let mut metrics = MessageMetrics::new();
    let mut queue = MessageQueue::new(QUEUE_CAPACITY);
    let mut cm = ConnectionManager::new(QoS::AtLeastOnce, DEFAULT_BACKOFF_MS);
    assert_eq!(cm.phase(), Phase::Disconnected);
    assert_eq!(cm.step(ConnEvent::Start, &topics, &mut metrics, &mut queue), ConnAction::OpenSession);
    assert_eq!(run_session(&mut cm, &topics, &mut metrics, &mut queue), vec!["a", "b"]);
    assert_eq!(cm.phase(), Phase::Polling);
    assert_eq!(cm.step(ConnEvent::OtherPacket, &topics, &mut metrics, &mut queue), ConnAction::Poll);
    assert_eq!(cm.step(ConnEvent::PollError, &topics, &mut metrics, &mut queue), ConnAction::Sleep(5000));
    assert_eq!(cm.phase(), Phase::Backoff);
    topics.add("c".to_string());
    topics.remove(&"a".to_string());
    assert_eq!(cm.step(ConnEvent::BackoffElapsed, &topics, &mut metrics, &mut queue), ConnAction::OpenSession);
    assert_eq!(run_session(&mut cm, &topics, &mut metrics, &mut queue), vec!["b", "c"]);
    assert_eq!(cm.phase(), Phase::Polling);
}

#[test]
fn empty_topic_set_polls_at_once() {
    let topics = TopicSet::new();
    let mut metrics = MessageMetrics::new();
    let mut queue = MessageQueue::new(1);
    let mut cm = ConnectionManager::new(QoS::AtMostOnce, 10);
    cm.step(ConnEvent::Start, &topics, &mut metrics, &mut queue);
    assert_eq!(cm.step(ConnEvent::SessionOpened, &topics, &mut metrics, &mut queue), ConnAction::Poll);
}

#[test]
fn failed_connect_backs_off() {
    let topics = TopicSet::new();
    let mut metrics = MessageMetrics::new();
    let mut queue = MessageQueue::new(1);
    let mut cm = ConnectionManager::new(QoS::AtMostOnce, 250);
    cm.step(ConnEvent::Start, &topics, &mut metrics, &mut queue);
    assert_eq!(cm.step(ConnEvent::ConnectFailed, &topics, &mut metrics, &mut queue), ConnAction::Sleep(250));
    assert_eq!(cm.step(ConnEvent::PollError, &topics, &mut metrics, &mut queue), ConnAction::Wait);
    assert_eq!(cm.phase(), Phase::Backoff);
}

#[test]
fn publish_while_polling_is_queued() {
    let topics = TopicSet::new();
    let mut metrics = MessageMetrics::new();
    let mut queue = MessageQueue::new(1);
    let mut cm = ConnectionManager::new(QoS::AtMostOnce, 10);
    cm.step(ConnEvent::Start, &topics, &mut metrics, &mut queue);
    cm.step(ConnEvent::SessionOpened, &topics, &mut metrics, &mut queue);
    let a = cm.step(ConnEvent::Publish(msg("s", b"1")), &topics, &mut metrics, &mut queue);
    assert_eq!(a, ConnAction::Poll);
    let b = cm.step(ConnEvent::Publish(msg("s", b"2")), &topics, &mut metrics, &mut queue);
    assert_eq!(b, ConnAction::Poll);
    assert_eq!(metrics.messages_received, 2);
    assert_eq!(metrics.messages_dropped, 1);
    assert_eq!(queue.len(), 1);
}

#[test]
fn control_plane_updates_topics_and_count() {
    let mut topics = TopicSet::new();
    let mut metrics = MessageMetrics::new();
    let r = subscribe_topic(&mut topics, &mut metrics, SubscribeRequest { topic: "a/b".to_string() });
    assert!(r.success);
    assert_eq!(r.message, "Subscribed to topic: a/b");
    let r = subscribe_topic(&mut topics, &mut metrics, SubscribeRequest { topic: "a/b".to_string() });
    assert_eq!(r.message, "Already subscribed to topic: a/b");
    assert_eq!(read_metrics(&metrics).active_topics, 1);
    assert_eq!(list_topics(&topics).topics, vec!["a/b".to_string()]);
    let r = unsubscribe_topic(&mut topics, &mut metrics, &"c".to_string());
    assert_eq!(r.message, "Not subscribed to topic: c");
    let r = unsubscribe_topic(&mut topics, &mut metrics, &"a/b".to_string());
    assert_eq!(r.message, "Unsubscribed from topic: a/b");
    assert_eq!(read_metrics(&metrics).active_topics, 0);
    assert!(list_topics(&topics).topics.is_empty());
}

#[test]
fn decimal_parsing_follows_unsigned_syntax() {
    assert_eq!(parse_decimal("1883", 65535), Some(1883));
    assert_eq!(parse_decimal("+80", 65535), Some(80));
    assert_eq!(parse_decimal("65535", 65535), Some(65535));
    assert_eq!(parse_decimal("65536", 65535), None);
    assert_eq!(parse_decimal("", 65535), None);
    assert_eq!(parse_decimal("+", 65535), None);
    assert_eq!(parse_decimal("-1", 65535), None);
    assert_eq!(parse_decimal("12a", 65535), None);
    assert_eq!(parse_decimal("18446744073709551615", u64::MAX), Some(u64::MAX));
    assert_eq!(parse_decimal("18446744073709551616", u64::MAX), None);
    assert_eq!(parse_decimal("99999999999999999999999", u64::MAX), None);
}

#[test]
fn qos_levels() {
    assert_eq!(qos_from_level("0"), QoS::AtMostOnce);
    assert_eq!(qos_from_level("1"), QoS::AtLeastOnce);
    assert_eq!(qos_from_level("2"), QoS::ExactlyOnce);
    assert_eq!(qos_from_level("3"), QoS::AtMostOnce);
    assert_eq!(qos_from_level("11"), QoS::AtMostOnce);
}

#[test]
fn config_defaults_and_credentials() {
    let c = build_config(
        "broker.local".to_string(),
        "not a port",
        String::new(),
        "secret".to_string(),
        "2",
        "30",
        "99999",
    );
    assert_eq!(c.mqtt_broker, "broker.local");
    assert_eq!(c.mqtt_port, 1883);
    assert!(c.mqtt_credentials.is_none());
    assert_eq!(c.mqtt_qos, QoS::ExactlyOnce);
    assert_eq!(c.mqtt_keep_alive_secs, 30);
    assert_eq!(c.api_port, 3000);
    let c = build_config("h".to_string(), "8883", "u".to_string(), "p".to_string(), "0", "x", "8080");
    assert_eq!(c.mqtt_port, 8883);
    assert_eq!(c.mqtt_credentials, Some(("u".to_string(), "p".to_string())));
    assert_eq!(c.mqtt_keep_alive_secs, 60);
    assert_eq!(c.api_port, 8080);
}
