//! Core of a bridge that subscribes to topics on a publish/subscribe broker,
//! moves every received message through a bounded queue and forwards it to an
//! event-streaming sink, resubscribing to the whole topic set after every
//! connection loss.

pub mod api;
pub mod config;
pub mod connection;
pub mod control;
pub mod forwarder;
pub mod message;
pub mod metrics;
pub mod processor;
pub mod queue;
pub mod topics;
