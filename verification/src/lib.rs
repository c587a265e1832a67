//! Two-way gateway between an AMQP topic-exchange pub/sub domain and
//! HTTP-only consumers that receive a Server-Sent-Events push stream.
//!
//! The verified core covers the framing codec shared by the two transports,
//! AMQP name compliance, the envelope source filter, the bounded lossy
//! fan-out that bridges one broker consumer to many HTTP streams, the
//! acknowledgment decision that ties at-least-once delivery to fan-out
//! success, and the connection-lifecycle state machines of both relay
//! directions.

use vstd::prelude::*;

pub mod amqp;
pub mod broadcaster;
pub mod configuration;
pub mod egress;
pub mod fanout;
pub mod ingress;
pub mod intersect_messaging;
pub mod supervisor;

verus! {

/// The one shared topic exchange: everything rides on it, and messages are
/// separated by routing key alone.
pub const INTERSECT_MESSAGE_EXCHANGE: &'static str = "intersect-messages";

} // verus!
