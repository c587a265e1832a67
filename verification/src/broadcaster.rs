//! The live fan-out primitive: a bounded single-producer multi-consumer
//! channel that links the broker consumer to every streaming HTTP client.
//! Its discipline — bounded queues, drop-on-full with a lag counter, a
//! producer that never waits — is stated and proved over [`crate::fanout`];
//! this module carries the concurrent channel the running relay hands its
//! events to.

use std::sync::Arc;
use vstd::prelude::*;

verus! {

#[verifier::external_type_specification]
#[verifier::external_body]
#[verifier::reject_recursive_types(T)]
pub struct ExSender<T>(tokio::sync::broadcast::Sender<T>);

#[verifier::external_type_specification]
#[verifier::external_body]
#[verifier::reject_recursive_types(T)]
pub struct ExReceiver<T>(tokio::sync::broadcast::Receiver<T>);

/// How many pending events each subscriber's queue holds before it lags:
/// sized for a handful of slow HTTP clients, not for durable queuing —
/// durability belongs to the broker, not to this in-memory fan-out.
pub const BROADCAST_CAPACITY: usize = 16;

/// Relies on tokio's `broadcast::channel`: a fan-out channel whose
/// subscribers each see, in order, the events sent after they subscribed,
/// up to a queue of `capacity` pending events each. `channel` panics on a
/// capacity of zero or above `usize::MAX / 2`, which the precondition rules
/// out.
#[verifier::external_body]
fn fanout_channel(capacity: usize) -> (tx: tokio::sync::broadcast::Sender<String>)
    requires
        1 <= capacity <= usize::MAX / 2,
{
    let (tx, _rx) = tokio::sync::broadcast::channel(capacity);
    tx
}

/// Relies on tokio's `Sender::subscribe`: registers a new receiver that
/// sees every event sent from this point on.
#[verifier::external_body]
fn fanout_subscribe(tx: &tokio::sync::broadcast::Sender<String>) -> (rx: tokio::sync::broadcast::Receiver<String>)
{
    tx.subscribe()
}

/// Relies on tokio's `Sender::send`: makes the event visible to every
/// receiver subscribed at the moment of the call and returns how many
/// there were (a receiver that lags may still miss it); with none left,
/// `send` reports an error, mapped here to zero. How many receivers exist
/// depends on concurrent subscribe and drop, so nothing more can be
/// promised of the count.
#[verifier::external_body]
fn fanout_send(tx: &tokio::sync::broadcast::Sender<String>, event: &str) -> (delivered: usize)
{
    tx.send(event.to_owned()).unwrap_or(0)
}

/// The single-producer multi-consumer link between the broker and the HTTP
/// gateway: the broker-consumer publishes, every streaming client receives.
pub struct Broadcaster {
    fanout: tokio::sync::broadcast::Sender<String>,
}

impl Broadcaster {
    /// Create the broadcaster, wrapped in an `Arc` so the consumer task and
    /// every subscription task can share it. It manages its producer side
    /// only; consumers are cleaned up by whoever registered them.
    pub fn new() -> Arc<Broadcaster> {
        Arc::new(Broadcaster { fanout: fanout_channel(BROADCAST_CAPACITY) })
    }

    /// Register a new consumer; the caller is responsible for cleaning it
    /// up when its client disconnects.
    pub fn add_client(&self) -> tokio::sync::broadcast::Receiver<String> {
        fanout_subscribe(&self.fanout)
    }

    /// Hand one event to every currently subscribed consumer; returns how
    /// many there were at the moment of the call, zero when nobody was
    /// listening.
    pub fn broadcast(&self, event: &str) -> usize {
        fanout_send(&self.fanout, event)
    }
}

} // verus!
