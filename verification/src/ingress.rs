//! The broker-to-HTTP relay: what to do with each delivery that arrives
//! from the shared exchange, how the acknowledgment is tied to fan-out
//! success, and the connection-epoch state machine the consumer loop runs.

use crate::broadcaster::Broadcaster;
use crate::fanout::{publish_subs, ready_count, Fanout};
use crate::intersect_messaging::{
    encoded_frame, envelope_source, make_eventsource_data, passthrough_ok,
    should_message_passthrough,
};
use vstd::prelude::*;
use vstd::utf8::{decode_utf8, valid_utf8};

verus! {

/// How a delivery is resolved: every inbound message ends as exactly one of
/// these.
#[derive(Debug, PartialEq)]
pub enum Disposition {
    /// The payload is not valid UTF-8 text, so it cannot travel over SSE.
    NotText,
    /// The payload is text but not an INTERSECT envelope.
    NotEnvelope,
    /// A well-formed envelope from some other system: the relay only sees
    /// it because it subscribes to everything, and must neither forward nor
    /// acknowledge it.
    NotLocal,
    /// An envelope of this system: the event text to fan out.
    Forward(String),
}

/// What to do with the broker delivery afterwards. An inbound message is
/// resolved to exactly one of these, never both.
#[derive(Clone, Copy, Debug, PartialEq, Eq, Structural)]
pub enum AckDecision {
    /// Acknowledge the delivery: at least one downstream consumer got it.
    Ack,
    /// Leave the delivery unacknowledged so the broker redelivers it later.
    LeaveUnacked,
}

/// Relies on std's `String::from_utf8`: it succeeds exactly on valid UTF-8
/// input and returns the text those bytes encode.
#[verifier::external_body]
fn bytes_to_text(payload: &Vec<u8>) -> (r: Option<String>)
    ensures
        r is Some <==> valid_utf8(payload@),
        r matches Some(s) ==> s@ == decode_utf8(payload@),
{
    match String::from_utf8(payload.clone()) {
        Ok(s) => Some(s),
        Err(_) => None,
    }
}

/// Whether a delivery must be forwarded: its payload decodes to text whose
/// envelope source starts with this deployment's prefix.
pub open spec fn delivery_forwards(payload: Seq<u8>, prefix: Seq<char>) -> bool {
    valid_utf8(payload) && passthrough_ok(decode_utf8(payload), prefix)
}

/// Resolve one delivery to its disposition: invalid text and foreign
/// envelopes are never forwarded, an envelope of this system becomes the
/// event `routing_key DELIMITER text`.
pub fn evaluate_delivery(routing_key: &str, payload: &Vec<u8>, prefix: &str) -> (d: Disposition)
    ensures
        !valid_utf8(payload@) ==> d is NotText,
        valid_utf8(payload@) ==> {
            let text = decode_utf8(payload@);
            &&& envelope_source(text) is None ==> d is NotEnvelope
            &&& envelope_source(text) is Some && !passthrough_ok(text, prefix@) ==> d is NotLocal
            &&& passthrough_ok(text, prefix@) ==> (d matches Disposition::Forward(e) && e@
                == encoded_frame(routing_key@, text))
        },
        d is Forward <==> delivery_forwards(payload@, prefix@),
{
    let text = match bytes_to_text(payload) {
        Some(t) => t,
        None => {
            return Disposition::NotText;
        },
    };
    match should_message_passthrough(text.as_str(), prefix) {
        Err(_) => Disposition::NotEnvelope,
        Ok(false) => Disposition::NotLocal,
        Ok(true) => Disposition::Forward(make_eventsource_data(routing_key, text.as_str())),
    }
}

/// The acknowledgment is coupled to fan-out success: a delivery nobody
/// received stays unacknowledged so the broker redelivers it to an instance
/// that does have a listener; a delivery at least one subscriber got is
/// acknowledged exactly once.
pub fn ack_decision(delivered: usize) -> (d: AckDecision)
    ensures
        d == if delivered == 0 {
            AckDecision::LeaveUnacked
        } else {
            AckDecision::Ack
        },
{
    if delivered == 0 {
        AckDecision::LeaveUnacked
    } else {
        AckDecision::Ack
    }
}

/// One whole relay pass over the verified fan-out: resolve the delivery,
/// publish a forwardable event to every ready subscriber, and couple the
/// acknowledgment to how many received it. Anything not forwarded leaves
/// the fan-out untouched and the delivery unacknowledged.
pub fn consume_message(fan: &mut Fanout, routing_key: &str, payload: &Vec<u8>, prefix: &str) -> (r:
    (Disposition, AckDecision))
    ensures
        !valid_utf8(payload@) ==> r.0 is NotText,
        valid_utf8(payload@) ==> {
            let text = decode_utf8(payload@);
            &&& envelope_source(text) is None ==> r.0 is NotEnvelope
            &&& envelope_source(text) is Some && !passthrough_ok(text, prefix@) ==> r.0 is NotLocal
            &&& passthrough_ok(text, prefix@) ==> (r.0 matches Disposition::Forward(e) && e@
                == encoded_frame(routing_key@, text))
        },
        r.0 matches Disposition::Forward(e) ==> {
            &&& final(fan).subs_view() == publish_subs(old(fan).subs_view(), e@, old(fan).cap())
            &&& (r.1 == AckDecision::Ack <==> ready_count(old(fan).subs_view(), old(fan).cap())
                >= 1)
        },
        !(r.0 is Forward) ==> *final(fan) == *old(fan) && r.1 == AckDecision::LeaveUnacked,
        final(fan).cap() == old(fan).cap(),
        old(fan).wf() ==> final(fan).wf(),
{
    let d = evaluate_delivery(routing_key, payload, prefix);
    match d {
        Disposition::Forward(e) => {
            let delivered = fan.publish(e.as_str());
            let a = ack_decision(delivered);
            (Disposition::Forward(e), a)
        },
        other => (other, AckDecision::LeaveUnacked),
    }
}

/// One whole relay pass over the live broadcaster: the same resolution, but
/// how many subscribers the broadcast reaches depends on who is subscribed
/// at that moment, so only the coupling direction holds: an acknowledgment
/// is only ever produced for a forwarded event that the broadcaster
/// reported delivered.
pub fn relay_delivery(
    broadcaster: &Broadcaster,
    routing_key: &str,
    payload: &Vec<u8>,
    prefix: &str,
) -> (r: (Disposition, AckDecision))
    ensures
        !valid_utf8(payload@) ==> r.0 is NotText,
        valid_utf8(payload@) ==> {
            let text = decode_utf8(payload@);
            &&& envelope_source(text) is None ==> r.0 is NotEnvelope
            &&& envelope_source(text) is Some && !passthrough_ok(text, prefix@) ==> r.0 is NotLocal
            &&& passthrough_ok(text, prefix@) ==> (r.0 matches Disposition::Forward(e) && e@
                == encoded_frame(routing_key@, text))
        },
        r.1 is Ack ==> r.0 is Forward,
        !(r.0 is Forward) ==> r.1 is LeaveUnacked,
{
    let d = evaluate_delivery(routing_key, payload, prefix);
    match d {
        Disposition::Forward(e) => {
            let delivered = broadcaster.broadcast(e.as_str());
            let a = ack_decision(delivered);
            (Disposition::Forward(e), a)
        },
        other => (other, AckDecision::LeaveUnacked),
    }
}

/// The phases of one connection epoch of the consumer loop.
#[derive(Clone, Copy, Debug, PartialEq, Eq, Structural)]
pub enum IngressPhase {
    /// Acquiring connection and channel.
    Connecting,
    /// Declaring the shared exchange.
    Declaring,
    /// Declaring the durable queue and binding it to the exchange with the
    /// catch-all pattern.
    Binding,
    /// Consuming deliveries under manual acknowledgment.
    Consuming,
    /// Shutting down: cancelling the consumer and closing the transport.
    Draining,
    /// The relay task is done.
    Terminated,
}

/// The relay's state across connection epochs.
#[derive(Clone, Copy, Debug, PartialEq, Eq, Structural)]
pub struct IngressState {
    pub phase: IngressPhase,
    /// Whether this process has ever reached the broker; decides the retry
    /// budget of the next connect.
    pub connected_once: bool,
}

/// What the consumer loop observes.
#[derive(Clone, Copy, Debug, PartialEq, Eq, Structural)]
pub enum IngressEvent {
    /// Connection and channel are open with callbacks registered.
    Connected,
    /// The shared exchange is declared.
    ExchangeDeclared,
    /// The durable queue is declared and bound.
    QueueBound,
    /// One delivery arrived on the consumer stream.
    DeliveryArrived,
    /// The delivery stream closed unexpectedly: broker-side disconnect.
    StreamClosed,
    /// The process-wide shutdown signal fired.
    ShutdownRequested,
    /// Consumer cancelled, channel and connection closed (best effort).
    CleanupDone,
}

/// What the consumer loop must do next.
#[derive(Clone, Copy, Debug, PartialEq, Eq, Structural)]
pub enum IngressAction {
    /// Open connection and channel, with the retry budget that
    /// `RetryBudget::for_attempt(connected_once)` gives.
    Connect,
    /// Declare the shared durable topic exchange, idempotently.
    DeclareExchange,
    /// Declare the stable, durable, process-named queue and bind it with
    /// the catch-all wildcard pattern: source filtering happens in
    /// software, so the relay must see every message.
    DeclareAndBindQueue,
    /// Start a manual-acknowledgment consumer.
    StartConsumer,
    /// Run one relay pass over the arrived delivery and execute its
    /// acknowledgment decision.
    HandleDelivery,
    /// Cancel the consumer registration and close channel and connection,
    /// best effort, logging but never failing.
    Cleanup,
    /// The relay task exits.
    Exit,
    /// Nothing: the event does not concern this phase.
    Stay,
}

/// The transition table of the consumer loop: each connection epoch walks
/// `Connecting → Declaring → Binding → Consuming`, consuming handles one
/// delivery at a time, a broker-side disconnect loops back to `Connecting`
/// with the bounded reconnect budget, and the shutdown signal drains and
/// terminates. Events that do not concern the phase change nothing.
pub open spec fn spec_ingress_step(s: IngressState, e: IngressEvent) -> (IngressState, IngressAction) {
    match (s.phase, e) {
        (IngressPhase::Connecting, IngressEvent::Connected) => (
            IngressState { phase: IngressPhase::Declaring, connected_once: true },
            IngressAction::DeclareExchange,
        ),
        (IngressPhase::Declaring, IngressEvent::ExchangeDeclared) => (
            IngressState { phase: IngressPhase::Binding, ..s },
            IngressAction::DeclareAndBindQueue,
        ),
        (IngressPhase::Binding, IngressEvent::QueueBound) => (
            IngressState { phase: IngressPhase::Consuming, ..s },
            IngressAction::StartConsumer,
        ),
        (IngressPhase::Consuming, IngressEvent::DeliveryArrived) => (
            s,
            IngressAction::HandleDelivery,
        ),
        (IngressPhase::Consuming, IngressEvent::StreamClosed) => (
            IngressState { phase: IngressPhase::Connecting, ..s },
            IngressAction::Cleanup,
        ),
        (IngressPhase::Consuming, IngressEvent::ShutdownRequested) => (
            IngressState { phase: IngressPhase::Draining, ..s },
            IngressAction::Cleanup,
        ),
        (IngressPhase::Draining, IngressEvent::CleanupDone) => (
            IngressState { phase: IngressPhase::Terminated, ..s },
            IngressAction::Exit,
        ),
        (IngressPhase::Connecting, IngressEvent::CleanupDone) => (s, IngressAction::Connect),
        _ => (s, IngressAction::Stay),
    }
}

/// The state a consumer loop starts in: not yet connected, ever.
pub fn ingress_initial() -> (r: (IngressState, IngressAction))
    ensures
        r.0 == (IngressState { phase: IngressPhase::Connecting, connected_once: false }),
        r.1 == IngressAction::Connect,
{
    (
        IngressState { phase: IngressPhase::Connecting, connected_once: false },
        IngressAction::Connect,
    )
}

/// Take one step of the consumer-loop state machine.
pub fn ingress_step(s: IngressState, e: IngressEvent) -> (r: (IngressState, IngressAction))
    ensures
        r == spec_ingress_step(s, e),
{
    match (s.phase, e) {
        (IngressPhase::Connecting, IngressEvent::Connected) => (
            IngressState { phase: IngressPhase::Declaring, connected_once: true },
            IngressAction::DeclareExchange,
        ),
        (IngressPhase::Declaring, IngressEvent::ExchangeDeclared) => (
            IngressState { phase: IngressPhase::Binding, ..s },
            IngressAction::DeclareAndBindQueue,
        ),
        (IngressPhase::Binding, IngressEvent::QueueBound) => (
            IngressState { phase: IngressPhase::Consuming, ..s },
            IngressAction::StartConsumer,
        ),
        (IngressPhase::Consuming, IngressEvent::DeliveryArrived) => (
            s,
            IngressAction::HandleDelivery,
        ),
        (IngressPhase::Consuming, IngressEvent::StreamClosed) => (
            IngressState { phase: IngressPhase::Connecting, ..s },
            IngressAction::Cleanup,
        ),
        (IngressPhase::Consuming, IngressEvent::ShutdownRequested) => (
            IngressState { phase: IngressPhase::Draining, ..s },
            IngressAction::Cleanup,
        ),
        (IngressPhase::Draining, IngressEvent::CleanupDone) => (
            IngressState { phase: IngressPhase::Terminated, ..s },
            IngressAction::Exit,
        ),
        (IngressPhase::Connecting, IngressEvent::CleanupDone) => (s, IngressAction::Connect),
        _ => (s, IngressAction::Stay),
    }
}

} // verus!
