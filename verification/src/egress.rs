//! The HTTP-to-broker relay: how each event read from the remote SSE stream
//! is screened before it may be republished onto the local exchange, and
//! what the event loop does with everything else it observes.

use crate::amqp::{is_name_compliant, name_compliant};
use crate::intersect_messaging::{
    decoded_channel, decoded_message, extract_eventsource_data, first_delim, has_delimiter,
};
use vstd::prelude::*;

verus! {

/// How one remote event is resolved: exactly one of these, never two.
#[derive(Debug, PartialEq)]
pub enum EgressDisposition {
    /// The frame holds no delimiter: it is dropped, never forwarded with an
    /// empty topic.
    MalformedFrame,
    /// The topic fails the AMQP naming rules: dropped before it can reach
    /// the broker, which would reject it and tear down the publish channel.
    NonCompliantTopic,
    /// A publishable event: topic and payload, split at the first
    /// delimiter.
    Publish { topic: String, payload: String },
}

/// Whether a remote frame is publishable: it has a delimiter and its topic
/// obeys the AMQP naming rules.
pub open spec fn remote_event_publishable(data: Seq<char>) -> bool {
    first_delim(data) >= 0 && name_compliant(decoded_channel(data))
}

/// Screen one remote event: only a well-delimited frame whose topic is
/// AMQP-compliant may be published, as exactly that topic and payload.
pub fn evaluate_remote_event(data: &str) -> (d: EgressDisposition)
    ensures
        first_delim(data@) < 0 ==> d is MalformedFrame,
        first_delim(data@) >= 0 && !name_compliant(decoded_channel(data@))
            ==> d is NonCompliantTopic,
        remote_event_publishable(data@) ==> (d matches EgressDisposition::Publish {
            topic,
            payload,
        } && topic@ == decoded_channel(data@) && payload@ == decoded_message(data@)),
{
    if !has_delimiter(data) {
        return EgressDisposition::MalformedFrame;
    }
    let r = extract_eventsource_data(data);
    if !is_name_compliant(r.0.as_str()) {
        return EgressDisposition::NonCompliantTopic;
    }
    EgressDisposition::Publish { topic: r.0, payload: r.1 }
}

/// What the egress event loop observes: the remote stream's lifecycle, its
/// events, and the process-wide shutdown signal.
#[derive(Debug)]
pub enum RemoteEvent {
    /// The SSE connection to the peer opened.
    Opened,
    /// One event arrived; this is its data field.
    Message(String),
    /// The stream reported an unrecoverable error: unreachable endpoint or
    /// dropped connection.
    StreamError,
    /// The stream ended without a next event.
    StreamEnded,
    /// The process-wide shutdown signal fired.
    ShutdownRequested,
}

/// What the egress event loop must do next.
#[derive(Debug, PartialEq)]
pub enum EgressAction {
    /// Nothing to do: keep reading the stream.
    KeepListening,
    /// Drop the event: its frame holds no delimiter. Log and continue.
    DropMalformed,
    /// Drop the event: its topic would be rejected by the broker. Log and
    /// continue.
    DropNonCompliant,
    /// Publish this payload on this topic, with persistence, over a fresh
    /// channel on the shared connection; a publish failure is logged and
    /// the message dropped, never retried synchronously.
    Publish { topic: String, payload: String },
    /// Stop reading and shut the relay down with this process exit code:
    /// zero only for the graceful shutdown signal.
    Stop { exit_code: i32 },
}

/// Resolve one observation of the egress loop. Stream failure and stream
/// end both end the process with a non-zero code; only the shutdown signal
/// exits cleanly. A message is screened and either published or dropped;
/// nothing else touches the broker.
pub fn egress_event_step(event: RemoteEvent) -> (a: EgressAction)
    ensures
        event is Opened ==> a is KeepListening,
        event matches RemoteEvent::Message(d) ==> {
            &&& first_delim(d@) < 0 ==> a is DropMalformed
            &&& first_delim(d@) >= 0 && !name_compliant(decoded_channel(d@))
                ==> a is DropNonCompliant
            &&& remote_event_publishable(d@) ==> (a matches EgressAction::Publish {
                topic,
                payload,
            } && topic@ == decoded_channel(d@) && payload@ == decoded_message(d@))
        },
        event is StreamError ==> a == (EgressAction::Stop { exit_code: 1 }),
        event is StreamEnded ==> a == (EgressAction::Stop { exit_code: 1 }),
        event is ShutdownRequested ==> a == (EgressAction::Stop { exit_code: 0 }),
{
    match event {
        RemoteEvent::Opened => EgressAction::KeepListening,
        RemoteEvent::Message(data) => match evaluate_remote_event(data.as_str()) {
            EgressDisposition::MalformedFrame => EgressAction::DropMalformed,
            EgressDisposition::NonCompliantTopic => EgressAction::DropNonCompliant,
            EgressDisposition::Publish { topic, payload } => EgressAction::Publish {
                topic,
                payload,
            },
        },
        RemoteEvent::StreamError => EgressAction::Stop { exit_code: 1 },
        RemoteEvent::StreamEnded => EgressAction::Stop { exit_code: 1 },
        RemoteEvent::ShutdownRequested => EgressAction::Stop { exit_code: 0 },
    }
}

} // verus!
