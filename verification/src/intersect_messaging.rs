//! The core messaging logic: the wire framing shared between an AMQP message
//! and a Server-Sent-Events event, and the source filter that decides which
//! envelopes may pass from the broker out to the HTTP stream.

use vstd::prelude::*;
use vstd::string::StrSliceExecFns;
use vstd::string::StringExecFns;

verus! {

/// The single-byte frame delimiter between channel and message: a
/// non-printable character that never appears in a channel name, though a
/// message body may still contain it (decoding splits on the first
/// occurrence only).
pub const DELIMITER: char = '\x01';

/// Whether the delimiter occurs anywhere in `s`.
pub open spec fn contains_delim(s: Seq<char>) -> bool {
    exists|i: int| 0 <= i < s.len() && s[i] == DELIMITER
}

/// Index of the first delimiter in `s`, or -1 when there is none.
pub open spec fn first_delim(s: Seq<char>) -> int
    decreases s.len(),
{
    if s.len() == 0 {
        -1
    } else if s[0] == DELIMITER {
        0
    } else {
        let r = first_delim(s.drop_first());
        if r < 0 {
            -1
        } else {
            r + 1
        }
    }
}

/// The wire form of an event: channel, delimiter, message.
pub open spec fn encoded_frame(channel: Seq<char>, msg: Seq<char>) -> Seq<char> {
    channel + seq![DELIMITER] + msg
}

/// The channel a frame decodes to: everything before the first delimiter,
/// or empty when the frame holds no delimiter.
pub open spec fn decoded_channel(s: Seq<char>) -> Seq<char> {
    if first_delim(s) < 0 {
        Seq::empty()
    } else {
        s.subrange(0, first_delim(s))
    }
}

/// The message a frame decodes to: everything after the first delimiter,
/// or empty when the frame holds no delimiter.
pub open spec fn decoded_message(s: Seq<char>) -> Seq<char> {
    if first_delim(s) < 0 {
        Seq::empty()
    } else {
        s.subrange(first_delim(s) + 1, s.len() as int)
    }
}

/// What `first_delim` points at: a delimiter, with none before it; and when
/// it is negative, the sequence holds no delimiter at all.
pub proof fn lemma_first_delim(s: Seq<char>)
    ensures
        first_delim(s) >= 0 ==> {
            &&& first_delim(s) < s.len()
            &&& s[first_delim(s)] == DELIMITER
            &&& forall|j: int| 0 <= j < first_delim(s) ==> s[j] != DELIMITER
        },
        first_delim(s) < 0 ==> forall|j: int| 0 <= j < s.len() ==> s[j] != DELIMITER,
    decreases s.len(),
{
    if s.len() > 0 && s[0] != DELIMITER {
        lemma_first_delim(s.drop_first());
        assert forall|j: int| 0 <= j < s.len() && first_delim(s) < 0 implies s[j]
            != DELIMITER by {
            if j > 0 {
                assert(s.drop_first()[j - 1] == s[j]);
            }
        }
        if first_delim(s) >= 0 {
            assert forall|j: int| 0 <= j < first_delim(s) implies s[j] != DELIMITER by {
                if j > 0 {
                    assert(s.drop_first()[j - 1] == s[j]);
                }
            }
        }
    }
}

/// A position that holds a delimiter, with none before it, is exactly where
/// `first_delim` points.
pub proof fn lemma_first_delim_at(s: Seq<char>, i: int)
    requires
        0 <= i < s.len(),
        s[i] == DELIMITER,
        forall|j: int| 0 <= j < i ==> s[j] != DELIMITER,
    ensures
        first_delim(s) == i,
{
    lemma_first_delim(s);
    if first_delim(s) < 0 {
        assert(false);
    } else if first_delim(s) < i {
        assert(s[first_delim(s)] != DELIMITER);
        assert(false);
    } else if first_delim(s) > i {
        assert(s[i] != DELIMITER);
        assert(false);
    }
}

/// Encoding a channel without a delimiter and then decoding restores both
/// parts exactly, whatever the message holds.
pub proof fn lemma_encode_decode_round_trip(channel: Seq<char>, msg: Seq<char>)
    requires
        !contains_delim(channel),
    ensures
        decoded_channel(encoded_frame(channel, msg)) == channel,
        decoded_message(encoded_frame(channel, msg)) == msg,
{
    let s = encoded_frame(channel, msg);
    assert(s[channel.len() as int] == DELIMITER);
    assert forall|j: int| 0 <= j < channel.len() implies s[j] != DELIMITER by {
        assert(s[j] == channel[j]);
    }
    lemma_first_delim_at(s, channel.len() as int);
    assert(s.subrange(0, channel.len() as int) =~= channel);
    assert(s.subrange(channel.len() as int + 1, s.len() as int) =~= msg);
}

/// Locate the first delimiter in `data`, if any.
fn find_delim(data: &str) -> (r: Option<usize>)
    ensures
        match r {
            Some(i) => first_delim(data@) == i as int,
            None => first_delim(data@) < 0,
        },
{
    let len = data.unicode_len();
    let mut i: usize = 0;
    while i < len
        invariant
            len == data@.len(),
            i <= len,
            forall|j: int| 0 <= j < i ==> data@[j] != DELIMITER,
        decreases len - i,
    {
        let c = data.get_char(i);
        if c == DELIMITER {
            proof {
                lemma_first_delim_at(data@, i as int);
            }
            return Some(i);
        }
        i = i + 1;
    }
    proof {
        lemma_first_delim(data@);
        if first_delim(data@) >= 0 {
            assert(data@[first_delim(data@)] != DELIMITER);
        }
    }
    None
}

/// Whether the data holds a frame delimiter at all; data without one is no
/// frame and decodes to nothing.
pub fn has_delimiter(data: &str) -> (r: bool)
    ensures
        r == (first_delim(data@) >= 0),
        r == contains_delim(data@),
{
    proof {
        lemma_first_delim(data@);
    }
    match find_delim(data) {
        Some(_) => true,
        None => false,
    }
}

/// Build the event source data string: channel, delimiter, message.
pub fn make_eventsource_data(channel: &str, msg_str: &str) -> (r: String)
    ensures
        r@ == encoded_frame(channel@, msg_str@),
{
    let mut s = channel.to_owned();
    s.append("\x01");
    s.append(msg_str);
    proof {
        reveal_strlit("\x01");
        assert("\x01"@ =~= seq![DELIMITER]);
        assert(s@ =~= encoded_frame(channel@, msg_str@));
    }
    s
}

/// Split event source data at the first delimiter into the channel string
/// and the message string; data without a delimiter is normalized to a pair
/// of empty strings, the one safe value for malformed upstream input.
pub fn extract_eventsource_data(data: &str) -> (r: (String, String))
    ensures
        r.0@ == decoded_channel(data@),
        r.1@ == decoded_message(data@),
{
    match find_delim(data) {
        Some(i) => {
            proof {
                lemma_first_delim(data@);
            }
            let len = data.unicode_len();
            let channel = data.substring_char(0, i).to_owned();
            let msg = data.substring_char(i + 1, len).to_owned();
            (channel, msg)
        },
        None => (String::new(), String::new()),
    }
}

/// An INTERSECT message as far as this gateway reads it: only the headers
/// matter here, every other field is opaque and passed through verbatim.
pub struct IntersectMessage {
    /// All IntersectMessages have headers.
    pub headers: IntersectMessageHeaders,
}

/// The message headers; only the data source is relevant to the gateway.
pub struct IntersectMessageHeaders {
    /// The system the message originated from.
    pub source: String,
}

/// An envelope that could not be read.
#[derive(Clone, Copy, PartialEq, Eq, Structural, Debug)]
pub enum EnvelopeError {
    /// The text is not a JSON object carrying a `headers.source` string.
    Malformed,
}

/// The `headers.source` field of the envelope JSON text, when the text
/// parses as JSON and carries that string field; the result depends on the
/// text alone.
pub uninterp spec fn envelope_source(s: Seq<char>) -> Option<Seq<char>>;

/// Relies on serde_json: `from_str` parses the text as JSON, and
/// `Value::get` / `Value::as_str` select the `headers.source` string field,
/// returning `None` where the key is absent or the value not a string.
#[verifier::external_body]
fn parse_envelope(msg_str: &str) -> (r: Option<IntersectMessage>)
    ensures
        r is Some <==> envelope_source(msg_str@) is Some,
        r matches Some(m) ==> envelope_source(msg_str@) == Some(m.headers.source@),
{
    let v: serde_json::Value = serde_json::from_str(msg_str).ok()?;
    let source = v.get("headers")?.get("source")?.as_str()?;
    Some(IntersectMessage { headers: IntersectMessageHeaders { source: source.to_owned() } })
}

/// Whether `prefix` is an initial segment of `s`.
pub open spec fn starts_with(s: Seq<char>, prefix: Seq<char>) -> bool {
    prefix.len() <= s.len() && s.subrange(0, prefix.len() as int) == prefix
}

/// Whether `prefix` is an initial segment of `s`, character by character.
pub fn has_prefix(s: &str, prefix: &str) -> (r: bool)
    ensures
        r == starts_with(s@, prefix@),
{
    let n = prefix.unicode_len();
    let m = s.unicode_len();
    if n > m {
        return false;
    }
    let mut i: usize = 0;
    while i < n
        invariant
            n == prefix@.len(),
            m == s@.len(),
            n <= m,
            i <= n,
            forall|j: int| 0 <= j < i ==> s@[j] == prefix@[j],
        decreases n - i,
    {
        if s.get_char(i) != prefix.get_char(i) {
            proof {
                assert(s@.subrange(0, n as int)[i as int] == s@[i as int]);
            }
            return false;
        }
        i = i + 1;
    }
    proof {
        assert(s@.subrange(0, n as int) =~= prefix@);
    }
    true
}

/// Whether the envelope text should pass from the broker out to the HTTP
/// stream: it must carry a `headers.source` that starts with this system's
/// prefix.
pub open spec fn passthrough_ok(msg: Seq<char>, this_system: Seq<char>) -> bool {
    envelope_source(msg) matches Some(src) && starts_with(src, this_system)
}

/// Whether this parsed envelope originates from `this_system`.
pub fn source_matches_system(msg: &IntersectMessage, this_system: &str) -> (r: bool)
    ensures
        r == starts_with(msg.headers.source@, this_system@),
{
    has_prefix(msg.headers.source.as_str(), this_system)
}

/// Decide whether an envelope read from the broker may pass out over SSE.
/// `Err` means the text does not parse as an INTERSECT envelope, so it must
/// not be sent through; `Ok` carries whether the declared source starts
/// with `this_system`.
pub fn should_message_passthrough(msg_str: &str, this_system: &str) -> (r: Result<
    bool,
    EnvelopeError,
>)
    ensures
        r is Ok <==> envelope_source(msg_str@) is Some,
        r matches Ok(b) ==> b == passthrough_ok(msg_str@, this_system@),
        r matches Err(e) ==> e == EnvelopeError::Malformed,
{
    match parse_envelope(msg_str) {
        Some(m) => Ok(source_matches_system(&m, this_system)),
        None => Err(EnvelopeError::Malformed),
    }
}

} // verus!

