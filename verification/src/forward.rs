//! The forwarding loop: every delivery from the message queue is republished,
//! tagged, to the log exchange, one at a time and in the order received.
//!
//! Forwarding is best effort and at most once. The queue is consumed without
//! acknowledgements, so a delivery that was handed over and not yet published
//! when the process dies is lost; and a publish that fails is not retried.

use crate::entry::{
    log_publish, lossy_text, message_entry, message_line, message_line_bytes, publish_is_fatal,
    Publish, PublishOutcome, PublishView, FORWARD_ROUTING_KEY, LOG_EXCHANGE,
};
use vstd::prelude::*;
use vstd::utf8::*;

verus! {

/// What the consumer hands over when asked for the next delivery.
#[derive(Debug, PartialEq, Eq)]
pub enum Incoming {
    /// A delivery: the routing key it was published with, and its payload.
    Delivery { routing_key: String, payload: Vec<u8> },
    /// The consumer reported an error.
    Failed,
    /// The consumer has ended.
    Closed,
}

impl Incoming {
    /// The payload, if this is a delivery.
    pub open spec fn payload(self) -> Option<Seq<u8>> {
        match self {
            Incoming::Delivery { payload, .. } => Some(payload@),
            _ => None,
        }
    }
}

/// What the loop does with what it was handed.
pub enum Forward {
    /// Publish this, wait for the outcome, then ask for the next delivery.
    Publish(Publish),
    /// Leave the loop. Nothing restarts it.
    Stop,
}

/// The publish that forwards a delivery with the given payload.
pub open spec fn forward_publish(payload: Seq<u8>) -> PublishView {
    log_publish(FORWARD_ROUTING_KEY@, message_line(lossy_text(payload)))
}

/// `publish` forwards a delivery with the given payload: it is the publish
/// that [`forward_publish`] names, and where the payload is well-formed UTF-8
/// its line is the payload's text followed by the tag.
pub open spec fn forwards(publish: PublishView, payload: Seq<u8>) -> bool {
    &&& publish == forward_publish(payload)
    &&& valid_utf8(payload) ==> publish.line == message_line(decode_utf8(payload))
}

/// Forwards one payload. Every payload is forwarded, whatever its bytes.
pub fn forward(payload: &[u8]) -> (publish: Publish)
    ensures
        forwards(publish@, payload@),
{
    Publish {
        exchange: LOG_EXCHANGE,
        routing_key: FORWARD_ROUTING_KEY,
        line: message_entry(payload),
    }
}

/// A payload that is text is forwarded as it is: where the payload is the
/// UTF-8 encoding of `text`, the line is `text` followed by a space and `MSG`,
/// sent to the log exchange under the one-character routing key `#`.
pub proof fn text_payload_is_forwarded_unchanged(publish: PublishView, text: Seq<char>)
    requires
        forwards(publish, encode_utf8(text)),
    ensures
        publish.line == text + seq![' ', 'M', 'S', 'G'],
        publish.routing_key == seq!['#'],
        publish.exchange == LOG_EXCHANGE@,
{
    encode_utf8_valid_utf8(text);
    encode_utf8_decode_utf8(text);
    reveal_strlit("#");
}

/// A payload that is text goes out byte for byte: the bytes published are
/// the payload itself followed by the four bytes of a space and `MSG`.
pub proof fn text_payload_goes_out_byte_for_byte(publish: PublishView, payload: Seq<u8>)
    requires
        forwards(publish, payload),
        valid_utf8(payload),
    ensures
        encode_utf8(publish.line) == payload + seq![0x20u8, 0x4du8, 0x53u8, 0x47u8],
{
    decode_utf8_encode_utf8(payload);
    message_line_bytes(decode_utf8(payload));
}

/// One turn of the loop: a delivery is forwarded, whatever routing key it
/// came with; an error or the end of the consumer ends the loop.
pub fn on_incoming(item: &Incoming) -> (decision: Forward)
    ensures
        match item.payload() {
            Some(payload) => decision matches Forward::Publish(publish) && forwards(
                publish@,
                payload,
            ),
            None => decision is Stop,
        },
{
    match item {
        Incoming::Delivery { payload, .. } => Forward::Publish(forward(payload.as_slice())),
        Incoming::Failed => Forward::Stop,
        Incoming::Closed => Forward::Stop,
    }
}

/// One turn of the loop as it happened: what the consumer handed over, and
/// how the publish ended if one was made.
pub struct Round {
    pub incoming: Option<Seq<u8>>,
    pub outcome: PublishOutcome,
}

/// Every publish the loop issues when it is fed `rounds`, in the order it
/// issues them. The loop takes one round at a time; it ends at the first round
/// without a delivery, and after the first publish that fails.
pub open spec fn forwarded(rounds: Seq<Round>) -> Seq<PublishView>
    decreases rounds.len(),
{
    if rounds.len() == 0 {
        seq![]
    } else {
        match rounds[0].incoming {
            None => seq![],
            Some(payload) => {
                let rest = if publish_is_fatal(rounds[0].outcome) {
                    seq![]
                } else {
                    forwarded(rounds.drop_first())
                };
                seq![forward_publish(payload)] + rest
            },
        }
    }
}

/// Number of rounds the loop takes part in before it ends: rounds up to and
/// including the first failed publish, and before the first round without a
/// delivery.
pub open spec fn rounds_served(rounds: Seq<Round>) -> nat
    decreases rounds.len(),
{
    if rounds.len() == 0 {
        0
    } else if rounds[0].incoming is None {
        0
    } else if publish_is_fatal(rounds[0].outcome) {
        1
    } else {
        1 + rounds_served(rounds.drop_first())
    }
}

/// The loop neither reorders, repeats nor drops: the i-th publish it issues
/// is the forwarding of the i-th delivery, for every delivery it served.
pub proof fn forwarding_keeps_order(rounds: Seq<Round>)
    ensures
        forwarded(rounds).len() == rounds_served(rounds),
        rounds_served(rounds) <= rounds.len(),
        forall|i: int|
            0 <= i < rounds_served(rounds) ==> (#[trigger] rounds[i]).incoming is Some
                && forwarded(rounds)[i] == forward_publish(rounds[i].incoming->0),
    decreases rounds.len(),
{
    if rounds.len() > 0 && rounds[0].incoming is Some && !publish_is_fatal(rounds[0].outcome) {
        let rest = rounds.drop_first();
        forwarding_keeps_order(rest);
        assert forall|i: int| 0 < i < rounds_served(rounds) implies (#[trigger] rounds[i]).incoming
            is Some && forwarded(rounds)[i] == forward_publish(rounds[i].incoming->0) by {
            assert(rounds[i] == rest[i - 1]);
        }
    }
}

/// While deliveries keep coming and publishes keep succeeding, the loop
/// serves every round: each delivery is forwarded exactly once.
pub proof fn forwarding_serves_every_delivery(rounds: Seq<Round>)
    requires
        forall|i: int|
            0 <= i < rounds.len() ==> (#[trigger] rounds[i]).incoming is Some && !publish_is_fatal(
                rounds[i].outcome,
            ),
    ensures
        rounds_served(rounds) == rounds.len(),
    decreases rounds.len(),
{
    if rounds.len() > 0 {
        let rest = rounds.drop_first();
        assert forall|i: int| 0 <= i < rest.len() implies (#[trigger] rest[i]).incoming is Some
            && !publish_is_fatal(rest[i].outcome) by {
            assert(rest[i] == rounds[i + 1]);
        }
        forwarding_serves_every_delivery(rest);
    }
}

} // verus!
