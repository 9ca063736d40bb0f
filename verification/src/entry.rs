//! Log lines and the publish commands that carry them.

use vstd::prelude::*;
use vstd::string::*;
use vstd::utf8::*;

verus! {

/// Name of the exchange that every log line is published to.
pub const LOG_EXCHANGE: &'static str = "log";

/// Routing key of a line that arrived over HTTP.
pub const HTTP_ROUTING_KEY: &'static str = "";

/// Routing key of a line that was forwarded from the message queue. It is the
/// literal one-character key, not a binding pattern: only a queue bound with
/// exactly this key, or with a pattern that matches it, receives the line.
pub const FORWARD_ROUTING_KEY: &'static str = "#";

/// A command to publish one log line.
pub struct Publish {
    pub exchange: &'static str,
    pub routing_key: &'static str,
    pub line: String,
}

/// What a [`Publish`] says, as plain sequences of characters.
pub struct PublishView {
    pub exchange: Seq<char>,
    pub routing_key: Seq<char>,
    pub line: Seq<char>,
}

impl View for Publish {
    type V = PublishView;

    open spec fn view(&self) -> PublishView {
        PublishView { exchange: self.exchange@, routing_key: self.routing_key@, line: self.line@ }
    }
}

impl Publish {
    /// The bytes that go out: the line in UTF-8.
    pub fn payload(&self) -> (bytes: &[u8])
        ensures
            bytes@ == encode_utf8(self.line@),
    {
        self.line.as_str().as_bytes()
    }
}

/// The publish of `line` to the log exchange under `routing_key`.
pub open spec fn log_publish(routing_key: Seq<char>, line: Seq<char>) -> PublishView {
    PublishView { exchange: LOG_EXCHANGE@, routing_key, line }
}

/// How an attempt to publish ended. A publish has two stages: the command is
/// sent, then the broker's confirmation is awaited.
#[derive(Clone, Copy, Debug, PartialEq, Eq)]
pub enum PublishOutcome {
    Completed,
    SendFailed,
    ConfirmFailed,
}

/// Whether a publish that ended with `outcome` ends the task that issued it.
/// A failure at either stage does: nothing is retried.
pub open spec fn publish_is_fatal(outcome: PublishOutcome) -> bool {
    !(outcome is Completed)
}

/// Decides whether the task that published goes on. See [`publish_is_fatal`].
pub fn is_fatal(outcome: PublishOutcome) -> (fatal: bool)
    ensures
        fatal == publish_is_fatal(outcome),
{
    match outcome {
        PublishOutcome::Completed => false,
        PublishOutcome::SendFailed => true,
        PublishOutcome::ConfirmFailed => true,
    }
}

/// The text that `String::from_utf8_lossy` produces for `bytes`: the decoded
/// text, with each malformed sequence replaced by U+FFFD.
pub uninterp spec fn lossy_text(bytes: Seq<u8>) -> Seq<char>;

/// The line published for an HTTP body received from `remote`.
pub open spec fn http_line(body: Seq<char>, remote: Seq<char>) -> Seq<char> {
    body + seq![' '] + remote
}

/// The line published for a forwarded message whose text is `text`.
pub open spec fn message_line(text: Seq<char>) -> Seq<char> {
    text + seq![' ', 'M', 'S', 'G']
}

/// Calls `String::from_utf8_lossy`. Trusted: the result is the lossy decoding
/// of `bytes`, and for well-formed UTF-8 that is the ordinary decoding, with
/// nothing replaced.
#[verifier::external_body]
fn decode_lossy(bytes: &[u8]) -> (text: String)
    ensures
        text@ == lossy_text(bytes@),
        valid_utf8(bytes@) ==> text@ == decode_utf8(bytes@),
{
    String::from_utf8_lossy(bytes).into_owned()
}

/// Builds the line for an HTTP body: the body, one space, the sender's
/// address, and no trailing newline.
pub fn http_entry(body: &str, remote: &str) -> (line: String)
    ensures
        line@ == http_line(body@, remote@),
{
    let mut line = body.to_owned();
    line.append(" ");
    line.append(remote);
    proof {
        reveal_strlit(" ");
    }
    line
}

/// Builds the line for a forwarded message from its decoded text.
pub fn message_entry_from_text(text: &str) -> (line: String)
    ensures
        line@ == message_line(text@),
{
    let mut line = text.to_owned();
    line.append(" MSG");
    proof {
        reveal_strlit(" MSG");
    }
    line
}

/// Builds the line for a forwarded message from its raw payload. The payload
/// is decoded lossily, so every payload yields a line.
pub fn message_entry(payload: &[u8]) -> (line: String)
    ensures
        line@ == message_line(lossy_text(payload@)),
        valid_utf8(payload@) ==> line@ == message_line(decode_utf8(payload@)),
{
    let text = decode_lossy(payload);
    message_entry_from_text(text.as_str())
}

/// A text is encoded piece by piece: the bytes of two texts joined are the
/// bytes of the first followed by the bytes of the second.
pub proof fn encoding_joins(first: Seq<char>, second: Seq<char>)
    ensures
        encode_utf8(first + second) == encode_utf8(first) + encode_utf8(second),
    decreases first.len(),
{
    if first.len() == 0 {
        assert(first + second =~= second);
    } else {
        assert((first + second).drop_first() =~= first.drop_first() + second);
        encoding_joins(first.drop_first(), second);
    }
}

/// What goes out for an HTTP body is the body's own bytes, the byte of a
/// space, and the bytes of the sender's address.
pub proof fn http_line_bytes(body: Seq<char>, remote: Seq<char>)
    ensures
        encode_utf8(http_line(body, remote)) == encode_utf8(body) + seq![0x20u8] + encode_utf8(
            remote,
        ),
{
    let space = seq![' '];
    encoding_joins(body + space, remote);
    encoding_joins(body, space);
    is_ascii_chars_encode_utf8(space);
    assert(encode_utf8(space) =~= seq![0x20u8]);
}

/// What goes out for a forwarded message is the bytes of its text followed
/// by the four bytes of a space and `MSG`.
pub proof fn message_line_bytes(text: Seq<char>)
    ensures
        encode_utf8(message_line(text)) == encode_utf8(text) + seq![0x20u8, 0x4du8, 0x53u8, 0x47u8],
{
    let tag = seq![' ', 'M', 'S', 'G'];
    encoding_joins(text, tag);
    is_ascii_chars_encode_utf8(tag);
    assert(encode_utf8(tag) =~= seq![0x20u8, 0x4du8, 0x53u8, 0x47u8]);
}

} // verus!
