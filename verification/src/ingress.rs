//! The HTTP side: what a `POST /` turns into.

use crate::entry::{
    http_entry, http_line, http_line_bytes, log_publish, Publish, PublishView, HTTP_ROUTING_KEY,
    LOG_EXCHANGE,
};
use vstd::prelude::*;
use vstd::utf8::*;

verus! {

/// The one path that is served, for `POST` only.
pub const INGRESS_PATH: &'static str = "/";

/// The TCP port the listener binds, on every interface.
pub const LISTEN_PORT: u16 = 8000;

/// Status of the reply to a request whose body was published.
pub const STATUS_OK: u16 = 200;

/// Status of the reply to a request whose body is not UTF-8 text.
pub const STATUS_BAD_REQUEST: u16 = 400;

/// Why a request was turned away without publishing anything.
#[derive(Clone, Copy, Debug, PartialEq, Eq)]
pub enum Rejection {
    /// The body is not well-formed UTF-8.
    InvalidUtf8,
}

/// Calls `std::str::from_utf8`. Trusted: it succeeds exactly on well-formed
/// UTF-8, and the text it gives is the decoding of those bytes.
#[verifier::external_body]
fn text_of(raw: &[u8]) -> (text: Option<&str>)
    ensures
        text is Some <==> valid_utf8(raw@),
        text is Some ==> text->0@ == decode_utf8(raw@),
{
    std::str::from_utf8(raw).ok()
}

/// Handles one request whose body is already text: the body, tagged with the
/// sender's address, goes to the log exchange under the empty routing key.
/// Nothing about the body is checked.
pub fn request_handler(body: &str, remote: &str) -> (publish: Publish)
    ensures
        publish@ == log_publish(HTTP_ROUTING_KEY@, http_line(body@, remote@)),
{
    Publish { exchange: LOG_EXCHANGE, routing_key: HTTP_ROUTING_KEY, line: http_entry(body, remote) }
}

/// What becomes of a request with the raw body `raw` from `remote`: a body
/// that is well-formed UTF-8 is published, decoded and tagged with the sender's
/// address, under the empty routing key; any other body is rejected.
pub open spec fn accepted(raw: Seq<u8>, remote: Seq<char>) -> Result<PublishView, Rejection> {
    if valid_utf8(raw) {
        Ok(log_publish(HTTP_ROUTING_KEY@, http_line(decode_utf8(raw), remote)))
    } else {
        Err(Rejection::InvalidUtf8)
    }
}

/// Handles one request from its raw body, as [`accepted`] says. Where the
/// body is rejected nothing is published.
pub fn accept(raw: &[u8], remote: &str) -> (outcome: Result<Publish, Rejection>)
    ensures
        match accepted(raw@, remote@) {
            Ok(expected) => outcome matches Ok(publish) && publish@ == expected,
            Err(rejection) => outcome matches Err(given) && given == rejection,
        },
{
    match text_of(raw) {
        Some(body) => Ok(request_handler(body, remote)),
        None => Err(Rejection::InvalidUtf8),
    }
}

/// The status code of the reply to a request with the given outcome.
pub fn reply_status(outcome: &Result<Publish, Rejection>) -> (status: u16)
    ensures
        status == if outcome is Ok { STATUS_OK } else { STATUS_BAD_REQUEST },
{
    match outcome {
        Ok(_) => STATUS_OK,
        Err(_) => STATUS_BAD_REQUEST,
    }
}

/// Every text is published, whatever it holds: a request whose body is the
/// UTF-8 encoding of `body` yields the one line made of `body`, a space and
/// the sender's address, under the empty routing key.
pub proof fn every_text_body_is_published(body: Seq<char>, remote: Seq<char>)
    ensures
        accepted(encode_utf8(body), remote) == Ok::<PublishView, Rejection>(
            log_publish(Seq::<char>::empty(), body + seq![' '] + remote),
        ),
{
    encode_utf8_valid_utf8(body);
    encode_utf8_decode_utf8(body);
    reveal_strlit("");
    assert(HTTP_ROUTING_KEY@ =~= Seq::<char>::empty());
}

/// An accepted body goes out byte for byte: the bytes published are the body
/// as it came, the byte of a space, and the bytes of the sender's address.
pub proof fn accepted_body_goes_out_byte_for_byte(raw: Seq<u8>, remote: Seq<char>)
    requires
        valid_utf8(raw),
    ensures
        accepted(raw, remote) is Ok,
        encode_utf8(accepted(raw, remote)->Ok_0.line) == raw + seq![0x20u8] + encode_utf8(remote),
{
    decode_utf8_encode_utf8(raw);
    http_line_bytes(decode_utf8(raw), remote);
}

} // verus!
