use service2::entry::{http_entry, is_fatal, Publish, PublishOutcome};
use service2::ingress::{
    accept, reply_status, request_handler, Rejection, INGRESS_PATH, LISTEN_PORT,
    STATUS_BAD_REQUEST, STATUS_OK,
};

fn published(publish: &Publish) -> (&str, &str, &str) {
    (publish.exchange, publish.routing_key, publish.line.as_str())
}

#[test]
fn post_becomes_one_line_with_empty_routing_key() {
    let publish = request_handler("disk full", "10.0.0.7:51234");
    assert_eq!(published(&publish), ("log", "", "disk full 10.0.0.7:51234"));
}

#[test]
fn post_line_has_no_trailing_newline() {
    let publish = request_handler("disk full", "10.0.0.7:51234");
    assert!(!publish.line.ends_with('\n'));
    assert!(publish.line.ends_with(" 10.0.0.7:51234"));
}

#[test]
fn first_post_after_startup_is_tagged_with_its_sender() {
    let publish = request_handler("hi", "203.0.113.5:4000");
    assert_eq!(publish.line, "hi 203.0.113.5:4000");
    assert_eq!(publish.routing_key, "");
    assert_eq!(publish.exchange, "log");
}

#[test]
fn body_is_published_as_it_came() {
    assert_eq!(http_entry("", "[::1]:80"), " [::1]:80");
    assert_eq!(http_entry("two\nlines ", "h:1"), "two\nlines  h:1");
    assert_eq!(http_entry("gr\u{fc}\u{df}e \u{2713}", "h:1"), "gr\u{fc}\u{df}e \u{2713} h:1");
}

#[test]
fn payload_is_the_line_in_utf8() {
    let publish = request_handler("\u{e9}", "h:1");
    assert_eq!(publish.payload(), &[0xc3, 0xa9, b' ', b'h', b':', b'1'][..]);
    assert_eq!(publish.payload(), publish.line.as_bytes());
}

#[test]
fn raw_text_body_is_accepted() {
    let outcome = accept("hi".as_bytes(), "203.0.113.5:4000");
    assert_eq!(reply_status(&outcome), 200);
    let publish = outcome.expect("text is accepted");
    assert_eq!(published(&publish), ("log", "", "hi 203.0.113.5:4000"));
}

#[test]
fn raw_multibyte_body_is_decoded() {
    let outcome = accept(&[0xe2, 0x9c, 0x93], "h:1");
    let publish = outcome.expect("text is accepted");
    assert_eq!(publish.line, "\u{2713} h:1");
}

#[test]
fn raw_empty_body_is_accepted() {
    let publish = accept(&[], "h:1").expect("the empty body is text");
    assert_eq!(publish.line, " h:1");
}

#[test]
fn body_that_is_not_utf8_is_rejected() {
    let outcome = accept(&[b'o', b'k', 0xff], "h:1");
    assert_eq!(reply_status(&outcome), 400);
    match outcome {
        Err(rejection) => assert_eq!(rejection, Rejection::InvalidUtf8),
        Ok(_) => panic!("a body that is not text was published"),
    }
}

#[test]
fn truncated_and_overlong_sequences_are_rejected() {
    assert!(accept(&[0xe2, 0x9c], "h:1").is_err());
    assert!(accept(&[0xc0, 0xaf], "h:1").is_err());
    assert!(accept(&[0xed, 0xa0, 0x80], "h:1").is_err());
}

#[test]
fn reply_statuses() {
    assert_eq!(STATUS_OK, 200);
    assert_eq!(STATUS_BAD_REQUEST, 400);
    let accepted: Result<Publish, Rejection> = Ok(request_handler("a", "b"));
    assert_eq!(reply_status(&accepted), STATUS_OK);
    let rejected: Result<Publish, Rejection> = Err(Rejection::InvalidUtf8);
    assert_eq!(reply_status(&rejected), STATUS_BAD_REQUEST);
}

#[test]
fn listener_constants() {
    assert_eq!(INGRESS_PATH, "/");
    assert_eq!(LISTEN_PORT, 8000);
}

#[test]
fn any_publish_failure_is_fatal() {
    assert!(!is_fatal(PublishOutcome::Completed));
    assert!(is_fatal(PublishOutcome::SendFailed));
    assert!(is_fatal(PublishOutcome::ConfirmFailed));
}

#[test]
fn accepted_body_goes_out_byte_for_byte() {
    let publish = accept(&[0xf0, 0x9f, 0x98, 0x80, b'\n'], "h:1").expect("text is accepted");
    assert_eq!(
        publish.payload(),
        &[0xf0, 0x9f, 0x98, 0x80, b'\n', 0x20, b'h', b':', b'1'][..]
    );
}
