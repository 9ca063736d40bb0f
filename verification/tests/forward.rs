use service2::entry::{message_entry, message_entry_from_text, FORWARD_ROUTING_KEY, LOG_EXCHANGE};
use service2::forward::{forward, on_incoming, Forward, Incoming};

fn delivery(routing_key: &str, payload: &[u8]) -> Incoming {
    Incoming::Delivery { routing_key: routing_key.to_string(), payload: payload.to_vec() }
}

fn line_of(decision: Forward) -> String {
    match decision {
        Forward::Publish(publish) => publish.line,
        Forward::Stop => panic!("the loop stopped on a delivery"),
    }
}

#[test]
fn ping_is_forwarded_with_the_literal_hash_key() {
    match on_incoming(&delivery("x.y", "ping".as_bytes())) {
        Forward::Publish(publish) => {
            assert_eq!(publish.exchange, "log");
            assert_eq!(publish.routing_key, "#");
            assert_eq!(publish.line, "ping MSG");
            assert_eq!(publish.payload(), "ping MSG".as_bytes());
        },
        Forward::Stop => panic!("the loop stopped on a delivery"),
    }
}

#[test]
fn forward_names_exchange_and_key() {
    let publish = forward(&[b'a']);
    assert_eq!(publish.exchange, LOG_EXCHANGE);
    assert_eq!(publish.routing_key, FORWARD_ROUTING_KEY);
    assert_eq!(LOG_EXCHANGE, "log");
    assert_eq!(FORWARD_ROUTING_KEY, "#");
    assert_eq!(publish.line, "a MSG");
}

#[test]
fn malformed_payload_is_decoded_lossily() {
    assert_eq!(forward(&[b'f', 0xff, b'o']).line, "f\u{fffd}o MSG");
    assert_eq!(message_entry(&[0xe2, 0x9c]), "\u{fffd} MSG");
    assert_eq!(message_entry(&[0xc0, 0xaf]), "\u{fffd}\u{fffd} MSG");
}

#[test]
fn well_formed_payload_is_decoded_as_it_is() {
    assert_eq!(message_entry(&[0xe2, 0x9c, 0x93]), "\u{2713} MSG");
    assert_eq!(message_entry("caf\u{e9}".as_bytes()), "caf\u{e9} MSG");
}

#[test]
fn empty_payload_is_forwarded() {
    assert_eq!(line_of(on_incoming(&delivery("", &[]))), " MSG");
}

#[test]
fn entry_from_text_appends_the_tag() {
    assert_eq!(message_entry_from_text("x"), "x MSG");
    assert_eq!(message_entry_from_text(""), " MSG");
    assert_eq!(message_entry_from_text("a MSG"), "a MSG MSG");
}

#[test]
fn deliveries_are_forwarded_in_the_order_received() {
    let received = vec![
        delivery("a", b"first"),
        delivery("b.c", b"second"),
        delivery("a", b"first"),
        delivery("#", b"third"),
    ];
    let mut lines = Vec::new();
    for item in &received {
        lines.push(line_of(on_incoming(item)));
    }
    assert_eq!(lines, vec!["first MSG", "second MSG", "first MSG", "third MSG"]);
}

#[test]
fn routing_key_of_a_delivery_does_not_matter() {
    for key in ["", "x.y", "#", "log", "a.b.c.d"] {
        match on_incoming(&delivery(key, b"ping")) {
            Forward::Publish(publish) => {
                assert_eq!(publish.line, "ping MSG");
                assert_eq!(publish.routing_key, "#");
                assert_eq!(publish.exchange, "log");
            },
            Forward::Stop => panic!("the loop stopped on a delivery"),
        }
    }
}

#[test]
fn loop_stops_when_the_consumer_fails_or_ends() {
    assert!(matches!(on_incoming(&Incoming::Failed), Forward::Stop));
    assert!(matches!(on_incoming(&Incoming::Closed), Forward::Stop));
}

#[test]
fn loop_publishes_nothing_after_the_consumer_ended() {
    let received = vec![delivery("k", b"one"), Incoming::Closed, delivery("k", b"two")];
    let mut lines = Vec::new();
    for item in &received {
        match on_incoming(item) {
            Forward::Publish(publish) => lines.push(publish.line),
            Forward::Stop => break,
        }
    }
    assert_eq!(lines, vec!["one MSG"]);
}

#[test]
fn text_payload_goes_out_byte_for_byte() {
    let publish = forward(&[0xe2, 0x9c, 0x93, b'!']);
    assert_eq!(publish.payload(), &[0xe2, 0x9c, 0x93, b'!', 0x20, 0x4d, 0x53, 0x47][..]);
}
