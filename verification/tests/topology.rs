use service2::topology::{step_at, Channel, ExchangeKind, Step, PLAN_LEN, SERVICE_NAME};

#[test]
fn plan_has_eight_steps() {
    assert_eq!(PLAN_LEN, 8);
    for index in 0..PLAN_LEN {
        assert!(step_at(index).is_some());
    }
    assert_eq!(step_at(PLAN_LEN), None);
    assert_eq!(step_at(usize::MAX), None);
}

#[test]
fn log_topic_is_declared_first() {
    assert_eq!(step_at(0), Some(Step::OpenChannel { channel: Channel::Log }));
    assert_eq!(
        step_at(1),
        Some(Step::DeclareExchange {
            channel: Channel::Log,
            exchange: "log",
            kind: ExchangeKind::Topic,
            durable: true,
        })
    );
    assert_eq!(
        step_at(2),
        Some(Step::DeclareQueue { channel: Channel::Log, queue: "log", durable: false })
    );
}

#[test]
fn message_topic_is_declared_bound_and_consumed() {
    assert_eq!(step_at(3), Some(Step::OpenChannel { channel: Channel::Message }));
    assert_eq!(
        step_at(4),
        Some(Step::DeclareExchange {
            channel: Channel::Message,
            exchange: "message",
            kind: ExchangeKind::Topic,
            durable: true,
        })
    );
    assert_eq!(
        step_at(5),
        Some(Step::DeclareQueue { channel: Channel::Message, queue: "message", durable: false })
    );
    assert_eq!(
        step_at(6),
        Some(Step::BindQueue {
            channel: Channel::Message,
            queue: "message",
            exchange: "message",
            routing_key: "#",
        })
    );
    assert_eq!(
        step_at(7),
        Some(Step::Consume {
            channel: Channel::Message,
            queue: "message",
            consumer_tag: "service2",
            no_ack: true,
        })
    );
    assert_eq!(SERVICE_NAME, "service2");
}

#[test]
fn exactly_two_channels_are_opened() {
    let mut opened = Vec::new();
    for index in 0..PLAN_LEN {
        if let Some(Step::OpenChannel { channel }) = step_at(index) {
            opened.push(channel);
        }
    }
    assert_eq!(opened, vec![Channel::Log, Channel::Message]);
}

#[test]
fn log_queue_is_neither_bound_nor_consumed() {
    for index in 0..PLAN_LEN {
        match step_at(index) {
            Some(Step::BindQueue { queue, .. }) => assert_ne!(queue, "log"),
            Some(Step::Consume { queue, .. }) => assert_ne!(queue, "log"),
            _ => {},
        }
    }
}

#[test]
fn each_request_uses_a_channel_opened_before_it() {
    let mut opened = Vec::new();
    for index in 0..PLAN_LEN {
        match step_at(index) {
            Some(Step::OpenChannel { channel }) => opened.push(channel),
            Some(Step::DeclareExchange { channel, .. })
            | Some(Step::DeclareQueue { channel, .. })
            | Some(Step::BindQueue { channel, .. })
            | Some(Step::Consume { channel, .. }) => assert!(opened.contains(&channel)),
            None => panic!("the plan ended early"),
        }
    }
}
