//! The broker objects the relay declares at startup, and the order in which it
//! declares them.

use vstd::prelude::*;

verus! {

/// Name of the connection as the broker sees it, and tag of the one consumer.
pub const SERVICE_NAME: &'static str = "service2";

/// The two channels opened on the one broker connection. Each has a single
/// task as its owner: the log channel publishes, the message channel consumes.
#[derive(Clone, Copy, Debug, PartialEq, Eq)]
pub enum Channel {
    Log,
    Message,
}

/// How an exchange routes what is published to it.
#[derive(Clone, Copy, Debug, PartialEq, Eq, Structural)]
pub enum ExchangeKind {
    Direct,
    Fanout,
    Headers,
    Topic,
}

/// One request to the broker during startup.
#[derive(Clone, Copy, Debug, PartialEq, Eq)]
pub enum Step {
    OpenChannel { channel: Channel },
    DeclareExchange { channel: Channel, exchange: &'static str, kind: ExchangeKind, durable: bool },
    DeclareQueue { channel: Channel, queue: &'static str, durable: bool },
    BindQueue {
        channel: Channel,
        queue: &'static str,
        exchange: &'static str,
        routing_key: &'static str,
    },
    Consume { channel: Channel, queue: &'static str, consumer_tag: &'static str, no_ack: bool },
}

/// The startup plan. The log topic is a publish target only, so its queue is
/// declared and left unbound; the message queue is bound with the catch-all
/// pattern and then consumed without acknowledgements.
pub open spec fn plan() -> Seq<Step> {
    seq![
        Step::OpenChannel { channel: Channel::Log },
        Step::DeclareExchange {
            channel: Channel::Log,
            exchange: "log",
            kind: ExchangeKind::Topic,
            durable: true,
        },
        Step::DeclareQueue { channel: Channel::Log, queue: "log", durable: false },
        Step::OpenChannel { channel: Channel::Message },
        Step::DeclareExchange {
            channel: Channel::Message,
            exchange: "message",
            kind: ExchangeKind::Topic,
            durable: true,
        },
        Step::DeclareQueue { channel: Channel::Message, queue: "message", durable: false },
        Step::BindQueue {
            channel: Channel::Message,
            queue: "message",
            exchange: "message",
            routing_key: "#",
        },
        Step::Consume {
            channel: Channel::Message,
            queue: "message",
            consumer_tag: "service2",
            no_ack: true,
        },
    ]
}

/// The channel a step goes over: for the opening of a channel, that channel.
pub open spec fn channel_of(step: Step) -> Channel {
    match step {
        Step::OpenChannel { channel } => channel,
        Step::DeclareExchange { channel, .. } => channel,
        Step::DeclareQueue { channel, .. } => channel,
        Step::BindQueue { channel, .. } => channel,
        Step::Consume { channel, .. } => channel,
    }
}

/// The shape of the plan. Exactly two channels are opened, one for each
/// topic, and every other request goes over a channel that was opened before
/// it. Nothing but declarations goes over the log channel: the log queue is
/// never bound and never consumed.
pub proof fn plan_shape()
    ensures
        plan().len() == PLAN_LEN,
        forall|i: int|
            0 <= i < plan().len() ==> ((#[trigger] plan()[i]) is OpenChannel <==> i == 0 || i
                == 3),
        plan()[0] == (Step::OpenChannel { channel: Channel::Log }),
        plan()[3] == (Step::OpenChannel { channel: Channel::Message }),
        forall|i: int|
            0 <= i < plan().len() ==> (channel_of(#[trigger] plan()[i]) == Channel::Log <==> i
                < 3),
        forall|i: int|
            0 <= i < plan().len() && channel_of(#[trigger] plan()[i]) == Channel::Log ==> !(
            plan()[i] is BindQueue) && !(plan()[i] is Consume),
{
}

/// Number of steps in the startup plan.
pub const PLAN_LEN: usize = 8;

/// The step at `index` of the startup plan, or `None` past its end.
pub fn step_at(index: usize) -> (step: Option<Step>)
    ensures
        step == if index < plan().len() {
            Some(plan()[index as int])
        } else {
            None
        },
{
    match index {
        0 => Some(Step::OpenChannel { channel: Channel::Log }),
        1 => Some(
            Step::DeclareExchange {
                channel: Channel::Log,
                exchange: "log",
                kind: ExchangeKind::Topic,
                durable: true,
            },
        ),
        2 => Some(Step::DeclareQueue { channel: Channel::Log, queue: "log", durable: false }),
        3 => Some(Step::OpenChannel { channel: Channel::Message }),
        4 => Some(
            Step::DeclareExchange {
                channel: Channel::Message,
                exchange: "message",
                kind: ExchangeKind::Topic,
                durable: true,
            },
        ),
        5 => Some(
            Step::DeclareQueue { channel: Channel::Message, queue: "message", durable: false },
        ),
        6 => Some(
            Step::BindQueue {
                channel: Channel::Message,
                queue: "message",
                exchange: "message",
                routing_key: "#",
            },
        ),
        7 => Some(
            Step::Consume {
                channel: Channel::Message,
                queue: "message",
                consumer_tag: SERVICE_NAME,
                no_ack: true,
            },
        ),
        _ => None,
    }
}

} // verus!
