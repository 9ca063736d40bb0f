//! Decision logic of a small logging relay.
//!
//! The relay accepts log entries over HTTP and from a message broker and
//! republishes each of them, tagged with where it came from, to one durable
//! `log` topic. This crate holds everything the relay decides: which byte
//! payload is published under which routing key, which broker objects are
//! declared and in which order, how startup reacts to a failed attempt, and
//! how a termination signal leads to a clean exit. The code that owns the
//! sockets carries those decisions out and reports back what happened.

pub mod entry;
pub mod forward;
pub mod ingress;
pub mod registry;
pub mod shutdown;
pub mod startup;
pub mod topology;
