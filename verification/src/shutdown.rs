//! Shutdown: a termination signal, raced against the serving loop, drains the
//! HTTP listener, and the process then exits with success.
//!
//! Only the listener is drained. The forwarding loop is neither joined nor
//! cancelled: it ends when the process does.

use vstd::prelude::*;

verus! {

/// Exit code of a clean shutdown.
pub const EXIT_SUCCESS: i32 = 0;

/// The signals that ask the service to stop.
#[derive(Clone, Copy, Debug, PartialEq, Eq)]
pub enum Signal {
    /// The interactive interrupt.
    Interrupt,
    /// The request to terminate.
    Terminate,
}

/// What can happen while the listener runs.
#[derive(Clone, Copy, Debug, PartialEq, Eq)]
pub enum ServerEvent {
    /// A signal arrived.
    Signal(Signal),
    /// The serving loop returned: no connection is open any more.
    Finished,
    /// The serving loop could not start, or broke down.
    Failed,
}

/// Where the listener stands.
#[derive(Clone, Copy, Debug, PartialEq, Eq)]
pub enum ServerPhase {
    Serving,
    Draining,
    Exited,
    Crashed,
}

/// What is due in a phase.
#[derive(Clone, Copy, Debug, PartialEq, Eq)]
pub enum ServerAction {
    /// Accept connections and handle requests.
    Accept,
    /// Accept no new connection; let the requests in flight complete.
    Drain,
    /// Leave the process with this exit code.
    Exit { code: i32 },
    /// End the process with a failure.
    Abort,
}

/// The phase that follows `phase` on `event`. Whichever signal comes first
/// starts the drain; signals during the drain change nothing; the process
/// exits only when the serving loop has returned.
pub open spec fn after(phase: ServerPhase, event: ServerEvent) -> ServerPhase {
    match phase {
        ServerPhase::Serving => match event {
            ServerEvent::Signal(_) => ServerPhase::Draining,
            ServerEvent::Finished => ServerPhase::Exited,
            ServerEvent::Failed => ServerPhase::Crashed,
        },
        ServerPhase::Draining => match event {
            ServerEvent::Signal(_) => ServerPhase::Draining,
            ServerEvent::Finished => ServerPhase::Exited,
            ServerEvent::Failed => ServerPhase::Crashed,
        },
        ServerPhase::Exited => ServerPhase::Exited,
        ServerPhase::Crashed => ServerPhase::Crashed,
    }
}

/// The action that is due in `phase`.
pub open spec fn duty(phase: ServerPhase) -> ServerAction {
    match phase {
        ServerPhase::Serving => ServerAction::Accept,
        ServerPhase::Draining => ServerAction::Drain,
        ServerPhase::Exited => ServerAction::Exit { code: EXIT_SUCCESS },
        ServerPhase::Crashed => ServerAction::Abort,
    }
}

/// The phase reached from `phase` after `events`, one after the other.
pub open spec fn after_all(phase: ServerPhase, events: Seq<ServerEvent>) -> ServerPhase
    decreases events.len(),
{
    if events.len() == 0 {
        phase
    } else {
        after_all(after(phase, events[0]), events.drop_first())
    }
}

/// Takes in an event.
pub fn on_event(phase: ServerPhase, event: ServerEvent) -> (next: ServerPhase)
    ensures
        next == after(phase, event),
{
    match phase {
        ServerPhase::Serving | ServerPhase::Draining => match event {
            ServerEvent::Signal(_) => ServerPhase::Draining,
            ServerEvent::Finished => ServerPhase::Exited,
            ServerEvent::Failed => ServerPhase::Crashed,
        },
        ServerPhase::Exited => ServerPhase::Exited,
        ServerPhase::Crashed => ServerPhase::Crashed,
    }
}

/// The action that is due.
pub fn action(phase: ServerPhase) -> (action: ServerAction)
    ensures
        action == duty(phase),
{
    match phase {
        ServerPhase::Serving => ServerAction::Accept,
        ServerPhase::Draining => ServerAction::Drain,
        ServerPhase::Exited => ServerAction::Exit { code: EXIT_SUCCESS },
        ServerPhase::Crashed => ServerAction::Abort,
    }
}

/// The events "this signal arrived", for each signal of `signals` in turn.
pub open spec fn arrivals(signals: Seq<Signal>) -> Seq<ServerEvent> {
    Seq::new(signals.len(), |i: int| ServerEvent::Signal(signals[i]))
}

/// A termination signal leads to a clean exit. Either signal, arriving while
/// the listener serves, starts the drain: no new connection is accepted and
/// the requests in flight complete. However many signals follow, the drain
/// goes on until the serving loop has returned; then the process exits with
/// success.
pub proof fn signal_drains_then_exits(first: Signal, more: Seq<Signal>)
    ensures
        after(ServerPhase::Serving, ServerEvent::Signal(first)) == ServerPhase::Draining,
        duty(ServerPhase::Draining) == ServerAction::Drain,
        after_all(ServerPhase::Draining, arrivals(more)) == ServerPhase::Draining,
        after(ServerPhase::Draining, ServerEvent::Finished) == ServerPhase::Exited,
        duty(ServerPhase::Exited) == (ServerAction::Exit { code: EXIT_SUCCESS }),
        EXIT_SUCCESS == 0,
    decreases more.len(),
{
    if more.len() > 0 {
        assert(arrivals(more).drop_first() =~= arrivals(more.drop_first()));
        signal_drains_then_exits(first, more.drop_first());
    }
}

} // verus!
