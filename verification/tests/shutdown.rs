use service2::shutdown::{
    action, on_event, ServerAction, ServerEvent, ServerPhase, Signal, EXIT_SUCCESS,
};

#[test]
fn listener_serves_until_told_otherwise() {
    assert_eq!(action(ServerPhase::Serving), ServerAction::Accept);
}

#[test]
fn either_signal_starts_the_drain() {
    for signal in [Signal::Interrupt, Signal::Terminate] {
        let phase = on_event(ServerPhase::Serving, ServerEvent::Signal(signal));
        assert_eq!(phase, ServerPhase::Draining);
        assert_eq!(action(phase), ServerAction::Drain);
    }
}

#[test]
fn termination_signal_leads_to_a_clean_exit() {
    let phase = on_event(ServerPhase::Serving, ServerEvent::Signal(Signal::Terminate));
    assert_eq!(action(phase), ServerAction::Drain);
    let phase = on_event(phase, ServerEvent::Finished);
    assert_eq!(phase, ServerPhase::Exited);
    assert_eq!(action(phase), ServerAction::Exit { code: 0 });
    assert_eq!(EXIT_SUCCESS, 0);
}

#[test]
fn further_signals_do_not_cut_the_drain_short() {
    let mut phase = on_event(ServerPhase::Serving, ServerEvent::Signal(Signal::Interrupt));
    for signal in [Signal::Interrupt, Signal::Terminate, Signal::Interrupt] {
        phase = on_event(phase, ServerEvent::Signal(signal));
        assert_eq!(phase, ServerPhase::Draining);
    }
    assert_eq!(on_event(phase, ServerEvent::Finished), ServerPhase::Exited);
}

#[test]
fn serving_loop_that_returns_by_itself_exits_cleanly() {
    let phase = on_event(ServerPhase::Serving, ServerEvent::Finished);
    assert_eq!(action(phase), ServerAction::Exit { code: 0 });
}

#[test]
fn serving_loop_that_breaks_down_is_fatal() {
    for phase in [ServerPhase::Serving, ServerPhase::Draining] {
        let phase = on_event(phase, ServerEvent::Failed);
        assert_eq!(phase, ServerPhase::Crashed);
        assert_eq!(action(phase), ServerAction::Abort);
    }
}

#[test]
fn final_phases_stay() {
    for event in [
        ServerEvent::Signal(Signal::Interrupt),
        ServerEvent::Signal(Signal::Terminate),
        ServerEvent::Finished,
        ServerEvent::Failed,
    ] {
        assert_eq!(on_event(ServerPhase::Exited, event), ServerPhase::Exited);
        assert_eq!(on_event(ServerPhase::Crashed, event), ServerPhase::Crashed);
    }
}
