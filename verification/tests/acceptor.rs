use attestation_bridge::acceptor::{Acceptor, AcceptorAction, AcceptorEvent, VSOCK_PORT};

#[test]
fn service_starts_by_binding_the_port() {
    assert_eq!(VSOCK_PORT, 5000);
    assert_eq!(Acceptor::start(), (Acceptor::Unbound, AcceptorAction::Bind { port: 5000 }));
}

#[test]
fn bound_service_accepts() {
    assert_eq!(
        Acceptor::Unbound.step(AcceptorEvent::Bound),
        (Acceptor::Listening, AcceptorAction::Accept)
    );
}

#[test]
fn bind_failure_is_fatal() {
    let (state, action) = Acceptor::Unbound.step(AcceptorEvent::BindFailed);
    assert_eq!((state, action), (Acceptor::Failed, AcceptorAction::Abort));
    for event in [
        AcceptorEvent::Bound,
        AcceptorEvent::BindFailed,
        AcceptorEvent::Accepted,
        AcceptorEvent::AcceptFailed,
        AcceptorEvent::SessionEnded,
    ] {
        assert_eq!(state.step(event), (Acceptor::Failed, AcceptorAction::Ignore));
    }
}

#[test]
fn accept_failure_keeps_listening() {
    assert_eq!(
        Acceptor::Listening.step(AcceptorEvent::AcceptFailed),
        (Acceptor::Listening, AcceptorAction::Accept)
    );
}

#[test]
fn connections_are_served_one_at_a_time() {
    let (state, action) = Acceptor::Listening.step(AcceptorEvent::Accepted);
    assert_eq!((state, action), (Acceptor::Serving, AcceptorAction::Serve));
    assert_eq!(
        state.step(AcceptorEvent::Accepted),
        (Acceptor::Serving, AcceptorAction::Ignore)
    );
    assert_eq!(
        state.step(AcceptorEvent::AcceptFailed),
        (Acceptor::Serving, AcceptorAction::Ignore)
    );
    assert_eq!(
        state.step(AcceptorEvent::SessionEnded),
        (Acceptor::Listening, AcceptorAction::Accept)
    );
}

#[test]
fn service_survives_any_run_of_connection_events() {
    let (mut state, _) = Acceptor::Unbound.step(AcceptorEvent::Bound);
    let events = [
        AcceptorEvent::AcceptFailed,
        AcceptorEvent::Accepted,
        AcceptorEvent::BindFailed,
        AcceptorEvent::SessionEnded,
        AcceptorEvent::AcceptFailed,
        AcceptorEvent::AcceptFailed,
        AcceptorEvent::Accepted,
        AcceptorEvent::SessionEnded,
        AcceptorEvent::SessionEnded,
        AcceptorEvent::Bound,
    ];
    for event in events {
        let (next, action) = state.step(event);
        assert!(next == Acceptor::Listening || next == Acceptor::Serving);
        assert_ne!(action, AcceptorAction::Abort);
        state = next;
    }
    assert_eq!(state, Acceptor::Listening);
}
