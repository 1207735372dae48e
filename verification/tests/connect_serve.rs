use tonic_h3::connect::{resolve_plan, AddressAttempts, AttemptOutcome, AttemptStep, ResolvePlan};
use tonic_h3::serve::{
    connection_action, serve_action, AcceptAction, AcceptEvent, AcceptSources, ConnectionAction,
    ConnectionEvent, HandshakeTracker, ServeAction, ServeEvent,
};

#[test]
fn resolve_plans() {
    assert_eq!(resolve_plan(false, false), ResolvePlan::Reject);
    assert_eq!(resolve_plan(true, true), ResolvePlan::UseAddress);
    assert_eq!(resolve_plan(true, false), ResolvePlan::Lookup);
}

#[test]
fn last_failure_is_reported() {
    let mut a: AddressAttempts<&str> = AddressAttempts::new();
    assert!(matches!(a.on_outcome(AttemptOutcome::Failed("first")), AttemptStep::NextAddress));
    assert!(matches!(a.on_outcome(AttemptOutcome::Failed("second")), AttemptStep::NextAddress));
    assert_eq!(a.exhausted(), Some("second"));
}

#[test]
fn no_address_reports_nothing_tried() {
    let a: AddressAttempts<&str> = AddressAttempts::new();
    assert_eq!(a.exhausted(), None);
}

#[test]
fn failover_to_a_healthy_address() {
    let mut a: AddressAttempts<&str> = AddressAttempts::new();
    assert!(matches!(a.on_outcome(AttemptOutcome::Failed("refused")), AttemptStep::NextAddress));
    assert!(matches!(a.on_outcome(AttemptOutcome::Connected), AttemptStep::ReturnConnected));
}

#[test]
fn failed_handshake_moves_on_to_the_next_address() {
    let mut a: AddressAttempts<&str> = AddressAttempts::new();
    assert_eq!(a.on_outcome(AttemptOutcome::Failed("handshake timed out")), AttemptStep::NextAddress);
    assert_eq!(a.on_outcome(AttemptOutcome::Connected), AttemptStep::ReturnConnected);
}

#[test]
fn acceptor_waits_for_handshakes_only_when_some_are_pending() {
    let mut t = HandshakeTracker::new();
    assert_eq!(t.sources(), AcceptSources::IncomingOnly);
    assert_eq!(t.on_event(AcceptEvent::Incoming), AcceptAction::SpawnHandshake);
    assert_eq!(t.sources(), AcceptSources::IncomingAndHandshakes);
    assert_eq!(t.on_event(AcceptEvent::Incoming), AcceptAction::SpawnHandshake);
    assert_eq!(t.on_event(AcceptEvent::HandshakeFailed), AcceptAction::KeepAccepting);
    assert_eq!(t.sources(), AcceptSources::IncomingAndHandshakes);
    assert_eq!(t.on_event(AcceptEvent::HandshakeDone), AcceptAction::ReturnConnection);
    assert_eq!(t.sources(), AcceptSources::IncomingOnly);
    assert_eq!(t.on_event(AcceptEvent::EndpointClosed), AcceptAction::ReturnNone);
}

#[test]
fn serve_loop_actions() {
    assert_eq!(serve_action(ServeEvent::Accepted), ServeAction::ServeConnection);
    assert_eq!(serve_action(ServeEvent::AcceptorEnded), ServeAction::Stop);
    assert_eq!(serve_action(ServeEvent::Shutdown), ServeAction::Stop);
    assert_eq!(serve_action(ServeEvent::AcceptFailed), ServeAction::Fail);
    assert_eq!(connection_action(ConnectionEvent::Request), ConnectionAction::ServeRequest);
    assert_eq!(connection_action(ConnectionEvent::Ended), ConnectionAction::StopQuietly);
    assert_eq!(
        connection_action(ConnectionEvent::Failed { benign: true }),
        ConnectionAction::StopQuietly
    );
    assert_eq!(
        connection_action(ConnectionEvent::Failed { benign: false }),
        ConnectionAction::StopWithWarning
    );
}
