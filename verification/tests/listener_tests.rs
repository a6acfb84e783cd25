use ezsyslog::listener::{
    listener_step, ListenerAction, ListenerEvent, ListenerState, ShutdownCoordinator,
};
use ezsyslog::mutation::build_mutation;

#[test]
fn shutdown_stops_intake_then_exits() {
    let (state, action) = listener_step(ListenerState::Running, ListenerEvent::Shutdown, 0);
    assert_eq!(state, ListenerState::Draining);
    assert_eq!(action, ListenerAction::Await);
    let (state, action) = listener_step(state, ListenerEvent::Shutdown, 0);
    assert_eq!(state, ListenerState::Stopped);
    assert_eq!(action, ListenerAction::Exit);
    let (state, action) = listener_step(state, ListenerEvent::StoreOk(1), 0);
    assert_eq!(state, ListenerState::Stopped);
    assert_eq!(action, ListenerAction::Exit);
}

#[test]
fn datagram_becomes_mutation() {
    let payload = b"<13>hello there".to_vec();
    let (state, action) = listener_step(
        ListenerState::Running,
        ListenerEvent::Datagram(payload, "10.1.2.3".to_string()),
        77,
    );
    assert_eq!(state, ListenerState::Running);
    match action {
        ListenerAction::RunMutation(m, q) => {
            assert_eq!(q, build_mutation(&m, "10.1.2.3", 77));
        }
        other => panic!("expected a mutation to run, got {:?}", other),
    }
}

#[test]
fn undecodable_datagram_is_dropped_and_loop_continues() {
    let payload = vec![0xff, 0xfe];
    let (state, action) = listener_step(
        ListenerState::Running,
        ListenerEvent::Datagram(payload, "10.1.2.3".to_string()),
        0,
    );
    assert_eq!(state, ListenerState::Running);
    assert_eq!(action, ListenerAction::Await);
}

#[test]
fn store_identifier_published_unchanged() {
    let (state, action) = listener_step(ListenerState::Running, ListenerEvent::StoreOk(42), 0);
    assert_eq!(state, ListenerState::Running);
    assert_eq!(action, ListenerAction::Publish(42));
}

#[test]
fn store_failure_is_fatal() {
    let (state, action) = listener_step(ListenerState::Running, ListenerEvent::StoreFailed, 0);
    assert_eq!(state, ListenerState::Stopped);
    assert_eq!(action, ListenerAction::Fail);
}

#[test]
fn datagram_processed_even_after_signal_set() {
    // The signal only takes effect at a suspension point: a datagram
    // already received is still fully processed.
    let mut c = ShutdownCoordinator::new();
    c.signal();
    let payload = b"<13>still processed".to_vec();
    let (_, action) = listener_step(
        ListenerState::Running,
        ListenerEvent::Datagram(payload, "::1".to_string()),
        0,
    );
    assert!(matches!(action, ListenerAction::RunMutation(_, _)));
}

#[test]
fn shutdown_signal_is_idempotent() {
    let mut c = ShutdownCoordinator::new();
    assert!(!c.observed());
    c.signal();
    assert!(c.observed());
    c.signal();
    assert!(c.observed());
}
