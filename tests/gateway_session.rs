use seria::error::SeriaError;
use seria::gateway::session::{Session, SessionAction, SessionEvent, SessionPhase, SessionTask};
use seria::gateway::GatewayConfig;
use seria::models::ClientEvent;

fn session() -> Session {
    let config = GatewayConfig::new("secret").unwrap();
    Session::new(&config, 0)
}

fn reason(cause: &SeriaError) -> String {
    match cause {
        SeriaError::Other(m) => m.clone(),
        other => panic!("unexpected cause {:?}", other),
    }
}

#[test]
fn connect_opens_then_authenticates_first() {
    let mut s = session();
    assert!(matches!(s.step(SessionEvent::Connect), SessionAction::Open));
    match s.step(SessionEvent::Opened) {
        SessionAction::Authenticate(ClientEvent::Authenticate { token }) => assert_eq!(token, "secret"),
        other => panic!("unexpected {:?}", other),
    }
    assert!(matches!(s.step(SessionEvent::AuthQueued), SessionAction::StartTasks));
    assert_eq!(s.phase, SessionPhase::Active);
    assert!(s.is_connected());
}

#[test]
fn connect_is_idempotent() {
    let mut s = session();
    assert!(matches!(s.step(SessionEvent::Connect), SessionAction::Open));
    assert!(matches!(s.step(SessionEvent::Connect), SessionAction::Nothing));
    assert_eq!(s.phase, SessionPhase::Opening);
}

#[test]
fn task_end_retries_with_backoff() {
    let mut s = session();
    s.step(SessionEvent::Connect);
    s.step(SessionEvent::Opened);
    s.step(SessionEvent::AuthQueued);
    match s.step(SessionEvent::TaskEnded(SessionTask::Reader)) {
        SessionAction::Retry { delay, cause } => {
            assert_eq!(delay, 5_000);
            assert_eq!(reason(&cause), "Read task terminated");
        }
        other => panic!("unexpected {:?}", other),
    }
    assert_eq!(s.phase, SessionPhase::Waiting);
    assert!(matches!(s.step(SessionEvent::BackoffElapsed), SessionAction::Open));
}

#[test]
fn fail_twice_succeed_fail_waits_one_unit() {
    let mut s = session();
    s.step(SessionEvent::Connect);
    let fail = || SessionEvent::OpenFailed(SeriaError::Other("refused".to_string()));
    assert!(matches!(s.step(fail()), SessionAction::Retry { delay: 5_000, .. }));
    s.step(SessionEvent::BackoffElapsed);
    assert!(matches!(s.step(fail()), SessionAction::Retry { delay: 10_000, .. }));
    s.step(SessionEvent::BackoffElapsed);
    s.step(SessionEvent::Opened);
    assert_eq!(s.policy.attempts, 0);
    s.step(SessionEvent::AuthQueued);
    match s.step(SessionEvent::TaskEnded(SessionTask::Writer)) {
        SessionAction::Retry { delay, cause } => {
            assert_eq!(delay, 5_000);
            assert_eq!(reason(&cause), "Write task terminated");
        }
        other => panic!("unexpected {:?}", other),
    }
}

#[test]
fn attempts_exhausted_gives_up_once() {
    let mut s = session();
    s.step(SessionEvent::Connect);
    let mut give_ups = 0;
    let mut delays = Vec::new();
    for _ in 0..8 {
        match s.step(SessionEvent::OpenFailed(SeriaError::Other("refused".to_string()))) {
            SessionAction::Retry { delay, .. } => {
                delays.push(delay);
                s.step(SessionEvent::BackoffElapsed);
            }
            SessionAction::GiveUp(cause) => {
                assert_eq!(reason(&cause), "refused");
                give_ups += 1;
            }
            SessionAction::Nothing => {}
            other => panic!("unexpected {:?}", other),
        }
    }
    assert_eq!(delays, vec![5_000, 10_000, 15_000, 20_000]);
    assert_eq!(give_ups, 1);
    assert_eq!(s.phase, SessionPhase::Exhausted);
    assert!(matches!(s.step(SessionEvent::BackoffElapsed), SessionAction::Nothing));
    assert!(matches!(s.step(SessionEvent::Connect), SessionAction::Nothing));
}

#[test]
fn auth_queue_failure_counts_as_failure() {
    let mut s = session();
    s.step(SessionEvent::Connect);
    s.step(SessionEvent::Opened);
    match s.step(SessionEvent::AuthQueueFailed) {
        SessionAction::Retry { delay, cause } => {
            assert_eq!(delay, 5_000);
            assert_eq!(reason(&cause), "Failed to send authentication event");
        }
        other => panic!("unexpected {:?}", other),
    }
}

#[test]
fn teardown_shuts_down_and_closes() {
    let mut s = session();
    s.step(SessionEvent::Connect);
    assert!(matches!(s.step(SessionEvent::TearDown), SessionAction::Shutdown));
    assert_eq!(s.phase, SessionPhase::Closed);
    assert!(!s.accepts_intents());
    assert!(matches!(s.step(SessionEvent::Connect), SessionAction::Nothing));
    assert!(matches!(s.step(SessionEvent::TearDown), SessionAction::Nothing));
}

#[test]
fn session_latency_uses_injected_timestamps() {
    let mut s = session();
    s.record_ping(10_000);
    s.record_pong(10_040);
    assert_eq!(s.latency(), 40);
    s.record_pong(9_000);
    assert_eq!(s.latency(), 1_000);
    assert_eq!(Session::ping_intent(), ClientEvent::Ping { data: 0 });
}
