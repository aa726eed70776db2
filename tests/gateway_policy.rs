use seria::gateway::heartbeat::HeartbeatClock;
use seria::gateway::policy::{backoff_delay, ReconnectPolicy, MAX_BACKOFF};
use seria::gateway::config::has_prefix;
use seria::gateway::GatewayConfig;

#[test]
fn backoff_is_base_times_attempts() {
    assert_eq!(backoff_delay(5_000, 1), 5_000);
    assert_eq!(backoff_delay(5_000, 3), 15_000);
    assert_eq!(backoff_delay(5_000, 12), 60_000);
}

#[test]
fn backoff_is_capped() {
    assert_eq!(backoff_delay(5_000, 13), MAX_BACKOFF);
    assert_eq!(backoff_delay(u64::MAX, 2), MAX_BACKOFF);
    assert_eq!(backoff_delay(5_000, 0), 0);
}

#[test]
fn failures_below_max_wait_linearly() {
    let mut p = ReconnectPolicy::new(5, 5_000);
    assert_eq!(p.on_failure(), Some(5_000));
    assert_eq!(p.on_failure(), Some(10_000));
    assert_eq!(p.on_failure(), Some(15_000));
    assert_eq!(p.on_failure(), Some(20_000));
    assert_eq!(p.attempts, 4);
}

#[test]
fn max_failures_stop_reconnecting_once() {
    let mut p = ReconnectPolicy::new(5, 5_000);
    for _ in 0..4 {
        assert!(p.on_failure().is_some());
    }
    assert_eq!(p.on_failure(), None);
    assert!(p.exhausted);
    let stopped = p;
    assert_eq!(p.on_failure(), None);
    p.on_success();
    assert_eq!(p, stopped);
}

#[test]
fn success_resets_attempt_count() {
    let mut p = ReconnectPolicy::new(5, 5_000);
    assert_eq!(p.on_failure(), Some(5_000));
    assert_eq!(p.on_failure(), Some(10_000));
    p.on_success();
    assert_eq!(p.attempts, 0);
    assert_eq!(p.on_failure(), Some(5_000));
}

#[test]
fn backoff_reaches_cap_with_many_attempts() {
    let mut p = ReconnectPolicy::new(100, 5_000);
    let mut last = 0;
    for _ in 0..20 {
        last = p.on_failure().unwrap();
    }
    assert_eq!(last, 60_000);
}

#[test]
fn zero_max_attempts_gives_up_at_first_failure() {
    let mut p = ReconnectPolicy::new(0, 5_000);
    assert_eq!(p.on_failure(), None);
    assert!(p.exhausted);
}

#[test]
fn latency_is_distance_between_ping_and_pong() {
    let mut clock = HeartbeatClock::new(1_000);
    assert_eq!(clock.latency(), 0);
    clock.record_ping(2_000);
    clock.record_pong(2_150);
    assert_eq!(clock.latency(), 150);
    clock.record_ping(5_000);
    assert_eq!(clock.latency(), 2_850);
}

#[test]
fn gateway_config_defaults() {
    let c = GatewayConfig::new("abc").unwrap();
    assert_eq!(c.token, "abc");
    assert_eq!(c.ws_url, "wss://ws.revolt.chat");
    assert_eq!(c.heartbeat_interval, 15_000);
    assert_eq!(c.reconnect_delay, 5_000);
    assert_eq!(c.max_reconnect_attempts, 5);
    assert_eq!(c.reconnect_attempts, 0);
    let p = c.policy();
    assert_eq!(p.max_attempts, 5);
    assert_eq!(p.base_delay, 5_000);
}

#[test]
fn gateway_config_refuses_empty_token() {
    match GatewayConfig::new("") {
        Err(seria::error::SeriaError::Other(m)) => assert_eq!(m, "Token cannot be empty"),
        _ => panic!("an empty token must be refused"),
    }
}

#[test]
fn gateway_address_validation() {
    let mut c = GatewayConfig::new("abc").unwrap();
    assert!(c.has_valid_address());
    c.ws_url = "ws://localhost:9000".to_string();
    assert!(c.has_valid_address());
    c.ws_url = "wss://".to_string();
    assert!(!c.has_valid_address());
    c.ws_url = "https://ws.revolt.chat".to_string();
    assert!(!c.has_valid_address());
    c.ws_url = String::new();
    assert!(!c.has_valid_address());
}

#[test]
fn prefix_test() {
    assert!(has_prefix("wss://x", "wss://"));
    assert!(has_prefix("abc", ""));
    assert!(!has_prefix("ab", "abc"));
    assert!(!has_prefix("xbc", "abc"));
}
