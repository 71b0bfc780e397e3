use pleme_notifications::circuit_breaker::{CircuitBreaker, CircuitBreakerConfig, CircuitState};
use pleme_notifications::TimeSpan;
use std::time::{Duration, Instant};

fn wait(ms: u64) {
    let start = Instant::now();
    while start.elapsed() < Duration::from_millis(ms) {
        std::hint::spin_loop();
    }
}

#[test]
fn test_circuit_breaker_closed_by_default() {
    let mut cb = CircuitBreaker::new(CircuitBreakerConfig::new("test"));
    assert!(cb.should_allow());
}

#[test]
fn test_circuit_breaker_opens_after_failures() {
    let config = CircuitBreakerConfig::new("test").with_failure_threshold(3);
    let mut cb = CircuitBreaker::new(config);

    for _ in 0..3 {
        cb.record_failure();
    }

    assert!(!cb.should_allow());
}

#[test]
fn test_circuit_breaker_closes_after_successes() {
    let config = CircuitBreakerConfig::new("test")
        .with_failure_threshold(2)
        .with_success_threshold(2)
        .with_open_timeout(TimeSpan::from_millis(10));

    let mut cb = CircuitBreaker::new(config);

    cb.record_failure();
    cb.record_failure();
    assert!(!cb.should_allow());

    wait(20);
    assert!(cb.should_allow()); // half-open allows

    cb.record_success();
    cb.record_success();
    assert!(cb.should_allow()); // closed again
}

#[test]
fn default_config_values() {
    let c = CircuitBreakerConfig::default();
    assert_eq!(c.name, "default");
    assert_eq!(c.failure_threshold, 3);
    assert_eq!(c.success_threshold, 2);
    assert_eq!(c.open_timeout.secs(), 60);
    assert_eq!(c.open_timeout.subsec_nanos(), 0);
    assert_eq!(c.half_open_max_requests, 3);
    let named = CircuitBreakerConfig::new("discord");
    assert_eq!(named.name, "discord");
    assert_eq!(named.failure_threshold, 3);
}

#[test]
fn state_labels() {
    assert_eq!(CircuitState::Closed.to_display_string(), "closed");
    assert_eq!(CircuitState::Open.to_display_string(), "open");
    assert_eq!(CircuitState::HalfOpen.to_display_string(), "half_open");
}

#[test]
fn failures_below_threshold_keep_circuit_closed() {
    let mut cb = CircuitBreaker::new(CircuitBreakerConfig::new("test").with_failure_threshold(3));
    cb.record_failure_when(false);
    cb.record_failure_when(false);
    assert_eq!(cb.stored_state(), CircuitState::Closed);
    assert!(cb.should_allow_when(false));
    cb.record_failure_when(false);
    assert_eq!(cb.stored_state(), CircuitState::Open);
    assert_eq!(cb.consecutive_failures(), 3);
    assert_eq!(cb.failures_total(), 3);
}

#[test]
fn success_resets_consecutive_failures() {
    let mut cb = CircuitBreaker::new(CircuitBreakerConfig::new("test").with_failure_threshold(3));
    cb.record_failure_when(false);
    cb.record_failure_when(false);
    cb.record_success_when(false);
    assert_eq!(cb.consecutive_failures(), 0);
    assert_eq!(cb.consecutive_successes(), 1);
    cb.record_failure_when(false);
    assert_eq!(cb.consecutive_successes(), 0);
    assert_eq!(cb.stored_state(), CircuitState::Closed);
    assert_eq!(cb.failures_total(), 3);
}

#[test]
fn open_circuit_rejects_until_timeout() {
    let mut cb = CircuitBreaker::new(CircuitBreakerConfig::new("test").with_failure_threshold(1));
    cb.record_failure_when(false);
    assert_eq!(cb.evaluate_state_when(false), CircuitState::Open);
    assert!(!cb.should_allow_when(false));
    assert_eq!(cb.evaluate_state_when(true), CircuitState::HalfOpen);
}

#[test]
fn half_open_limits_requests() {
    let mut cb = CircuitBreaker::new(CircuitBreakerConfig::new("test").with_failure_threshold(1));
    cb.record_failure_when(false);
    assert!(cb.should_allow_when(true));
    assert!(cb.should_allow_when(true));
    assert!(cb.should_allow_when(true));
    assert!(!cb.should_allow_when(true));
    assert_eq!(cb.stored_state(), CircuitState::Open);
}

#[test]
fn half_open_failure_reopens() {
    let mut cb = CircuitBreaker::new(CircuitBreakerConfig::new("test").with_failure_threshold(1));
    cb.record_failure_when(false);
    assert!(cb.should_allow_when(true));
    cb.record_failure_when(true);
    assert_eq!(cb.stored_state(), CircuitState::Open);
    // the half-open count was cleared: three more trial requests
    assert!(cb.should_allow_when(true));
    assert!(cb.should_allow_when(true));
    assert!(cb.should_allow_when(true));
    assert!(!cb.should_allow_when(true));
}

#[test]
fn successes_while_open_do_not_close_before_timeout() {
    let mut cb = CircuitBreaker::new(CircuitBreakerConfig::new("test").with_failure_threshold(1));
    cb.record_failure_when(false);
    cb.record_success_when(false);
    cb.record_success_when(false);
    assert_eq!(cb.stored_state(), CircuitState::Open);
    cb.record_success_when(true);
    assert_eq!(cb.stored_state(), CircuitState::Closed);
    assert_eq!(cb.consecutive_successes(), 0);
}

#[test]
fn zero_timeout_reopens_on_failure_with_clock() {
    let config = CircuitBreakerConfig::new("test")
        .with_failure_threshold(1)
        .with_open_timeout(TimeSpan::zero());
    let mut cb = CircuitBreaker::new(config);
    cb.record_failure();
    assert_eq!(cb.stored_state(), CircuitState::Open);
    assert!(cb.should_allow());
}

#[test]
fn failed_trial_reopens_with_fresh_window() {
    let config = CircuitBreakerConfig::new("test")
        .with_failure_threshold(1)
        .with_open_timeout(TimeSpan::from_millis(10));
    let mut cb = CircuitBreaker::new(config);
    cb.record_failure();
    assert!(!cb.should_allow());
    wait(20);
    assert!(cb.should_allow());
    assert!(cb.should_allow());
    assert!(cb.should_allow());
    assert!(!cb.should_allow());
    cb.record_failure(); // the trial failed: open again, timer restarted
    assert_eq!(cb.stored_state(), CircuitState::Open);
    assert!(!cb.should_allow());
    wait(20);
    assert!(cb.should_allow());
    assert!(cb.should_allow());
    assert!(cb.should_allow());
    assert!(!cb.should_allow());
}

#[test]
fn success_keeps_a_half_open_breaker_allowing() {
    let mut cb = CircuitBreaker::new(CircuitBreakerConfig::new("test").with_failure_threshold(1));
    cb.record_failure_when(false);
    assert!(cb.should_allow_when(true));
    cb.record_success_when(true);
    assert_eq!(cb.stored_state(), CircuitState::Open);
    assert!(cb.should_allow_when(true));
}

#[test]
fn repeated_failures_restart_the_open_timer() {
    let config = CircuitBreakerConfig::new("test")
        .with_failure_threshold(1)
        .with_open_timeout(TimeSpan::from_millis(100));
    let mut cb = CircuitBreaker::new(config);
    cb.record_failure();
    wait(60);
    cb.record_failure(); // still open; the timer counts from here
    wait(60);
    assert!(!cb.should_allow());
    wait(60);
    assert!(cb.should_allow());
}

#[test]
fn failure_at_a_given_instant() {
    let mut cb = CircuitBreaker::new(CircuitBreakerConfig::new("test").with_failure_threshold(2));
    let now = Instant::now();
    cb.record_failure_at(now, false);
    assert_eq!(cb.stored_state(), CircuitState::Closed);
    cb.record_failure_at(now, false);
    assert_eq!(cb.stored_state(), CircuitState::Open);
    assert_eq!(cb.consecutive_failures(), 2);
}
