use pleme_notifications::health_probes::{check_from_probe, ProbeOutcome};
use pleme_notifications::TimeSpan;

#[test]
fn probe_outcomes() {
    let ok = check_from_probe("database", TimeSpan::from_millis(4), ProbeOutcome::Finished(Ok(Some("pg 16".to_string()))));
    assert_eq!(ok.name, "database");
    assert!(ok.connected);
    assert_eq!(ok.detail.as_deref(), Some("pg 16"));
    assert_eq!(ok.latency.as_millis(), 4);

    let err = check_from_probe("redis", TimeSpan::from_millis(1), ProbeOutcome::Finished(Err("refused".to_string())));
    assert!(!err.connected);
    assert_eq!(err.detail.as_deref(), Some("refused"));

    let timeout = check_from_probe("nats", TimeSpan::from_secs(5), ProbeOutcome::TimedOut);
    assert!(!timeout.connected);
    assert_eq!(timeout.detail.as_deref(), Some("timeout (5s)"));
    assert_eq!(timeout.status_string(), "\u{274C} FAILED - timeout (5s)");
}
