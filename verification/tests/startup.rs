use pleme_notifications::startup::{
    DependencyCheck, DependencyStatus, PhaseStatus, PodIdentity, StartupPhase, StartupReport,
};
use pleme_notifications::TimeSpan;

fn phase(name: &str, ms: u64) -> StartupPhase {
    StartupPhase {
        name: name.to_string(),
        duration: TimeSpan::from_millis(ms),
        status: PhaseStatus::Success,
        detail: None,
    }
}

pub fn report(phases: Vec<StartupPhase>) -> StartupReport {
    StartupReport {
        service_name: "lilitu-backend".to_string(),
        image_tag: "v1.2.3".to_string(),
        pod_identity: PodIdentity {
            pod_name: "pod-1".to_string(),
            pod_namespace: "ns".to_string(),
            node_name: "node-a".to_string(),
        },
        cluster_name: "plo".to_string(),
        environment: "staging".to_string(),
        total_duration: TimeSpan::from_millis(1500),
        phases,
        dependency_status: DependencyStatus::default(),
        version: "1.2.3".to_string(),
        git_sha: "0123456789abcdef".to_string(),
        run_mode: "api".to_string(),
    }
}

#[test]
fn dependency_check_constructors() {
    let ok = DependencyCheck::ok("database", TimeSpan::from_millis(12));
    assert_eq!(ok.name, "database");
    assert!(ok.connected);
    assert_eq!(ok.latency.as_millis(), 12);
    assert!(ok.detail.is_none());

    let detailed = DependencyCheck::ok_with_detail("redis", TimeSpan::from_millis(3), "v7".to_string());
    assert!(detailed.connected);
    assert_eq!(detailed.detail.as_deref(), Some("v7"));

    let failed = DependencyCheck::failed("nats", TimeSpan::from_millis(5000), "refused".to_string());
    assert!(!failed.connected);
    assert_eq!(failed.detail.as_deref(), Some("refused"));

    let skipped = DependencyCheck::skipped("redis");
    assert!(skipped.connected);
    assert_eq!(skipped.latency.as_millis(), 0);
    assert_eq!(skipped.detail.as_deref(), Some("not configured"));
}

#[test]
fn status_strings() {
    assert_eq!(
        DependencyCheck::ok("database", TimeSpan::from_millis(12)).status_string(),
        "\u{2705} OK (12ms)"
    );
    assert_eq!(
        DependencyCheck::ok("database", TimeSpan::from_secs(2)).status_string(),
        "\u{2705} OK (2000ms)"
    );
    assert_eq!(
        DependencyCheck::failed("nats", TimeSpan::zero(), "refused".to_string()).status_string(),
        "\u{274C} FAILED - refused"
    );
    let mut no_detail = DependencyCheck::failed("nats", TimeSpan::zero(), String::new());
    no_detail.detail = None;
    assert_eq!(no_detail.status_string(), "\u{274C} FAILED");
}

#[test]
fn all_healthy_checks_configured_dependencies() {
    let mut status = DependencyStatus::default();
    assert!(status.all_healthy());
    status.database = Some(DependencyCheck::ok("database", TimeSpan::zero()));
    status.nats = Some(DependencyCheck::skipped("nats"));
    assert!(status.all_healthy());
    status.redis = Some(DependencyCheck::failed("redis", TimeSpan::zero(), "down".to_string()));
    assert!(!status.all_healthy());
}

#[test]
fn phases_code_block_layout() {
    let r = report(vec![phase("config", 42), phase("database", 1234)]);
    assert_eq!(
        r.phases_code_block(),
        "```\n  config:        42ms\n  database:      1.2s\n```"
    );
    let long = report(vec![phase("a-very-long-phase-name", 5)]);
    assert_eq!(long.phases_code_block(), "```\n  a-very-long-phase-name: 5ms\n```");
    assert_eq!(report(vec![]).phases_code_block(), "```\n\n```");
}

#[test]
fn phase_status_text() {
    assert_eq!(PhaseStatus::Success.to_display_string(), "ok");
    assert_eq!(PhaseStatus::Failed("boom".to_string()).to_display_string(), "failed: boom");
    assert_eq!(PhaseStatus::Degraded("slow".to_string()).to_display_string(), "degraded: slow");
}

#[test]
fn pod_identity_fallbacks() {
    let p = PodIdentity::from_env_values(None, None, None, None);
    assert_eq!(p.pod_name, "local");
    assert_eq!(p.pod_namespace, "local");
    assert_eq!(p.node_name, "local");
    let p = PodIdentity::from_env_values(None, Some("host".to_string()), Some("ns".to_string()), None);
    assert_eq!(p.pod_name, "host");
    assert_eq!(p.pod_namespace, "ns");
    let p = PodIdentity::from_env_values(Some("pod".to_string()), Some("host".to_string()), None, Some("n1".to_string()));
    assert_eq!(p.pod_name, "pod");
    assert_eq!(p.node_name, "n1");
}
