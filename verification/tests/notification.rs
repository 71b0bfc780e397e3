use pleme_notifications::discord::client::{can_build_failure_embed, can_build_success_embed};
use pleme_notifications::discord::{colors, NotificationClient, NotificationConfig};
use pleme_notifications::startup::{
    DependencyCheck, DependencyStatus, PhaseStatus, PodIdentity, StartupPhase, StartupReport,
};
use pleme_notifications::{GrafanaClient, TimeSpan};

fn s(x: &str) -> Option<String> {
    Some(x.to_string())
}

fn config(webhook: Option<String>, role: Option<String>, users: Option<String>) -> NotificationConfig {
    NotificationConfig::from_env_values(webhook, s("Bot"), s("plo"), s("staging"), None, None, role, users)
}

fn report() -> StartupReport {
    StartupReport {
        service_name: "lilitu-backend".to_string(),
        image_tag: "registry.example.com/lilitu-backend:sha-0123456789abcdef".to_string(),
        pod_identity: PodIdentity {
            pod_name: "lilitu-7f9c".to_string(),
            pod_namespace: "lilitu".to_string(),
            node_name: "node-a".to_string(),
        },
        cluster_name: "plo".to_string(),
        environment: "staging".to_string(),
        total_duration: TimeSpan::from_millis(420),
        phases: vec![
            StartupPhase {
                name: "config".to_string(),
                duration: TimeSpan::from_millis(5),
                status: PhaseStatus::Success,
                detail: None,
            },
            StartupPhase {
                name: "database".to_string(),
                duration: TimeSpan::from_millis(300),
                status: PhaseStatus::Failed("connection refused".to_string()),
                detail: None,
            },
            StartupPhase {
                name: "cache".to_string(),
                duration: TimeSpan::from_millis(1),
                status: PhaseStatus::Failed("later".to_string()),
                detail: None,
            },
        ],
        dependency_status: DependencyStatus {
            database: Some(DependencyCheck::ok("database", TimeSpan::from_millis(12))),
            redis: None,
            nats: Some(DependencyCheck::failed("nats", TimeSpan::from_millis(7), "down".to_string())),
        },
        version: "1.0.0".to_string(),
        git_sha: "0123456789abcdef".to_string(),
        run_mode: "api".to_string(),
    }
}

#[test]
fn config_defaults() {
    let c = NotificationConfig::from_env_values(None, None, None, None, None, None, None, None);
    assert!(c.webhook_url.is_none());
    assert_eq!(c.username, "Pleme Deploy");
    assert_eq!(c.cluster_name, "unknown");
    assert_eq!(c.environment, "unknown");
    assert!(c.notify_on_startup);
    assert!(c.notify_on_failure);
    assert!(c.failure_mention_role.is_none());
    assert!(c.failure_mention_users.is_empty());
}

#[test]
fn config_values() {
    let c = NotificationConfig::from_env_values(
        s(""),
        s("Bot"),
        s("plo"),
        s("prod"),
        s("false"),
        s("1"),
        s(""),
        s(" 123 , ,456,\t"),
    );
    assert!(c.webhook_url.is_none());
    assert_eq!(c.username, "Bot");
    assert!(!c.notify_on_startup);
    assert!(c.notify_on_failure);
    assert!(c.failure_mention_role.is_none());
    assert_eq!(c.failure_mention_users, vec!["123".to_string(), "456".to_string()]);
    let c = NotificationConfig::from_env_values(s("https://hook"), None, None, None, s("TRUE"), s("true"), s("999"), None);
    assert_eq!(c.webhook_url.as_deref(), Some("https://hook"));
    assert!(!c.notify_on_startup);
    assert!(c.notify_on_failure);
    assert_eq!(c.failure_mention_role.as_deref(), Some("999"));
}

#[test]
fn breaker_config_for_notifications() {
    let c = NotificationClient::breaker_config();
    assert_eq!(c.name, "notifications");
    assert_eq!(c.failure_threshold, 3);
    assert_eq!(c.success_threshold, 2);
    assert_eq!(c.open_timeout.secs(), 60);
}

#[test]
fn success_embed_contents() {
    let client = NotificationClient::new("lilitu-backend", config(s("https://hook"), None, None), None);
    let e = client.success_embed_at(&report(), "2024-01-01T00:00:00+00:00".to_string());
    assert_eq!(e.title.as_deref(), Some("\u{1F7E2} Service Started"));
    assert_eq!(e.color, Some(colors::SUCCESS));
    assert!(e.description.is_none());
    let names: Vec<&str> = e.fields.iter().map(|f| f.name.as_str()).collect();
    assert_eq!(
        names,
        vec!["Pod", "Namespace", "Node", "Image Tag", "Run Mode", "Version", "Startup Duration", "Dependencies", "Phases"]
    );
    assert_eq!(e.fields[0].value, "`lilitu-7f9c`");
    assert_eq!(e.fields[3].value, "`registry.example.com/lilitu-backend:s...`");
    assert_eq!(e.fields[5].value, "`012345678...`");
    assert_eq!(e.fields[6].value, "`420ms`");
    assert_eq!(e.fields[7].value, "Database \u{2705} (12ms), NATS \u{274C} (7ms)");
    assert!(!e.fields[7].inline);
    assert!(e.fields[0].inline);
    assert_eq!(e.author.as_ref().unwrap().name, "Lilitu Backend | plo | staging");
    assert_eq!(e.footer.as_ref().unwrap().text, "plo / staging");
    assert_eq!(e.timestamp.as_deref(), Some("2024-01-01T00:00:00+00:00"));
}

#[test]
fn failure_embed_contents() {
    let client = NotificationClient::new("lilitu-backend", config(s("https://hook"), None, None), None);
    let e = client.failure_embed_at(&report(), "boom", "t".to_string());
    assert_eq!(e.title.as_deref(), Some("\u{274C} Service Startup Failed"));
    assert_eq!(e.color, Some(colors::FAILURE));
    assert_eq!(e.description.as_deref(), Some("```\nboom\n```"));
    let names: Vec<&str> = e.fields.iter().map(|f| f.name.as_str()).collect();
    assert_eq!(names, vec!["Pod", "Namespace", "Image Tag", "Duration", "Failed Phase", "Debug Commands"]);
    assert_eq!(e.fields[4].value, "`database` - connection refused");
    assert_eq!(
        e.fields[5].value,
        "```\nkubectl logs lilitu-7f9c -n lilitu --tail=100\nkubectl describe pod lilitu-7f9c -n lilitu\n```"
    );
}

#[test]
fn long_errors_are_cut() {
    let client = NotificationClient::new("svc", config(None, None, None), None);
    let error = "x".repeat(600);
    let e = client.failure_embed_at(&report(), &error, "t".to_string());
    let expected = format!("```\n{}...\n```", "x".repeat(497));
    assert_eq!(e.description.as_deref(), Some(expected.as_str()));
    let exact = "y".repeat(500);
    let e = client.failure_embed_at(&report(), &exact, "t".to_string());
    assert_eq!(e.description, Some(format!("```\n{}\n```", exact)));
}

#[test]
fn mentions() {
    let client = NotificationClient::new("svc", config(None, s("42"), s("7, 8")), None);
    assert_eq!(client.failure_mentions().as_deref(), Some("<@&42> <@7> <@8>"));
    let client = NotificationClient::new("svc", config(None, None, None), None);
    assert!(client.failure_mentions().is_none());
}

#[test]
fn plans_follow_settings() {
    let grafana = GrafanaClient::new("http://g/".to_string(), "k".to_string());
    let client = NotificationClient::new("lilitu-backend", config(s("https://hook"), s("1"), None), grafana);
    let plan = client.plan_startup_success(&report());
    let webhook = plan.discord.expect("discord message");
    assert_eq!(webhook.username.as_deref(), Some("Bot"));
    assert!(webhook.content.is_none());
    assert_eq!(webhook.embeds.len(), 1);
    assert!(webhook.embeds[0].timestamp.is_some());
    let draft = plan.grafana.expect("grafana annotation");
    assert_eq!(
        draft.text,
        "lilitu-backend started on lilitu-7f9c (registry.example.com/lilitu-backend:sha-0123456789abcdef)"
    );
    assert_eq!(
        draft.tags,
        vec!["service:lilitu-backend", "environment:staging", "cluster:plo", "event:startup_success"]
    );

    let plan = client.plan_startup_failure(&report(), "boom");
    assert_eq!(plan.discord.unwrap().content.as_deref(), Some("<@&1>"));
    assert_eq!(
        plan.grafana.unwrap().text,
        "lilitu-backend FAILED on lilitu-7f9c (registry.example.com/lilitu-backend:sha-0123456789abcdef): boom"
    );

    let quiet = NotificationConfig::from_env_values(s("https://hook"), None, None, None, s("0"), s("no"), None, None);
    let client = NotificationClient::new("svc", quiet, None);
    let plan = client.plan_startup_success(&report());
    assert!(plan.discord.is_none() && plan.grafana.is_none());
    let plan = client.plan_startup_failure(&report(), "boom");
    assert!(plan.discord.is_none() && plan.grafana.is_none());

    let no_hook = NotificationClient::new("svc", config(None, None, None), None);
    assert!(no_hook.discord_client().is_none());
    assert!(no_hook.plan_startup_success(&report()).discord.is_none());
}

#[test]
fn embed_guards() {
    assert!(can_build_success_embed(&report()));
    assert!(can_build_failure_embed(&report(), "boom"));
    let mut r = report();
    r.image_tag = format!("{}é{}", "a".repeat(36), "b".repeat(10));
    assert!(!can_build_success_embed(&r));
    let long = format!("{}é{}", "a".repeat(496), "b".repeat(10));
    assert!(!can_build_failure_embed(&report(), &long));
}
