//! The notification client: what it sends to Discord and Grafana about a service's
//! startup, and when.
use vstd::prelude::*;
use vstd::string::*;
use vstd::utf8::*;

use crate::circuit_breaker::CircuitBreakerConfig;
use crate::discord::colors;
use crate::discord::config::NotificationConfig;
use crate::discord::format::{
    capitalize_service, display_service_name, duration_field, format_duration, truncate_tag,
    truncated, truncation_ok,
};
use crate::discord::message::{
    opt_view, DiscordAuthor, DiscordEmbed, DiscordField, DiscordFooter, DiscordWebhook,
    EmbedView, FieldView, LineView, WebhookView,
};
use crate::grafana::GrafanaClient;
use crate::http::{build_http_client, utc_now_rfc3339};
use crate::span::{millis_of, TimeSpan};
use crate::startup::{phases_block, DependencyCheck, DependencyStatus, PhaseStatus, StartupPhase, StartupReport};
use crate::text::{decimal, join, join_strings, push_decimal, string_of, views};

verus! {

broadcast use vstd::utf8::group_utf8_lib;

/// A text between backticks.
pub open spec fn backticked(s: Seq<char>) -> Seq<char> {
    "`"@ + s + "`"@
}

/// An embed field.
pub open spec fn field(name: Seq<char>, value: Seq<char>, inline: bool) -> FieldView {
    FieldView { name, value, inline }
}

/// The mark of a dependency's connection: a check mark or a cross.
pub open spec fn check_mark(connected: bool) -> Seq<char> {
    if connected {
        "\u{2705}"@
    } else {
        "\u{274C}"@
    }
}

/// One dependency in the summary, e.g. `Database ✅ (12ms)`.
pub open spec fn dependency_part(label: Seq<char>, c: DependencyCheck) -> Seq<char> {
    label + " "@ + check_mark(c.connected) + " ("@ + decimal(millis_of(c.latency@)) + "ms)"@
}

/// The summary entry of an optional dependency check.
pub open spec fn optional_part(label: Seq<char>, c: Option<DependencyCheck>) -> Seq<Seq<char>> {
    match c {
        Some(c) => seq![dependency_part(label, c)],
        None => Seq::<Seq<char>>::empty(),
    }
}

/// The summary entries of the configured dependencies: database, Redis, NATS.
pub open spec fn dependency_parts(d: DependencyStatus) -> Seq<Seq<char>> {
    optional_part("Database"@, d.database) + optional_part("Redis"@, d.redis) + optional_part(
        "NATS"@,
        d.nats,
    )
}

/// The embed author line: the display name of the service, the cluster and the
/// environment.
pub open spec fn author_line(service: Seq<char>, cfg: NotificationConfig) -> Seq<char> {
    display_service_name(service) + " | "@ + cfg.cluster_name@ + " | "@ + cfg.environment@
}

/// The embed footer line: the cluster and the environment.
pub open spec fn footer_line(cfg: NotificationConfig) -> Seq<char> {
    cfg.cluster_name@ + " / "@ + cfg.environment@
}

/// The fields of the startup-success embed.
pub open spec fn success_fields(report: StartupReport) -> Seq<FieldView> {
    let base = seq![
        field("Pod"@, backticked(report.pod_identity.pod_name@), true),
        field("Namespace"@, backticked(report.pod_identity.pod_namespace@), true),
        field("Node"@, backticked(report.pod_identity.node_name@), true),
        field("Image Tag"@, backticked(truncated(report.image_tag@, 40)), true),
        field("Run Mode"@, backticked(report.run_mode@), true),
        field("Version"@, backticked(truncated(report.git_sha@, 12)), true),
        field("Startup Duration"@, duration_field(report.total_duration@), true),
    ];
    let deps = dependency_parts(report.dependency_status);
    let with_deps = if deps.len() > 0 {
        base.push(field("Dependencies"@, join(deps, ", "@), false))
    } else {
        base
    };
    if report.phases@.len() > 0 {
        with_deps.push(field("Phases"@, phases_block(report.phases@), false))
    } else {
        with_deps
    }
}

/// The startup-success embed, stamped with `timestamp`.
pub open spec fn success_embed(
    service: Seq<char>,
    cfg: NotificationConfig,
    report: StartupReport,
    timestamp: Seq<char>,
) -> EmbedView {
    EmbedView {
        title: Some("\u{1F7E2} Service Started"@),
        description: None,
        color: Some(colors::SUCCESS),
        fields: success_fields(report),
        author: Some(LineView { text: author_line(service, cfg), icon_url: None }),
        footer: Some(LineView { text: footer_line(cfg), icon_url: None }),
        timestamp: Some(timestamp),
    }
}

/// The success embed can be built: its tags are cut on character boundaries.
pub open spec fn success_embed_ok(report: StartupReport) -> bool {
    truncation_ok(report.image_tag@, 40) && truncation_ok(report.git_sha@, 12)
}

/// The error shown in the failure embed, as a code block: errors over 500 bytes are
/// cut to their first 497 bytes and marked with `...`.
pub open spec fn error_block(error: Seq<char>) -> Seq<char> {
    if encode_utf8(error).len() > 500 {
        "```\n"@ + decode_utf8(encode_utf8(error).subrange(0, 497)) + "...\n```"@
    } else {
        "```\n"@ + error + "\n```"@
    }
}

/// The error can be cut for display: a long error is cut on a character boundary.
pub open spec fn error_ok(error: Seq<char>) -> bool {
    encode_utf8(error).len() > 500 ==> is_char_boundary(encode_utf8(error), 497)
}

/// The name and error of the first failed phase, if any.
pub open spec fn first_failed_phase(phases: Seq<StartupPhase>) -> Option<(Seq<char>, Seq<char>)>
    decreases phases.len(),
{
    if phases.len() == 0 {
        None
    } else {
        match phases[0].status {
            PhaseStatus::Failed(e) => Some((phases[0].name@, e@)),
            _ => first_failed_phase(phases.drop_first()),
        }
    }
}

/// The commands for inspecting the pod.
pub open spec fn debug_commands(pod: Seq<char>, namespace: Seq<char>) -> Seq<char> {
    "```\nkubectl logs "@ + pod + " -n "@ + namespace + " --tail=100\nkubectl describe pod "@
        + pod + " -n "@ + namespace + "\n```"@
}

/// The fields of the startup-failure embed.
pub open spec fn failure_fields(report: StartupReport) -> Seq<FieldView> {
    let base = seq![
        field("Pod"@, backticked(report.pod_identity.pod_name@), true),
        field("Namespace"@, backticked(report.pod_identity.pod_namespace@), true),
        field("Image Tag"@, backticked(truncated(report.image_tag@, 40)), true),
        field("Duration"@, duration_field(report.total_duration@), true),
    ];
    let with_phase = match first_failed_phase(report.phases@) {
        Some((name, e)) => base.push(field("Failed Phase"@, "`"@ + name + "` - "@ + e, false)),
        None => base,
    };
    with_phase.push(
        field(
            "Debug Commands"@,
            debug_commands(report.pod_identity.pod_name@, report.pod_identity.pod_namespace@),
            false,
        ),
    )
}

/// The startup-failure embed, stamped with `timestamp`.
pub open spec fn failure_embed(
    service: Seq<char>,
    cfg: NotificationConfig,
    report: StartupReport,
    error: Seq<char>,
    timestamp: Seq<char>,
) -> EmbedView {
    EmbedView {
        title: Some("\u{274C} Service Startup Failed"@),
        description: Some(error_block(error)),
        color: Some(colors::FAILURE),
        fields: failure_fields(report),
        author: Some(LineView { text: author_line(service, cfg), icon_url: None }),
        footer: Some(LineView { text: footer_line(cfg), icon_url: None }),
        timestamp: Some(timestamp),
    }
}

/// The failure embed can be built: its tag and its error are cut on character
/// boundaries.
pub open spec fn failure_embed_ok(report: StartupReport, error: Seq<char>) -> bool {
    truncation_ok(report.image_tag@, 40) && error_ok(error)
}

/// The mentions of a failure notification: the role, then each user.
pub open spec fn mention_parts(cfg: NotificationConfig) -> Seq<Seq<char>> {
    (match cfg.failure_mention_role {
        Some(role) => seq!["<@&"@ + role@ + ">"@],
        None => Seq::<Seq<char>>::empty(),
    }) + views(cfg.failure_mention_users@).map_values(|u: Seq<char>| "<@"@ + u + ">"@)
}

/// The message text of a failure notification: the mentions separated by spaces, or
/// nothing when there is no one to mention.
pub open spec fn mention_content(cfg: NotificationConfig) -> Option<Seq<char>> {
    if mention_parts(cfg).len() == 0 {
        None
    } else {
        Some(join(mention_parts(cfg), " "@))
    }
}

/// The tags of a Grafana annotation about the report.
pub open spec fn annotation_tags(report: StartupReport, event: Seq<char>) -> Seq<Seq<char>> {
    seq![
        "service:"@ + report.service_name@,
        "environment:"@ + report.environment@,
        "cluster:"@ + report.cluster_name@,
        event,
    ]
}

/// The text of the Grafana annotation about a successful startup.
pub open spec fn success_annotation_text(report: StartupReport) -> Seq<char> {
    report.service_name@ + " started on "@ + report.pod_identity.pod_name@ + " ("@
        + report.image_tag@ + ")"@
}

/// The text of the Grafana annotation about a failed startup.
pub open spec fn failure_annotation_text(report: StartupReport, error: Seq<char>) -> Seq<char> {
    report.service_name@ + " FAILED on "@ + report.pod_identity.pod_name@ + " ("@
        + report.image_tag@ + "): "@ + error
}


/// The Discord message about a successful startup, stamped with `timestamp`.
pub open spec fn success_webhook(
    service: Seq<char>,
    cfg: NotificationConfig,
    report: StartupReport,
    timestamp: Seq<char>,
) -> WebhookView {
    WebhookView {
        username: Some(cfg.username@),
        avatar_url: None,
        content: None,
        embeds: seq![success_embed(service, cfg, report, timestamp)],
    }
}

/// The Discord message about a failed startup, stamped with `timestamp`: it mentions the
/// configured role and users.
pub open spec fn failure_webhook(
    service: Seq<char>,
    cfg: NotificationConfig,
    report: StartupReport,
    error: Seq<char>,
    timestamp: Seq<char>,
) -> WebhookView {
    WebhookView {
        username: Some(cfg.username@),
        avatar_url: None,
        content: mention_content(cfg),
        embeds: seq![failure_embed(service, cfg, report, error, timestamp)],
    }
}

/// A draft holds the given annotation text and tags.
pub open spec fn draft_is(d: AnnotationDraft, text: Seq<char>, tags: Seq<Seq<char>>) -> bool {
    d.text@ == text && views(d.tags@) == tags
}

fn make_field(name: &str, value: String, inline: bool) -> (r: DiscordField)
    ensures
        r@ == field(name@, value@, inline),
{
    DiscordField { name: string_of(name), value, inline }
}

fn backtick_string(s: &str) -> (r: String)
    ensures
        r@ == backticked(s@),
{
    let mut out = string_of("`");
    out.append(s);
    out.append("`");
    out
}

fn dependency_part_string(label: &str, c: &DependencyCheck) -> (r: String)
    ensures
        r@ == dependency_part(label@, *c),
{
    let mut s = string_of(label);
    s.append(" ");
    if c.connected {
        s.append("\u{2705}");
    } else {
        s.append("\u{274C}");
    }
    s.append(" (");
    push_decimal(&mut s, c.latency.as_millis());
    s.append("ms)");
    s
}

fn push_optional_part(parts: &mut Vec<String>, label: &str, c: &Option<DependencyCheck>)
    ensures
        views(final(parts)@) == views(old(parts)@) + optional_part(label@, *c),
{
    match c {
        Some(check) => {
            let part = dependency_part_string(label, check);
            parts.push(part);
            assert(views(parts@) =~= views(old(parts)@) + optional_part(label@, *c));
        },
        None => {
            assert(views(parts@) =~= views(old(parts)@) + optional_part(label@, *c));
        },
    }
}

/// The summary entries of the configured dependencies: database, Redis, NATS.
pub fn dependency_summary(d: &DependencyStatus) -> (r: Vec<String>)
    ensures
        views(r@) == dependency_parts(*d),
{
    let mut parts: Vec<String> = Vec::new();
    assert(views(parts@) =~= Seq::<Seq<char>>::empty());
    push_optional_part(&mut parts, "Database", &d.database);
    push_optional_part(&mut parts, "Redis", &d.redis);
    push_optional_part(&mut parts, "NATS", &d.nats);
    assert(views(parts@) =~= dependency_parts(*d));
    parts
}

/// Whether the success embed can be built for the report: its image tag and version
/// are cut on character boundaries.
pub fn can_build_success_embed(report: &StartupReport) -> (r: bool)
    ensures
        r == success_embed_ok(*report),
{
    crate::discord::format::can_truncate(report.image_tag.as_str(), 40)
        && crate::discord::format::can_truncate(report.git_sha.as_str(), 12)
}

/// Whether the failure embed can be built for the report and the error: the image tag
/// and a long error are cut on character boundaries.
pub fn can_build_failure_embed(report: &StartupReport, error: &str) -> (r: bool)
    ensures
        r == failure_embed_ok(*report, error@),
{
    crate::discord::format::can_truncate(report.image_tag.as_str(), 40) && (error.as_bytes().len()
        <= 500 || error.is_char_boundary(497))
}

/// Unified notification client for Discord and Grafana.
pub struct NotificationClient {
    service_name: String,
    config: NotificationConfig,
    discord_client: Option<reqwest::Client>,
    grafana_client: Option<GrafanaClient>,
}

/// What to send about a startup event: a Discord message, a Grafana annotation, both or
/// neither.
pub struct NotificationPlan {
    pub discord: Option<DiscordWebhook>,
    pub grafana: Option<AnnotationDraft>,
}

/// The text and tags of a Grafana annotation.
pub struct AnnotationDraft {
    pub text: String,
    pub tags: Vec<String>,
}

impl NotificationClient {
    pub closed spec fn spec_service_name(&self) -> Seq<char> {
        self.service_name@
    }

    pub closed spec fn spec_config(&self) -> NotificationConfig {
        self.config
    }

    /// Whether Discord messages can be sent: an HTTP client for the webhook was built.
    pub closed spec fn spec_has_discord(&self) -> bool {
        self.discord_client is Some
    }

    /// Whether Grafana annotations can be posted.
    pub closed spec fn spec_has_grafana(&self) -> bool {
        self.grafana_client is Some
    }

    /// Creates the client for a service. An HTTP client with a ten-second timeout is
    /// built for Discord when a webhook URL is configured.
    pub fn new(service_name: &str, config: NotificationConfig, grafana_client: Option<GrafanaClient>) -> (r: Self)
        ensures
            r.spec_service_name() == service_name@,
            r.spec_config() == config,
            r.spec_has_discord() ==> config.webhook_url is Some,
            r.spec_has_grafana() == grafana_client is Some,
    {
        let discord_client = if config.webhook_url.is_some() {
            build_http_client(10)
        } else {
            None
        };
        NotificationClient { service_name: string_of(service_name), config, discord_client, grafana_client }
    }

    /// The service name.
    pub fn service_name(&self) -> (r: &str)
        ensures
            r@ == self.spec_service_name(),
    {
        self.service_name.as_str()
    }

    /// The configuration.
    pub fn config(&self) -> (r: &NotificationConfig)
        ensures
            *r == self.spec_config(),
    {
        &self.config
    }

    /// The HTTP client for Discord, if one was built.
    pub fn discord_client(&self) -> (r: Option<&reqwest::Client>)
        ensures
            r is Some == self.spec_has_discord(),
    {
        self.discord_client.as_ref()
    }

    /// The Grafana client, if there is one.
    pub fn grafana_client(&self) -> (r: Option<&GrafanaClient>)
        ensures
            r is Some == self.spec_has_grafana(),
    {
        self.grafana_client.as_ref()
    }

    /// The circuit breaker configuration that guards notifications: named
    /// `notifications`, opening after 3 failures, closing after 2 successes, testing
    /// recovery after 60 seconds.
    pub fn breaker_config() -> (r: CircuitBreakerConfig)
        ensures
            r.name@ == "notifications"@,
            r.failure_threshold == 3,
            r.success_threshold == 2,
            r.open_timeout@ == 60_000_000_000,
            r.half_open_max_requests == 3,
    {
        CircuitBreakerConfig::new("notifications").with_failure_threshold(3).with_success_threshold(
            2,
        ).with_open_timeout(TimeSpan::from_secs(60))
    }

    fn author(&self) -> (r: DiscordAuthor)
        ensures
            r@ == (LineView { text: author_line(self.spec_service_name(), self.spec_config()), icon_url: None }),
    {
        let mut name = capitalize_service(self.service_name.as_str());
        name.append(" | ");
        name.append(self.config.cluster_name.as_str());
        name.append(" | ");
        name.append(self.config.environment.as_str());
        DiscordAuthor { name, icon_url: None }
    }

    fn footer(&self) -> (r: DiscordFooter)
        ensures
            r@ == (LineView { text: footer_line(self.spec_config()), icon_url: None }),
    {
        let mut text = String::from_str(self.config.cluster_name.as_str());
        text.append(" / ");
        text.append(self.config.environment.as_str());
        DiscordFooter { text, icon_url: None }
    }

    /// The startup-success embed for the report, stamped with `timestamp`.
    pub fn success_embed_at(&self, report: &StartupReport, timestamp: String) -> (r: DiscordEmbed)
        requires
            success_embed_ok(*report),
        ensures
            r@ == success_embed(self.spec_service_name(), self.spec_config(), *report, timestamp@),
            r@.fields[0] == (FieldView {
                name: "Pod"@,
                value: "`"@ + report.pod_identity.pod_name@ + "`"@,
                inline: true,
            }),
            r@.fields[1] == (FieldView {
                name: "Namespace"@,
                value: "`"@ + report.pod_identity.pod_namespace@ + "`"@,
                inline: true,
            }),
            r@.fields[2] == (FieldView {
                name: "Node"@,
                value: "`"@ + report.pod_identity.node_name@ + "`"@,
                inline: true,
            }),
            r@.fields[3] == (FieldView {
                name: "Image Tag"@,
                value: "`"@ + truncated(report.image_tag@, 40) + "`"@,
                inline: true,
            }),
            r@.fields[4] == (FieldView {
                name: "Run Mode"@,
                value: "`"@ + report.run_mode@ + "`"@,
                inline: true,
            }),
            r@.fields[5] == (FieldView {
                name: "Version"@,
                value: "`"@ + truncated(report.git_sha@, 12) + "`"@,
                inline: true,
            }),
    {
        proof {
            lemma_success_fields_show_report(*report);
        }
        let pod = &report.pod_identity;
        let mut fields: Vec<DiscordField> = Vec::new();
        fields.push(make_field("Pod", backtick_string(pod.pod_name.as_str()), true));
        fields.push(make_field("Namespace", backtick_string(pod.pod_namespace.as_str()), true));
        fields.push(make_field("Node", backtick_string(pod.node_name.as_str()), true));
        let image = truncate_tag(report.image_tag.as_str(), 40);
        fields.push(make_field("Image Tag", backtick_string(image.as_str()), true));
        fields.push(make_field("Run Mode", backtick_string(report.run_mode.as_str()), true));
        let version = truncate_tag(report.git_sha.as_str(), 12);
        fields.push(make_field("Version", backtick_string(version.as_str()), true));
        fields.push(make_field("Startup Duration", format_duration(report.total_duration), true));
        let ghost base = seq![
            field("Pod"@, backticked(report.pod_identity.pod_name@), true),
            field("Namespace"@, backticked(report.pod_identity.pod_namespace@), true),
            field("Node"@, backticked(report.pod_identity.node_name@), true),
            field("Image Tag"@, backticked(truncated(report.image_tag@, 40)), true),
            field("Run Mode"@, backticked(report.run_mode@), true),
            field("Version"@, backticked(truncated(report.git_sha@, 12)), true),
            field("Startup Duration"@, duration_field(report.total_duration@), true),
        ];
        assert(fields@.map_values(|f: DiscordField| f@) =~= base);
        let parts = dependency_summary(&report.dependency_status);
        let ghost deps = dependency_parts(report.dependency_status);
        let ghost with_deps = if deps.len() > 0 {
            base.push(field("Dependencies"@, join(deps, ", "@), false))
        } else {
            base
        };
        if parts.len() > 0 {
            let summary = join_strings(&parts, ", ");
            fields.push(make_field("Dependencies", summary, false));
        }
        assert(fields@.map_values(|f: DiscordField| f@) =~= with_deps);
        if report.phases.len() > 0 {
            let block = report.phases_code_block();
            fields.push(make_field("Phases", block, false));
        }
        assert(fields@.map_values(|f: DiscordField| f@) =~= success_fields(*report));
        DiscordEmbed {
            title: Some(string_of("\u{1F7E2} Service Started")),
            description: None,
            color: Some(colors::SUCCESS),
            fields,
            author: Some(self.author()),
            footer: Some(self.footer()),
            timestamp: Some(timestamp),
        }
    }

    /// The startup-success embed for the report, stamped with the present time (RFC 3339,
    /// read from the clock).
    pub fn build_success_embed(&self, report: &StartupReport) -> (r: DiscordEmbed)
        requires
            success_embed_ok(*report),
        ensures
            r.timestamp is Some,
            r@ == success_embed(
                self.spec_service_name(),
                self.spec_config(),
                *report,
                r.timestamp->0@,
            ),
    {
        self.success_embed_at(report, utc_now_rfc3339())
    }

    /// The startup-failure embed for the report and the error, stamped with `timestamp`.
    pub fn failure_embed_at(&self, report: &StartupReport, error: &str, timestamp: String) -> (r:
        DiscordEmbed)
        requires
            failure_embed_ok(*report, error@),
        ensures
            r@ == failure_embed(
                self.spec_service_name(),
                self.spec_config(),
                *report,
                error@,
                timestamp@,
            ),
            r@.fields[0] == (FieldView {
                name: "Pod"@,
                value: "`"@ + report.pod_identity.pod_name@ + "`"@,
                inline: true,
            }),
            r@.fields[1] == (FieldView {
                name: "Namespace"@,
                value: "`"@ + report.pod_identity.pod_namespace@ + "`"@,
                inline: true,
            }),
    {
        proof {
            lemma_failure_fields_show_report(*report);
        }
        let description = error_display(error);
        let pod = &report.pod_identity;
        let mut fields: Vec<DiscordField> = Vec::new();
        fields.push(make_field("Pod", backtick_string(pod.pod_name.as_str()), true));
        fields.push(make_field("Namespace", backtick_string(pod.pod_namespace.as_str()), true));
        let image = truncate_tag(report.image_tag.as_str(), 40);
        fields.push(make_field("Image Tag", backtick_string(image.as_str()), true));
        fields.push(make_field("Duration", format_duration(report.total_duration), true));
        let ghost base = seq![
            field("Pod"@, backticked(report.pod_identity.pod_name@), true),
            field("Namespace"@, backticked(report.pod_identity.pod_namespace@), true),
            field("Image Tag"@, backticked(truncated(report.image_tag@, 40)), true),
            field("Duration"@, duration_field(report.total_duration@), true),
        ];
        assert(fields@.map_values(|f: DiscordField| f@) =~= base);
        let ghost with_phase = match first_failed_phase(report.phases@) {
            Some((name, e)) => base.push(field("Failed Phase"@, "`"@ + name + "` - "@ + e, false)),
            None => base,
        };
        match first_failed_index(&report.phases) {
            Some(i) => {
                let phase = &report.phases[i];
                match &phase.status {
                    PhaseStatus::Failed(e) => {
                        let mut value = string_of("`");
                        value.append(phase.name.as_str());
                        value.append("` - ");
                        value.append(e.as_str());
                        let ghost prev = fields@;
                        fields.push(make_field("Failed Phase", value, false));
                        assert(first_failed_phase(report.phases@) == Some((phase.name@, e@)));
                        assert(fields@.map_values(|f: DiscordField| f@) =~= prev.map_values(
                            |f: DiscordField| f@,
                        ).push(field("Failed Phase"@, "`"@ + phase.name@ + "` - "@ + e@, false)));
                    },
                    _ => {},
                }
            },
            None => {},
        }
        assert(fields@.map_values(|f: DiscordField| f@) =~= with_phase);
        let mut commands = string_of("```\nkubectl logs ");
        commands.append(pod.pod_name.as_str());
        commands.append(" -n ");
        commands.append(pod.pod_namespace.as_str());
        commands.append(" --tail=100\nkubectl describe pod ");
        commands.append(pod.pod_name.as_str());
        commands.append(" -n ");
        commands.append(pod.pod_namespace.as_str());
        commands.append("\n```");
        fields.push(make_field("Debug Commands", commands, false));
        assert(fields@.map_values(|f: DiscordField| f@) =~= failure_fields(*report));
        DiscordEmbed {
            title: Some(string_of("\u{274C} Service Startup Failed")),
            description: Some(description),
            color: Some(colors::FAILURE),
            fields,
            author: Some(self.author()),
            footer: Some(self.footer()),
            timestamp: Some(timestamp),
        }
    }

    /// The startup-failure embed for the report and the error, stamped with the present
    /// time (RFC 3339, read from the clock).
    pub fn build_failure_embed(&self, report: &StartupReport, error: &str) -> (r: DiscordEmbed)
        requires
            failure_embed_ok(*report, error@),
        ensures
            r.timestamp is Some,
            r@ == failure_embed(
                self.spec_service_name(),
                self.spec_config(),
                *report,
                error@,
                r.timestamp->0@,
            ),
    {
        self.failure_embed_at(report, error, utc_now_rfc3339())
    }
}

/// The error as a code block, a long error cut to its first 497 bytes.
pub fn error_display(error: &str) -> (r: String)
    requires
        error_ok(error@),
    ensures
        r@ == error_block(error@),
{
    let mut d = string_of("```\n");
    if error.as_bytes().len() > 500 {
        let (head, _) = error.split_at(497);
        proof {
            assert(encode_utf8(head@) == encode_utf8(error@).subrange(0, 497));
        }
        d.append(head);
        d.append("...\n```");
    } else {
        d.append(error);
        d.append("\n```");
    }
    d
}

/// The index of the first failed phase, if any.
pub fn first_failed_index(phases: &Vec<StartupPhase>) -> (r: Option<usize>)
    ensures
        match r {
            Some(i) => i < phases@.len() && (match phases@[i as int].status {
                PhaseStatus::Failed(e) => first_failed_phase(phases@) == Some(
                    (phases@[i as int].name@, e@),
                ),
                _ => false,
            }),
            None => first_failed_phase(phases@) is None,
        },
{
    let n = phases.len();
    let mut i: usize = 0;
    assert(phases@.subrange(0, n as int) =~= phases@);
    while i < n
        invariant
            n == phases@.len(),
            0 <= i <= n,
            first_failed_phase(phases@) == first_failed_phase(phases@.subrange(i as int, n as int)),
        decreases n - i,
    {
        let ghost rest = phases@.subrange(i as int, n as int);
        assert(rest[0] == phases@[i as int]);
        match &phases[i].status {
            PhaseStatus::Failed(_) => {
                return Some(i);
            },
            _ => {},
        }
        assert(rest.drop_first() =~= phases@.subrange(i + 1, n as int));
        i = i + 1;
    }
    assert(phases@.subrange(n as int, n as int) =~= Seq::<StartupPhase>::empty());
    None
}


fn mention(prefix: &str, id: &str) -> (r: String)
    ensures
        r@ == prefix@ + id@ + ">"@,
{
    let mut s = string_of(prefix);
    s.append(id);
    s.append(">");
    s
}

fn annotation_tag_list(report: &StartupReport, event: &str) -> (r: Vec<String>)
    ensures
        views(r@) == annotation_tags(*report, event@),
{
    let mut tags: Vec<String> = Vec::new();
    let mut t = string_of("service:");
    t.append(report.service_name.as_str());
    tags.push(t);
    let mut t = string_of("environment:");
    t.append(report.environment.as_str());
    tags.push(t);
    let mut t = string_of("cluster:");
    t.append(report.cluster_name.as_str());
    tags.push(t);
    tags.push(string_of(event));
    assert(views(tags@) =~= annotation_tags(*report, event@));
    tags
}

/// The Grafana annotation about a successful startup.
pub fn success_annotation(report: &StartupReport) -> (r: AnnotationDraft)
    ensures
        draft_is(r, success_annotation_text(*report), annotation_tags(*report, "event:startup_success"@)),
{
    let mut text = String::from_str(report.service_name.as_str());
    text.append(" started on ");
    text.append(report.pod_identity.pod_name.as_str());
    text.append(" (");
    text.append(report.image_tag.as_str());
    text.append(")");
    AnnotationDraft { text, tags: annotation_tag_list(report, "event:startup_success") }
}

/// The Grafana annotation about a failed startup.
pub fn failure_annotation(report: &StartupReport, error: &str) -> (r: AnnotationDraft)
    ensures
        draft_is(
            r,
            failure_annotation_text(*report, error@),
            annotation_tags(*report, "event:startup_failure"@),
        ),
{
    let mut text = String::from_str(report.service_name.as_str());
    text.append(" FAILED on ");
    text.append(report.pod_identity.pod_name.as_str());
    text.append(" (");
    text.append(report.image_tag.as_str());
    text.append("): ");
    text.append(error);
    AnnotationDraft { text, tags: annotation_tag_list(report, "event:startup_failure") }
}

impl NotificationClient {
    /// Whether a startup-success message goes to Discord.
    pub open spec fn sends_discord_success(&self) -> bool {
        &&& self.spec_config().notify_on_startup
        &&& self.spec_has_discord()
        &&& self.spec_config().webhook_url is Some
    }

    /// Whether a startup-failure message goes to Discord.
    pub open spec fn sends_discord_failure(&self) -> bool {
        &&& self.spec_config().notify_on_failure
        &&& self.spec_has_discord()
        &&& self.spec_config().webhook_url is Some
    }

    /// The two Discord switches are independent: a startup-success message goes out
    /// exactly when startup notifications are on and a webhook is configured whose client
    /// was built, whatever the failure switch says; a startup-failure message goes out
    /// exactly when failure notifications are on and a webhook is configured whose client
    /// was built, whatever the startup switch says.
    pub proof fn lemma_discord_switches(&self)
        ensures
            self.sends_discord_success() == (self.spec_config().notify_on_startup
                && self.spec_has_discord() && self.spec_config().webhook_url is Some),
            self.sends_discord_failure() == (self.spec_config().notify_on_failure
                && self.spec_has_discord() && self.spec_config().webhook_url is Some),
    {
    }

    /// The mentions for a failure message: the role, then the users, separated by
    /// spaces; nothing when there is no one to mention.
    pub fn failure_mentions(&self) -> (r: Option<String>)
        ensures
            opt_view(r) == mention_content(self.spec_config()),
    {
        let mut parts: Vec<String> = Vec::new();
        match &self.config.failure_mention_role {
            Some(role) => {
                parts.push(mention("<@&", role.as_str()));
            },
            None => {},
        }
        let ghost head = views(parts@);
        let users = &self.config.failure_mention_users;
        let ghost user_parts = views(users@).map_values(|u: Seq<char>| "<@"@ + u + ">"@);
        let n = users.len();
        let mut i: usize = 0;
        while i < n
            invariant
                n == users@.len(),
                0 <= i <= n,
                views(parts@) == head + user_parts.subrange(0, i as int),
                user_parts == views(users@).map_values(|u: Seq<char>| "<@"@ + u + ">"@),
            decreases n - i,
        {
            let m = mention("<@", users[i].as_str());
            assert(views(users@)[i as int] == users@[i as int]@);
            assert(user_parts[i as int] == m@);
            let ghost prev = parts@;
            parts.push(m);
            assert(views(parts@) =~= views(prev).push(user_parts[i as int]));
            assert(head + user_parts.subrange(0, i + 1) =~= (head + user_parts.subrange(0, i as int)).push(user_parts[i as int]));
            i = i + 1;
        }
        assert(user_parts.subrange(0, n as int) =~= user_parts);
        assert(views(parts@) =~= mention_parts(self.spec_config()));
        if parts.len() == 0 {
            None
        } else {
            Some(join_strings(&parts, " "))
        }
    }

    /// What to send about a successful startup, the Discord embed stamped with
    /// `timestamp`: nothing when startup notifications are off; a Discord message when a
    /// webhook is configured and its client was built; a Grafana annotation when a
    /// Grafana client is present.
    pub fn plan_startup_success_at(&self, report: &StartupReport, timestamp: String) -> (r:
        NotificationPlan)
        requires
            self.sends_discord_success() ==> success_embed_ok(*report),
        ensures
            r.discord is Some == (self.spec_config().notify_on_startup && self.spec_has_discord()
                && self.spec_config().webhook_url is Some),
            !self.spec_config().notify_on_startup ==> r.discord is None && r.grafana is None,
            r.discord is Some ==> r.discord->0@ == success_webhook(
                self.spec_service_name(),
                self.spec_config(),
                *report,
                timestamp@,
            ),
            r.grafana is Some == (self.spec_config().notify_on_startup && self.spec_has_grafana()),
            r.grafana is Some ==> draft_is(
                r.grafana->0,
                success_annotation_text(*report),
                annotation_tags(*report, "event:startup_success"@),
            ),
    {
        if !self.config.notify_on_startup {
            return NotificationPlan { discord: None, grafana: None };
        }
        let discord = if self.discord_client.is_some() && self.config.webhook_url.is_some() {
            let embed = self.success_embed_at(report, timestamp);
            let mut embeds: Vec<DiscordEmbed> = Vec::new();
            embeds.push(embed);
            let webhook = DiscordWebhook {
                username: Some(String::from_str(self.config.username.as_str())),
                avatar_url: None,
                content: None,
                embeds,
            };
            assert(webhook@.embeds =~= seq![
                success_embed(self.spec_service_name(), self.spec_config(), *report, timestamp@),
            ]);
            Some(webhook)
        } else {
            None
        };
        let grafana = if self.grafana_client.is_some() {
            Some(success_annotation(report))
        } else {
            None
        };
        NotificationPlan { discord, grafana }
    }

    /// What to send about a successful startup, the Discord embed stamped with the
    /// present time (read from the clock); see `plan_startup_success_at`.
    pub fn plan_startup_success(&self, report: &StartupReport) -> (r: NotificationPlan)
        requires
            self.sends_discord_success() ==> success_embed_ok(*report),
        ensures
            r.discord is Some == (self.spec_config().notify_on_startup && self.spec_has_discord()
                && self.spec_config().webhook_url is Some),
            !self.spec_config().notify_on_startup ==> r.discord is None && r.grafana is None,
            r.discord is Some ==> exists|timestamp: Seq<char>|
                r.discord->0@ == success_webhook(
                    self.spec_service_name(),
                    self.spec_config(),
                    *report,
                    timestamp,
                ),
            r.grafana is Some == (self.spec_config().notify_on_startup && self.spec_has_grafana()),
            r.grafana is Some ==> draft_is(
                r.grafana->0,
                success_annotation_text(*report),
                annotation_tags(*report, "event:startup_success"@),
            ),
    {
        let timestamp = utc_now_rfc3339();
        let ghost ts = timestamp@;
        let r = self.plan_startup_success_at(report, timestamp);
        assert(r.discord is Some ==> r.discord->0@ == success_webhook(
            self.spec_service_name(),
            self.spec_config(),
            *report,
            ts,
        ));
        r
    }

    /// What to send about a failed startup, the Discord embed stamped with `timestamp`:
    /// nothing when failure notifications are off; a Discord message, mentioning the
    /// configured role and users, when a webhook is configured and its client was built;
    /// a Grafana annotation when a Grafana client is present.
    pub fn plan_startup_failure_at(&self, report: &StartupReport, error: &str, timestamp: String) -> (r:
        NotificationPlan)
        requires
            self.sends_discord_failure() ==> failure_embed_ok(*report, error@),
        ensures
            r.discord is Some == (self.spec_config().notify_on_failure && self.spec_has_discord()
                && self.spec_config().webhook_url is Some),
            !self.spec_config().notify_on_failure ==> r.discord is None && r.grafana is None,
            r.discord is Some ==> r.discord->0@ == failure_webhook(
                self.spec_service_name(),
                self.spec_config(),
                *report,
                error@,
                timestamp@,
            ),
            r.grafana is Some == (self.spec_config().notify_on_failure && self.spec_has_grafana()),
            r.grafana is Some ==> draft_is(
                r.grafana->0,
                failure_annotation_text(*report, error@),
                annotation_tags(*report, "event:startup_failure"@),
            ),
    {
        if !self.config.notify_on_failure {
            return NotificationPlan { discord: None, grafana: None };
        }
        let discord = if self.discord_client.is_some() && self.config.webhook_url.is_some() {
            let embed = self.failure_embed_at(report, error, timestamp);
            let content = self.failure_mentions();
            let mut embeds: Vec<DiscordEmbed> = Vec::new();
            embeds.push(embed);
            let webhook = DiscordWebhook {
                username: Some(String::from_str(self.config.username.as_str())),
                avatar_url: None,
                content,
                embeds,
            };
            assert(webhook@.embeds =~= seq![
                failure_embed(
                    self.spec_service_name(),
                    self.spec_config(),
                    *report,
                    error@,
                    timestamp@,
                ),
            ]);
            Some(webhook)
        } else {
            None
        };
        let grafana = if self.grafana_client.is_some() {
            Some(failure_annotation(report, error))
        } else {
            None
        };
        NotificationPlan { discord, grafana }
    }

    /// What to send about a failed startup, the Discord embed stamped with the present
    /// time (read from the clock); see `plan_startup_failure_at`.
    pub fn plan_startup_failure(&self, report: &StartupReport, error: &str) -> (r: NotificationPlan)
        requires
            self.sends_discord_failure() ==> failure_embed_ok(*report, error@),
        ensures
            r.discord is Some == (self.spec_config().notify_on_failure && self.spec_has_discord()
                && self.spec_config().webhook_url is Some),
            !self.spec_config().notify_on_failure ==> r.discord is None && r.grafana is None,
            r.discord is Some ==> exists|timestamp: Seq<char>|
                r.discord->0@ == failure_webhook(
                    self.spec_service_name(),
                    self.spec_config(),
                    *report,
                    error@,
                    timestamp,
                ),
            r.grafana is Some == (self.spec_config().notify_on_failure && self.spec_has_grafana()),
            r.grafana is Some ==> draft_is(
                r.grafana->0,
                failure_annotation_text(*report, error@),
                annotation_tags(*report, "event:startup_failure"@),
            ),
    {
        let timestamp = utc_now_rfc3339();
        let ghost ts = timestamp@;
        let r = self.plan_startup_failure_at(report, error, timestamp);
        assert(r.discord is Some ==> r.discord->0@ == failure_webhook(
            self.spec_service_name(),
            self.spec_config(),
            *report,
            error@,
            ts,
        ));
        r
    }
}


/// The identity fields of the startup-success embed show the report fields they name,
/// each between backticks and in this order: the pod, its namespace, its node, the image
/// tag (cut to 40 bytes), the run mode, the version (cut to 12 bytes) and the startup
/// duration. A dependencies field follows when any dependency is configured, then a
/// phases field when the report has phases.
pub proof fn lemma_success_fields_show_report(report: StartupReport)
    ensures
        success_fields(report).len() == 7 + (if dependency_parts(report.dependency_status).len()
            > 0 {
            1int
        } else {
            0int
        }) + (if report.phases@.len() > 0 {
            1int
        } else {
            0int
        }),
        success_fields(report)[0] == (FieldView {
            name: "Pod"@,
            value: "`"@ + report.pod_identity.pod_name@ + "`"@,
            inline: true,
        }),
        success_fields(report)[1] == (FieldView {
            name: "Namespace"@,
            value: "`"@ + report.pod_identity.pod_namespace@ + "`"@,
            inline: true,
        }),
        success_fields(report)[2] == (FieldView {
            name: "Node"@,
            value: "`"@ + report.pod_identity.node_name@ + "`"@,
            inline: true,
        }),
        success_fields(report)[3] == (FieldView {
            name: "Image Tag"@,
            value: "`"@ + truncated(report.image_tag@, 40) + "`"@,
            inline: true,
        }),
        success_fields(report)[4] == (FieldView {
            name: "Run Mode"@,
            value: "`"@ + report.run_mode@ + "`"@,
            inline: true,
        }),
        success_fields(report)[5] == (FieldView {
            name: "Version"@,
            value: "`"@ + truncated(report.git_sha@, 12) + "`"@,
            inline: true,
        }),
        success_fields(report)[6] == (FieldView {
            name: "Startup Duration"@,
            value: duration_field(report.total_duration@),
            inline: true,
        }),
{
}

/// The fields of the startup-failure embed show the pod, its namespace, the image tag
/// (cut to 40 bytes) and the startup duration, in this order; then the first failed
/// phase when there is one; and last the commands for inspecting that pod in that
/// namespace.
pub proof fn lemma_failure_fields_show_report(report: StartupReport)
    ensures
        failure_fields(report).len() == 5 + (if first_failed_phase(report.phases@) is Some {
            1int
        } else {
            0int
        }),
        failure_fields(report)[0] == (FieldView {
            name: "Pod"@,
            value: "`"@ + report.pod_identity.pod_name@ + "`"@,
            inline: true,
        }),
        failure_fields(report)[1] == (FieldView {
            name: "Namespace"@,
            value: "`"@ + report.pod_identity.pod_namespace@ + "`"@,
            inline: true,
        }),
        failure_fields(report)[2] == (FieldView {
            name: "Image Tag"@,
            value: "`"@ + truncated(report.image_tag@, 40) + "`"@,
            inline: true,
        }),
        failure_fields(report)[3] == (FieldView {
            name: "Duration"@,
            value: duration_field(report.total_duration@),
            inline: true,
        }),
        failure_fields(report).last() == (FieldView {
            name: "Debug Commands"@,
            value: "```\nkubectl logs "@ + report.pod_identity.pod_name@ + " -n "@
                + report.pod_identity.pod_namespace@ + " --tail=100\nkubectl describe pod "@
                + report.pod_identity.pod_name@ + " -n "@ + report.pod_identity.pod_namespace@
                + "\n```"@,
            inline: false,
        }),
{
}

/// The error shown in a failure embed is the error truncated to 500 bytes, between code
/// fences; so the shown error never exceeds 500 bytes, and an error that fits is shown
/// whole.
pub proof fn lemma_error_block_truncates(error: Seq<char>)
    requires
        error_ok(error),
    ensures
        error_block(error) == "```\n"@ + truncated(error, 500) + "\n```"@,
        encode_utf8(truncated(error, 500)).len() <= 500,
        encode_utf8(error).len() <= 500 ==> error_block(error) == "```\n"@ + error + "\n```"@,
{
    crate::discord::format::lemma_truncated_fits(error, 500);
    if encode_utf8(error).len() > 500 {
        reveal_strlit("...\n```");
        reveal_strlit("...");
        reveal_strlit("\n```");
        let head = decode_utf8(encode_utf8(error).subrange(0, 497));
        assert("...\n```"@ =~= "..."@ + "\n```"@);
        assert("```\n"@ + head + "...\n```"@ =~= "```\n"@ + (head + "..."@) + "\n```"@);
    }
}

} // verus!
