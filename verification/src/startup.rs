//! Startup report data: what a service reports about its own startup, for
//! notifications and observability.
use vstd::prelude::*;

use crate::span::{millis_of, one_decimal_seconds, seconds_one_decimal, TimeSpan};
use crate::text::{
    decimal, join, join_strings, pad_right, pad_right_string, push_decimal, string_of, views,
};

verus! {

/// Pod identity, as the Kubernetes Downward API hands it to the pod.
#[derive(Clone, Debug)]
pub struct PodIdentity {
    pub pod_name: String,
    pub pod_namespace: String,
    pub node_name: String,
}

impl Default for PodIdentity {
    fn default() -> (r: Self)
        ensures
            r.pod_name@.len() == 0,
            r.pod_namespace@.len() == 0,
            r.node_name@.len() == 0,
    {
        PodIdentity { pod_name: String::new(), pod_namespace: String::new(), node_name: String::new() }
    }
}

/// The value of an optional setting, or `fallback` when it is missing.
pub open spec fn setting_or(value: Option<String>, fallback: Seq<char>) -> Seq<char> {
    match value {
        Some(v) => v@,
        None => fallback,
    }
}

fn value_or(value: Option<String>, fallback: &str) -> (r: String)
    ensures
        r@ == setting_or(value, fallback@),
{
    match value {
        Some(v) => v,
        None => string_of(fallback),
    }
}

impl PodIdentity {
    /// The identity from the values of `POD_NAME`, `HOSTNAME`, `POD_NAMESPACE` and
    /// `NODE_NAME` (`None` where a variable is unset or not Unicode): the pod name falls
    /// back on the host name, and every missing value on `local`.
    pub fn from_env_values(
        pod_name: Option<String>,
        hostname: Option<String>,
        pod_namespace: Option<String>,
        node_name: Option<String>,
    ) -> (r: Self)
        ensures
            r.pod_name@ == (if pod_name is Some {
                pod_name->0@
            } else {
                setting_or(hostname, "local"@)
            }),
            r.pod_namespace@ == setting_or(pod_namespace, "local"@),
            r.node_name@ == setting_or(node_name, "local"@),
    {
        let name = match pod_name {
            Some(n) => n,
            None => value_or(hostname, "local"),
        };
        PodIdentity {
            pod_name: name,
            pod_namespace: value_or(pod_namespace, "local"),
            node_name: value_or(node_name, "local"),
        }
    }
}

/// Status of a startup phase.
#[derive(Clone, Debug)]
pub enum PhaseStatus {
    Success,
    Failed(String),
    Degraded(String),
}

impl PhaseStatus {
    /// The status as text: `ok`, `failed: <error>` or `degraded: <reason>`.
    pub open spec fn text(self) -> Seq<char> {
        match self {
            PhaseStatus::Success => "ok"@,
            PhaseStatus::Failed(e) => "failed: "@ + e@,
            PhaseStatus::Degraded(r) => "degraded: "@ + r@,
        }
    }

    /// The status as text: `ok`, `failed: <error>` or `degraded: <reason>`.
    pub fn to_display_string(&self) -> (r: String)
        ensures
            r@ == self.text(),
    {
        match self {
            PhaseStatus::Success => string_of("ok"),
            PhaseStatus::Failed(e) => {
                let mut s = string_of("failed: ");
                s.append(e.as_str());
                s
            },
            PhaseStatus::Degraded(reason) => {
                let mut s = string_of("degraded: ");
                s.append(reason.as_str());
                s
            },
        }
    }
}

/// A single startup phase with its timing.
#[derive(Clone, Debug)]
pub struct StartupPhase {
    pub name: String,
    pub duration: TimeSpan,
    pub status: PhaseStatus,
    pub detail: Option<String>,
}

/// The result of checking a single dependency.
#[derive(Clone, Debug)]
pub struct DependencyCheck {
    pub name: String,
    pub connected: bool,
    pub latency: TimeSpan,
    pub detail: Option<String>,
}

/// A span in compact form: whole milliseconds below one second (`42ms`), else
/// seconds with one decimal (`1.2s`).
pub open spec fn compact_duration(total_nanos: nat) -> Seq<char> {
    if millis_of(total_nanos) < 1000 {
        decimal(millis_of(total_nanos)) + "ms"@
    } else {
        one_decimal_seconds(total_nanos) + "s"@
    }
}

/// Appends the compact form of the span.
pub fn push_compact_duration(s: &mut String, span: &TimeSpan)
    ensures
        final(s)@ == old(s)@ + compact_duration(span@),
{
    let ms = span.as_millis();
    if ms < 1000 {
        push_decimal(s, ms);
        s.append("ms");
    } else {
        let secs = seconds_one_decimal(span);
        s.append(secs.as_str());
        s.append("s");
    }
}

impl DependencyCheck {
    /// A successful check.
    pub fn ok(name: &str, latency: TimeSpan) -> (r: Self)
        ensures
            r.name@ == name@,
            r.connected,
            r.latency == latency,
            r.detail is None,
    {
        DependencyCheck { name: string_of(name), connected: true, latency, detail: None }
    }

    /// A successful check with detail.
    pub fn ok_with_detail(name: &str, latency: TimeSpan, detail: String) -> (r: Self)
        ensures
            r.name@ == name@,
            r.connected,
            r.latency == latency,
            r.detail == Some(detail),
    {
        DependencyCheck { name: string_of(name), connected: true, latency, detail: Some(detail) }
    }

    /// A failed check.
    pub fn failed(name: &str, latency: TimeSpan, error: String) -> (r: Self)
        ensures
            r.name@ == name@,
            !r.connected,
            r.latency == latency,
            r.detail == Some(error),
    {
        DependencyCheck { name: string_of(name), connected: false, latency, detail: Some(error) }
    }

    /// A skipped check: the dependency is not configured.
    pub fn skipped(name: &str) -> (r: Self)
        ensures
            r.name@ == name@,
            r.connected,
            r.latency@ == 0,
            r.detail is Some,
            r.detail->0@ == "not configured"@,
    {
        DependencyCheck {
            name: string_of(name),
            connected: true,
            latency: TimeSpan::zero(),
            detail: Some(string_of("not configured")),
        }
    }

    /// The status line of the check for a Discord embed.
    pub open spec fn status_text(self) -> Seq<char> {
        if self.connected {
            "\u{2705} OK ("@ + decimal(millis_of(self.latency@)) + "ms)"@
        } else {
            "\u{274C} FAILED"@ + match self.detail {
                Some(d) => " - "@ + d@,
                None => Seq::<char>::empty(),
            }
        }
    }

    /// The status line of the check for a Discord embed.
    pub fn status_string(&self) -> (r: String)
        ensures
            r@ == self.status_text(),
    {
        if self.connected {
            let mut s = string_of("\u{2705} OK (");
            push_decimal(&mut s, self.latency.as_millis());
            s.append("ms)");
            s
        } else {
            let mut s = string_of("\u{274C} FAILED");
            match &self.detail {
                Some(d) => {
                    s.append(" - ");
                    s.append(d.as_str());
                },
                None => {},
            }
            assert(s@ =~= self.status_text());
            s
        }
    }
}

/// Aggregated dependency status.
#[derive(Clone, Debug)]
pub struct DependencyStatus {
    pub database: Option<DependencyCheck>,
    pub redis: Option<DependencyCheck>,
    pub nats: Option<DependencyCheck>,
}

impl Default for DependencyStatus {
    fn default() -> (r: Self)
        ensures
            r.database is None,
            r.redis is None,
            r.nats is None,
    {
        DependencyStatus { database: None, redis: None, nats: None }
    }
}

/// A configured dependency is healthy when it is connected; one that is not configured
/// counts as healthy.
pub open spec fn healthy_if_configured(check: Option<DependencyCheck>) -> bool {
    check is Some ==> check->0.connected
}

impl DependencyStatus {
    /// Whether all configured dependencies are healthy.
    pub fn all_healthy(&self) -> (r: bool)
        ensures
            r == (healthy_if_configured(self.database) && healthy_if_configured(self.redis)
                && healthy_if_configured(self.nats)),
    {
        let checks = [&self.database, &self.redis, &self.nats];
        let mut i: usize = 0;
        while i < 3
            invariant
                checks@ == seq![&self.database, &self.redis, &self.nats],
                0 <= i <= 3,
                forall|j: int| 0 <= j < i ==> healthy_if_configured(*#[trigger] checks@[j]),
            decreases 3 - i,
        {
            match checks[i] {
                Some(c) => {
                    if !c.connected {
                        assert(!healthy_if_configured(*checks@[i as int]));
                        return false;
                    }
                },
                None => {},
            }
            i = i + 1;
        }
        assert(healthy_if_configured(*checks@[0]));
        assert(healthy_if_configured(*checks@[1]));
        assert(healthy_if_configured(*checks@[2]));
        true
    }
}

/// A complete startup report.
#[derive(Clone, Debug)]
pub struct StartupReport {
    pub service_name: String,
    pub image_tag: String,
    pub pod_identity: PodIdentity,
    pub cluster_name: String,
    pub environment: String,
    pub total_duration: TimeSpan,
    pub phases: Vec<StartupPhase>,
    pub dependency_status: DependencyStatus,
    pub version: String,
    pub git_sha: String,
    pub run_mode: String,
}

/// One line of the phase table: the phase name and a colon, left-aligned in 14
/// columns after two spaces, then a space and the compact duration.
pub open spec fn phase_line(p: StartupPhase) -> Seq<char> {
    "  "@ + pad_right(p.name@ + ":"@, 14) + " "@ + compact_duration(p.duration@)
}

/// The lines of the phase table.
pub open spec fn phase_lines(phases: Seq<StartupPhase>) -> Seq<Seq<char>> {
    phases.map_values(|p: StartupPhase| phase_line(p))
}

/// The phase table as a Discord code block.
pub open spec fn phases_block(phases: Seq<StartupPhase>) -> Seq<char> {
    "```\n"@ + join(phase_lines(phases), "\n"@) + "\n```"@
}

fn phase_line_string(p: &StartupPhase) -> (r: String)
    ensures
        r@ == phase_line(*p),
{
    let mut label = String::from_str(p.name.as_str());
    label.append(":");
    let padded = pad_right_string(label, 14);
    let mut s = string_of("  ");
    s.append(padded.as_str());
    s.append(" ");
    push_compact_duration(&mut s, &p.duration);
    s
}

impl StartupReport {
    /// The phases as a code block for Discord.
    pub fn phases_code_block(&self) -> (r: String)
        ensures
            r@ == phases_block(self.phases@),
    {
        let mut lines: Vec<String> = Vec::new();
        let n = self.phases.len();
        let mut i: usize = 0;
        while i < n
            invariant
                n == self.phases@.len(),
                0 <= i <= n,
                lines@.len() == i,
                views(lines@) == phase_lines(self.phases@.subrange(0, i as int)),
            decreases n - i,
        {
            let line = phase_line_string(&self.phases[i]);
            let ghost prev = lines@;
            lines.push(line);
            let ghost target = phase_lines(self.phases@.subrange(0, i + 1));
            assert forall|j: int| 0 <= j < i + 1 implies views(lines@)[j] == target[j] by {
                if j < i {
                    assert(lines@[j] == prev[j]);
                    assert(views(prev)[j] == phase_lines(self.phases@.subrange(0, i as int))[j]);
                }
            }
            assert(views(lines@) =~= target);
            i = i + 1;
        }
        assert(self.phases@.subrange(0, n as int) =~= self.phases@);
        let body = join_strings(&lines, "\n");
        let mut s = string_of("```\n");
        s.append(body.as_str());
        s.append("\n```");
        s
    }
}

} // verus!
