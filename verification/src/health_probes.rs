//! Dependency health probes: how the outcome of probing a dependency (a database,
//! Redis, NATS) becomes a `DependencyCheck`.
use vstd::prelude::*;

use crate::span::TimeSpan;
use crate::startup::DependencyCheck;
use crate::text::string_of;

verus! {

/// How a probe ended: it finished with a detail (`Ok`) or an error (`Err`), or it ran
/// out of time.
pub enum ProbeOutcome {
    Finished(Result<Option<String>, String>),
    TimedOut,
}

/// The check that a probe outcome gives: connected exactly when the probe finished
/// without error, with the probe's detail, its error, or `timeout (5s)` as detail.
pub open spec fn probe_check_is(c: DependencyCheck, name: Seq<char>, latency: TimeSpan, outcome: ProbeOutcome) -> bool {
    &&& c.name@ == name
    &&& c.latency == latency
    &&& match outcome {
        ProbeOutcome::Finished(Ok(detail)) => c.connected && c.detail == detail,
        ProbeOutcome::Finished(Err(e)) => !c.connected && c.detail == Some(e),
        ProbeOutcome::TimedOut => !c.connected && c.detail is Some && c.detail->0@
            == "timeout (5s)"@,
    }
}

/// The check for a dependency named `name` whose probe took `latency` and ended with
/// `outcome`.
pub fn check_from_probe(name: &str, latency: TimeSpan, outcome: ProbeOutcome) -> (r: DependencyCheck)
    ensures
        probe_check_is(r, name@, latency, outcome),
{
    match outcome {
        ProbeOutcome::Finished(Ok(detail)) => DependencyCheck {
            name: string_of(name),
            connected: true,
            latency,
            detail,
        },
        ProbeOutcome::Finished(Err(e)) => DependencyCheck {
            name: string_of(name),
            connected: false,
            latency,
            detail: Some(e),
        },
        ProbeOutcome::TimedOut => DependencyCheck {
            name: string_of(name),
            connected: false,
            latency,
            detail: Some(string_of("timeout (5s)")),
        },
    }
}

} // verus!
