//! Notification infrastructure for service lifecycle events: Discord webhook
//! notifications, Grafana annotations and startup reports, with a circuit breaker
//! guarding the calls to outside services.
pub mod circuit_breaker;
pub mod discord;
pub mod grafana;
pub mod health_probes;
pub mod http;
pub mod span;
pub mod startup;
pub mod text;

pub use circuit_breaker::{CircuitBreaker, CircuitBreakerConfig, CircuitState};
pub use discord::{NotificationClient, NotificationConfig};
pub use grafana::GrafanaClient;
pub use span::TimeSpan;
pub use startup::{
    DependencyCheck, DependencyStatus, PhaseStatus, PodIdentity, StartupPhase, StartupReport,
};
