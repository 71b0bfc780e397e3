# pleme-notifications

Notification infrastructure for service lifecycle events: Discord webhook
notifications, Grafana annotations and structured startup reports, with a
circuit breaker guarding the calls to outside services.

## Layout

- `src/` — the library, verified with Verus:
  - `circuit_breaker.rs`: the breaker's states and transitions, as spec functions
    (`allow_step`, `success_step`, `failure_step`) and as methods whose contracts
    are those functions; proof functions state what holds over runs of requests,
    successes and failures.
  - `startup.rs`: startup reports, dependency checks and their text forms.
  - `discord/`: notification settings, the embeds sent for startup success and
    failure, and the plan of what to send.
  - `grafana.rs`: the Grafana client and its annotation endpoint.
  - `health_probes.rs`: how a probe's outcome becomes a dependency check.
  - `span.rs`, `text.rs`: spans of time and the text helpers the contracts use.
  - `http.rs`: the `reqwest` client type and the `chrono` clock readings.
- `app/` — the service side: environment variables, HTTP delivery on tokio tasks,
  a circuit breaker shared between tasks, JSON bodies.
- `tests/` — tests of the library.
