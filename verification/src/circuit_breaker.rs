//! Circuit breaker protecting calls to outside services.
//!
//! - **Closed**: normal operation, requests are allowed.
//! - **Open**: the circuit is tripped, requests are rejected at once.
//! - **HalfOpen**: testing whether the service has recovered; a limited number of
//!   requests is allowed.
//!
//! The stored state is only ever `Closed` or `Open`: an `Open` breaker whose open
//! timeout has run out since its last failure *evaluates* as `HalfOpen`.
//! Every decision below is a function of the breaker's model and of one fact about
//! the clock (whether the open timeout has run out), which the `*_when` functions take
//! as an argument and the plain functions read from the monotonic clock.
//! A failure is judged against the state the breaker was in before it: a failure during
//! a half-open trial opens the breaker again with a fresh timer and a full trial window.
use vstd::prelude::*;

use crate::span::{duration_secs, duration_subsec_nanos, TimeSpan};
use crate::text::string_of;

verus! {

/// Monotonic clock readings, held opaque.
#[verifier::external_type_specification]
#[verifier::external_body]
pub struct ExInstant(std::time::Instant);

/// Calls `Instant::now`. The reading depends on the clock, so nothing is claimed of it.
#[verifier::external_body]
fn instant_now() -> std::time::Instant {
    std::time::Instant::now()
}

/// Calls `Instant::elapsed`. The span depends on the clock, so nothing is claimed of it.
#[verifier::external_body]
fn instant_elapsed(start: &std::time::Instant) -> std::time::Duration {
    start.elapsed()
}

/// Circuit breaker states.
#[derive(Clone, Copy, Debug, PartialEq, Eq, Structural)]
pub enum CircuitState {
    /// Normal operation: requests allowed.
    Closed,
    /// Circuit tripped: requests rejected.
    Open,
    /// Testing recovery: a limited number of requests allowed.
    HalfOpen,
}

impl CircuitState {
    /// The label of the state, as shown in logs.
    pub open spec fn label(self) -> Seq<char> {
        match self {
            CircuitState::Closed => "closed"@,
            CircuitState::Open => "open"@,
            CircuitState::HalfOpen => "half_open"@,
        }
    }

    /// The label of the state: `closed`, `open` or `half_open`.
    pub fn to_display_string(&self) -> (r: String)
        ensures
            r@ == self.label(),
    {
        match self {
            CircuitState::Closed => string_of("closed"),
            CircuitState::Open => string_of("open"),
            CircuitState::HalfOpen => string_of("half_open"),
        }
    }
}

/// Circuit breaker configuration.
#[derive(Clone, Debug)]
pub struct CircuitBreakerConfig {
    /// Name for logging and metrics.
    pub name: String,
    /// Number of consecutive failures that trips the circuit.
    pub failure_threshold: u32,
    /// Number of consecutive successes that closes the circuit.
    pub success_threshold: u32,
    /// Time to wait before testing recovery.
    pub open_timeout: TimeSpan,
    /// Maximum number of requests allowed while half-open.
    pub half_open_max_requests: u32,
}

impl Default for CircuitBreakerConfig {
    fn default() -> (r: Self)
        ensures
            r.name@ == "default"@,
            r.failure_threshold == 3,
            r.success_threshold == 2,
            r.open_timeout@ == 60_000_000_000,
            r.half_open_max_requests == 3,
    {
        CircuitBreakerConfig {
            name: string_of("default"),
            failure_threshold: 3,
            success_threshold: 2,
            open_timeout: TimeSpan::from_secs(60),
            half_open_max_requests: 3,
        }
    }
}

impl CircuitBreakerConfig {
    /// The default configuration under the given name.
    pub fn new(name: &str) -> (r: Self)
        ensures
            r.name@ == name@,
            r.failure_threshold == 3,
            r.success_threshold == 2,
            r.open_timeout@ == 60_000_000_000,
            r.half_open_max_requests == 3,
    {
        let d = Self::default();
        CircuitBreakerConfig { name: string_of(name), ..d }
    }

    pub fn with_failure_threshold(self, threshold: u32) -> (r: Self)
        ensures
            r.failure_threshold == threshold,
            r.name == self.name,
            r.success_threshold == self.success_threshold,
            r.open_timeout == self.open_timeout,
            r.half_open_max_requests == self.half_open_max_requests,
    {
        let mut s = self;
        s.failure_threshold = threshold;
        s
    }

    pub fn with_success_threshold(self, threshold: u32) -> (r: Self)
        ensures
            r.success_threshold == threshold,
            r.name == self.name,
            r.failure_threshold == self.failure_threshold,
            r.open_timeout == self.open_timeout,
            r.half_open_max_requests == self.half_open_max_requests,
    {
        let mut s = self;
        s.success_threshold = threshold;
        s
    }

    pub fn with_open_timeout(self, timeout: TimeSpan) -> (r: Self)
        ensures
            r.open_timeout == timeout,
            r.name == self.name,
            r.failure_threshold == self.failure_threshold,
            r.success_threshold == self.success_threshold,
            r.half_open_max_requests == self.half_open_max_requests,
    {
        let mut s = self;
        s.open_timeout = timeout;
        s
    }
}


/// The breaker's state as its decisions read it.
pub struct BreakerModel {
    /// The stored state; only `Closed` or `Open` are ever stored.
    pub state: CircuitState,
    pub consecutive_failures: u32,
    pub consecutive_successes: u32,
    /// Whether a failure time has been recorded.
    pub has_failed: bool,
    pub half_open_requests: u32,
    /// All failures recorded, counted modulo 2^64.
    pub failures_total: u64,
}

/// The model of a new breaker.
pub open spec fn initial_model() -> BreakerModel {
    BreakerModel {
        state: CircuitState::Closed,
        consecutive_failures: 0,
        consecutive_successes: 0,
        has_failed: false,
        half_open_requests: 0,
        failures_total: 0,
    }
}

/// The state a breaker acts on: an `Open` breaker whose open timeout has run out
/// since its recorded failure (`timeout_elapsed`) acts as `HalfOpen`.
pub open spec fn evaluated_state(m: BreakerModel, timeout_elapsed: bool) -> CircuitState {
    if m.state == CircuitState::Open && m.has_failed && timeout_elapsed {
        CircuitState::HalfOpen
    } else {
        m.state
    }
}

/// Asking whether a request may go: the new model and the answer.
pub open spec fn allow_step(m: BreakerModel, cfg: CircuitBreakerConfig, timeout_elapsed: bool) -> (
    BreakerModel,
    bool,
) {
    match evaluated_state(m, timeout_elapsed) {
        CircuitState::Closed => (m, true),
        CircuitState::Open => (m, false),
        CircuitState::HalfOpen => if m.half_open_requests < cfg.half_open_max_requests {
            (BreakerModel { half_open_requests: (m.half_open_requests + 1) as u32, ..m }, true)
        } else {
            (m, false)
        },
    }
}

/// Recording a success: the new model.
pub open spec fn success_step(
    m: BreakerModel,
    cfg: CircuitBreakerConfig,
    timeout_elapsed: bool,
) -> BreakerModel {
    let m1 = BreakerModel {
        consecutive_failures: 0,
        consecutive_successes: (m.consecutive_successes + 1) as u32,
        ..m
    };
    if evaluated_state(m1, timeout_elapsed) == CircuitState::HalfOpen
        && m1.consecutive_successes >= cfg.success_threshold {
        BreakerModel {
            state: CircuitState::Closed,
            consecutive_successes: 0,
            half_open_requests: 0,
            ..m1
        }
    } else {
        m1
    }
}

/// Recording a failure: the new model. The state acted on is the one before the
/// failure, with `timeout_elapsed` saying whether the open timeout had run out since the
/// previous recorded failure; the failure time is then set to the present. A closed
/// breaker opens once its consecutive failures reach the threshold; a half-open breaker
/// opens again with its half-open count cleared, so that after the next open timeout a
/// full trial window follows.
pub open spec fn failure_step(
    m: BreakerModel,
    cfg: CircuitBreakerConfig,
    timeout_elapsed: bool,
) -> BreakerModel {
    let m1 = BreakerModel {
        consecutive_successes: 0,
        consecutive_failures: (m.consecutive_failures + 1) as u32,
        has_failed: true,
        failures_total: m.failures_total.wrapping_add(1),
        ..m
    };
    match evaluated_state(m, timeout_elapsed) {
        CircuitState::Closed => if m1.consecutive_failures >= cfg.failure_threshold {
            BreakerModel { state: CircuitState::Open, ..m1 }
        } else {
            m1
        },
        CircuitState::HalfOpen => BreakerModel {
            state: CircuitState::Open,
            half_open_requests: 0,
            ..m1
        },
        CircuitState::Open => m1,
    }
}


/// The mutable part of a breaker.
struct CircuitBreakerState {
    state: CircuitState,
    consecutive_failures: u32,
    consecutive_successes: u32,
    last_failure_time: Option<std::time::Instant>,
    half_open_requests: u32,
}

impl CircuitBreakerState {
    pub closed spec fn model(&self, failures_total: u64) -> BreakerModel {
        BreakerModel {
            state: self.state,
            consecutive_failures: self.consecutive_failures,
            consecutive_successes: self.consecutive_successes,
            has_failed: self.last_failure_time is Some,
            half_open_requests: self.half_open_requests,
            failures_total,
        }
    }
}

impl Default for CircuitBreakerState {
    fn default() -> (r: Self)
        ensures
            r.model(0) == initial_model(),
    {
        CircuitBreakerState {
            state: CircuitState::Closed,
            consecutive_failures: 0,
            consecutive_successes: 0,
            last_failure_time: None,
            half_open_requests: 0,
        }
    }
}

/// A circuit breaker for protecting calls to an outside service.
pub struct CircuitBreaker {
    config: CircuitBreakerConfig,
    state: CircuitBreakerState,
    failures_total: u64,
}

impl View for CircuitBreaker {
    type V = BreakerModel;

    closed spec fn view(&self) -> BreakerModel {
        self.state.model(self.failures_total)
    }
}

impl CircuitBreaker {
    /// A breaker always satisfies `breaker_inv`.
    #[verifier::type_invariant]
    spec fn reachable(self) -> bool {
        breaker_inv(self@, self.config)
    }

    /// The configuration the breaker was made with.
    pub closed spec fn spec_config(&self) -> CircuitBreakerConfig {
        self.config
    }

    /// The instant of the last recorded failure, from which the open timeout counts.
    pub closed spec fn spec_last_failure(&self) -> Option<std::time::Instant> {
        self.state.last_failure_time
    }

    /// A failure has been recorded exactly when there is a last failure instant.
    pub proof fn lemma_has_failed(&self)
        ensures
            self@.has_failed == (self.spec_last_failure() is Some),
    {
    }

    /// Creates a closed breaker with no recorded failure.
    pub fn new(config: CircuitBreakerConfig) -> (r: Self)
        ensures
            r@ == initial_model(),
            r.spec_config() == config,
            r.spec_last_failure() is None,
            breaker_inv(r@, r.spec_config()),
    {
        CircuitBreaker { config, state: CircuitBreakerState::default(), failures_total: 0 }
    }

    /// The configuration the breaker was made with.
    pub fn config(&self) -> (r: &CircuitBreakerConfig)
        ensures
            *r == self.spec_config(),
    {
        &self.config
    }

    /// The number of failures recorded, modulo 2^64.
    pub fn failures_total(&self) -> (r: u64)
        ensures
            r == self@.failures_total,
    {
        self.failures_total
    }

    /// The stored state (`Closed` or `Open`).
    pub fn stored_state(&self) -> (r: CircuitState)
        ensures
            r == self@.state,
            breaker_inv(self@, self.spec_config()),
    {
        proof {
            use_type_invariant(self);
        }
        self.state.state
    }

    /// The number of consecutive failures recorded.
    pub fn consecutive_failures(&self) -> (r: u32)
        ensures
            r == self@.consecutive_failures,
    {
        self.state.consecutive_failures
    }

    /// The number of consecutive successes recorded.
    pub fn consecutive_successes(&self) -> (r: u32)
        ensures
            r == self@.consecutive_successes,
    {
        self.state.consecutive_successes
    }

    /// Whether the open timeout has run out, given how long ago the recorded failure was:
    /// true exactly when a failure has been recorded and the whole span since it, seconds
    /// and nanoseconds, is at least the open timeout.
    pub fn timeout_reached(&self, since_failure: &TimeSpan) -> (r: bool)
        ensures
            r == (self@.has_failed && since_failure@ >= self.spec_config().open_timeout@),
    {
        self.state.last_failure_time.is_some() && since_failure.at_least(&self.config.open_timeout)
    }

    /// The time since the recorded failure, read from the monotonic clock (the whole
    /// elapsed span, seconds and nanoseconds); zero when no failure has been recorded.
    fn time_since_failure(&self) -> (r: TimeSpan)
        ensures
            !self@.has_failed ==> r@ == 0,
    {
        match &self.state.last_failure_time {
            Some(t) => {
                let elapsed = instant_elapsed(t);
                TimeSpan::from_parts(duration_secs(&elapsed), duration_subsec_nanos(&elapsed))
            },
            None => TimeSpan::zero(),
        }
    }

    /// Whether the open timeout has run out since the recorded failure, reading the
    /// monotonic clock: false when no failure has been recorded, and true whenever a
    /// failure has been recorded and the open timeout is zero. In between, the answer is
    /// the clock's.
    fn open_timeout_elapsed(&self) -> (r: bool)
        ensures
            r ==> self@.has_failed,
            self@.has_failed && self.spec_config().open_timeout@ == 0 ==> r,
    {
        let since_failure = self.time_since_failure();
        self.timeout_reached(&since_failure)
    }

    /// The state the breaker acts on, given whether the open timeout has run out since
    /// the recorded failure.
    pub fn evaluate_state_when(&self, timeout_elapsed: bool) -> (r: CircuitState)
        ensures
            r == evaluated_state(self@, timeout_elapsed),
    {
        if self.state.state == CircuitState::Open {
            if self.state.last_failure_time.is_some() && timeout_elapsed {
                return CircuitState::HalfOpen;
            }
        }
        self.state.state
    }

    /// Decides whether a request may go, given whether the open timeout has run out since
    /// the recorded failure. The failure instant is left as it is.
    pub fn should_allow_when(&mut self, timeout_elapsed: bool) -> (r: bool)
        ensures
            (final(self)@, r) == allow_step(old(self)@, old(self).spec_config(), timeout_elapsed),
            final(self).spec_config() == old(self).spec_config(),
            final(self).spec_last_failure() == old(self).spec_last_failure(),
            breaker_inv(final(self)@, final(self).spec_config()),
    {
        proof {
            use_type_invariant(&*self);
        }
        let current = self.evaluate_state_when(timeout_elapsed);
        let r = match current {
            CircuitState::Closed => true,
            CircuitState::Open => false,
            CircuitState::HalfOpen => {
                if self.state.half_open_requests < self.config.half_open_max_requests {
                    self.state.half_open_requests = self.state.half_open_requests + 1;
                    true
                } else {
                    false
                }
            },
        };
        proof {
            use_type_invariant(&*self);
        }
        r
    }

    /// Decides whether a request may go, given the time since the recorded failure: the
    /// breaker acts as half-open once that whole span is at least the open timeout. So an
    /// open breaker rejects the request before its open timeout has run out, and after it
    /// admits the request as a half-open trial while trials are left. The failure instant
    /// is left as it is.
    pub fn should_allow_after(&mut self, since_failure: &TimeSpan) -> (r: bool)
        ensures
            (final(self)@, r) == allow_step(
                old(self)@,
                old(self).spec_config(),
                old(self)@.has_failed && since_failure@ >= old(self).spec_config().open_timeout@,
            ),
            old(self)@.state == CircuitState::Closed ==> r && final(self)@ == old(self)@,
            old(self)@.state == CircuitState::Open && since_failure@
                < old(self).spec_config().open_timeout@ ==> !r && final(self)@ == old(self)@,
            old(self)@.state == CircuitState::Open && since_failure@
                >= old(self).spec_config().open_timeout@ ==> (r == (old(self)@.half_open_requests
                < old(self).spec_config().half_open_max_requests) && final(self)@.half_open_requests
                == (if r {
                old(self)@.half_open_requests + 1
            } else {
                old(self)@.half_open_requests as int
            }) && final(self)@.state == CircuitState::Open),
            final(self).spec_config() == old(self).spec_config(),
            final(self).spec_last_failure() == old(self).spec_last_failure(),
            breaker_inv(final(self)@, final(self).spec_config()),
    {
        proof {
            use_type_invariant(&*self);
        }
        let elapsed = self.timeout_reached(since_failure);
        self.should_allow_when(elapsed)
    }

    /// Records a successful request, given the time since the recorded failure: a
    /// breaker acting as half-open (open, with that whole span at least the open timeout)
    /// closes once its consecutive successes reach the success threshold. The failure
    /// instant is left as it is.
    pub fn record_success_after(&mut self, since_failure: &TimeSpan)
        requires
            old(self)@.consecutive_successes < u32::MAX,
        ensures
            final(self)@ == success_step(
                old(self)@,
                old(self).spec_config(),
                old(self)@.has_failed && since_failure@ >= old(self).spec_config().open_timeout@,
            ),
            old(self)@.state == CircuitState::Open && since_failure@
                >= old(self).spec_config().open_timeout@ && old(self)@.consecutive_successes + 1
                >= old(self).spec_config().success_threshold ==> final(self)@.state
                == CircuitState::Closed && final(self)@.consecutive_successes == 0
                && final(self)@.half_open_requests == 0,
            old(self)@.state == CircuitState::Open && (since_failure@
                < old(self).spec_config().open_timeout@ || old(self)@.consecutive_successes + 1
                < old(self).spec_config().success_threshold) ==> final(self)@.state
                == CircuitState::Open && final(self)@.consecutive_successes
                == old(self)@.consecutive_successes + 1,
            final(self)@.consecutive_failures == 0,
            final(self).spec_config() == old(self).spec_config(),
            final(self).spec_last_failure() == old(self).spec_last_failure(),
            breaker_inv(final(self)@, final(self).spec_config()),
    {
        proof {
            use_type_invariant(&*self);
        }
        let elapsed = self.timeout_reached(since_failure);
        self.record_success_when(elapsed);
    }

    /// Decides whether a request may go, reading the monotonic clock. The failure
    /// instant is left as it is.
    pub fn should_allow(&mut self) -> (r: bool)
        ensures
            (final(self)@, r) == allow_step(old(self)@, old(self).spec_config(), false)
                || (final(self)@, r) == allow_step(old(self)@, old(self).spec_config(), true),
            !old(self)@.has_failed ==> (final(self)@, r) == allow_step(
                old(self)@,
                old(self).spec_config(),
                false,
            ),
            old(self)@.has_failed && old(self).spec_config().open_timeout@ == 0 ==> (
            final(self)@,
            r,
            ) == allow_step(old(self)@, old(self).spec_config(), true),
            final(self).spec_config() == old(self).spec_config(),
            final(self).spec_last_failure() == old(self).spec_last_failure(),
            breaker_inv(final(self)@, final(self).spec_config()),
    {
        let since_failure = self.time_since_failure();
        self.should_allow_after(&since_failure)
    }

    /// Records a successful request, given whether the open timeout has run out since
    /// the recorded failure. The failure instant is left as it is.
    pub fn record_success_when(&mut self, timeout_elapsed: bool)
        requires
            old(self)@.consecutive_successes < u32::MAX,
        ensures
            final(self)@ == success_step(old(self)@, old(self).spec_config(), timeout_elapsed),
            final(self).spec_config() == old(self).spec_config(),
            final(self).spec_last_failure() == old(self).spec_last_failure(),
            breaker_inv(final(self)@, final(self).spec_config()),
    {
        proof {
            use_type_invariant(&*self);
        }
        let current = self.evaluate_state_when(timeout_elapsed);
        let successes = self.state.consecutive_successes + 1;
        if current == CircuitState::HalfOpen && successes >= self.config.success_threshold {
            self.state.half_open_requests = 0;
            self.state.consecutive_failures = 0;
            self.state.consecutive_successes = 0;
            self.state.state = CircuitState::Closed;
        } else {
            self.state.consecutive_failures = 0;
            self.state.consecutive_successes = successes;
        }
        proof {
            use_type_invariant(&*self);
        }
    }

    /// Records a successful request, reading the monotonic clock. The failure instant is
    /// left as it is.
    pub fn record_success(&mut self)
        requires
            old(self)@.consecutive_successes < u32::MAX,
        ensures
            final(self)@ == success_step(old(self)@, old(self).spec_config(), false)
                || final(self)@ == success_step(old(self)@, old(self).spec_config(), true),
            !old(self)@.has_failed ==> final(self)@ == success_step(
                old(self)@,
                old(self).spec_config(),
                false,
            ),
            old(self)@.has_failed && old(self).spec_config().open_timeout@ == 0 ==> final(self)@
                == success_step(old(self)@, old(self).spec_config(), true),
            final(self).spec_config() == old(self).spec_config(),
            final(self).spec_last_failure() == old(self).spec_last_failure(),
            breaker_inv(final(self)@, final(self).spec_config()),
    {
        let since_failure = self.time_since_failure();
        self.record_success_after(&since_failure);
    }

    /// Records a failed request at the instant `now`, given whether the open timeout had
    /// run out since the previous recorded failure: `now` becomes the failure instant
    /// from which the open timeout counts.
    pub fn record_failure_at(&mut self, now: std::time::Instant, timeout_elapsed: bool)
        requires
            old(self)@.consecutive_failures < u32::MAX,
        ensures
            final(self)@ == failure_step(old(self)@, old(self).spec_config(), timeout_elapsed),
            final(self).spec_config() == old(self).spec_config(),
            final(self).spec_last_failure() == Some(now),
            breaker_inv(final(self)@, final(self).spec_config()),
    {
        proof {
            use_type_invariant(&*self);
        }
        let current = self.evaluate_state_when(timeout_elapsed);
        let failures = self.state.consecutive_failures + 1;
        self.failures_total = self.failures_total.wrapping_add(1);
        match current {
            CircuitState::Closed => {
                self.state.consecutive_successes = 0;
                self.state.consecutive_failures = failures;
                self.state.last_failure_time = Some(now);
                if failures >= self.config.failure_threshold {
                    self.state.state = CircuitState::Open;
                }
            },
            CircuitState::HalfOpen => {
                self.state.consecutive_successes = 0;
                self.state.consecutive_failures = failures;
                self.state.last_failure_time = Some(now);
                self.state.half_open_requests = 0;
                self.state.state = CircuitState::Open;
            },
            CircuitState::Open => {
                self.state.consecutive_successes = 0;
                self.state.consecutive_failures = failures;
                self.state.last_failure_time = Some(now);
            },
        }
        proof {
            use_type_invariant(&*self);
        }
    }

    /// Records a failed request at the present instant (read from the clock), given
    /// whether the open timeout had run out since the previous recorded failure.
    pub fn record_failure_when(&mut self, timeout_elapsed: bool)
        requires
            old(self)@.consecutive_failures < u32::MAX,
        ensures
            final(self)@ == failure_step(old(self)@, old(self).spec_config(), timeout_elapsed),
            final(self).spec_config() == old(self).spec_config(),
            final(self).spec_last_failure() is Some,
            breaker_inv(final(self)@, final(self).spec_config()),
    {
        self.record_failure_at(instant_now(), timeout_elapsed);
    }

    /// Records a failed request at the present instant, reading the monotonic clock for
    /// the time since the previous recorded failure and for the new failure instant.
    pub fn record_failure(&mut self)
        requires
            old(self)@.consecutive_failures < u32::MAX,
        ensures
            final(self)@ == failure_step(old(self)@, old(self).spec_config(), false)
                || final(self)@ == failure_step(old(self)@, old(self).spec_config(), true),
            !old(self)@.has_failed ==> final(self)@ == failure_step(
                old(self)@,
                old(self).spec_config(),
                false,
            ),
            old(self)@.has_failed && old(self).spec_config().open_timeout@ == 0 ==> final(self)@
                == failure_step(old(self)@, old(self).spec_config(), true),
            final(self).spec_config() == old(self).spec_config(),
            final(self).spec_last_failure() is Some,
            breaker_inv(final(self)@, final(self).spec_config()),
    {
        let elapsed = self.open_timeout_elapsed();
        self.record_failure_at(instant_now(), elapsed);
    }
}


/// What every reachable breaker model satisfies: the stored state is never `HalfOpen`,
/// an `Open` breaker has a recorded failure, the half-open request count stays within
/// its limit and is zero while closed, and failures and successes are never both counted
/// as consecutive.
pub open spec fn breaker_inv(m: BreakerModel, cfg: CircuitBreakerConfig) -> bool {
    &&& m.state != CircuitState::HalfOpen
    &&& m.state == CircuitState::Open ==> m.has_failed
    &&& m.half_open_requests <= cfg.half_open_max_requests
    &&& m.state == CircuitState::Closed ==> m.half_open_requests == 0
    &&& !(m.consecutive_failures > 0 && m.consecutive_successes > 0)
}

/// A new breaker satisfies the invariant.
pub proof fn lemma_initial_inv(cfg: CircuitBreakerConfig)
    ensures
        breaker_inv(initial_model(), cfg),
{
}

/// Asking, recording a success and recording a failure all keep the invariant, whatever
/// the clock says.
pub proof fn lemma_steps_keep_inv(m: BreakerModel, cfg: CircuitBreakerConfig, timeout_elapsed: bool)
    requires
        breaker_inv(m, cfg),
    ensures
        breaker_inv(allow_step(m, cfg, timeout_elapsed).0, cfg),
        m.consecutive_successes < u32::MAX ==> breaker_inv(
            success_step(m, cfg, timeout_elapsed),
            cfg,
        ),
        m.consecutive_failures < u32::MAX ==> breaker_inv(
            failure_step(m, cfg, timeout_elapsed),
            cfg,
        ),
{
}

/// A closed breaker allows every request and is left unchanged by asking.
pub proof fn lemma_closed_allows(m: BreakerModel, cfg: CircuitBreakerConfig, timeout_elapsed: bool)
    requires
        m.state == CircuitState::Closed,
    ensures
        allow_step(m, cfg, timeout_elapsed) == (m, true),
{
}

/// An open breaker whose open timeout has not run out rejects every request and is left
/// unchanged by asking.
pub proof fn lemma_open_rejects(m: BreakerModel, cfg: CircuitBreakerConfig)
    requires
        m.state == CircuitState::Open,
    ensures
        allow_step(m, cfg, false) == (m, false),
{
}

/// A failure while half-open opens the breaker again and clears the half-open count.
pub proof fn lemma_half_open_failure_reopens(m: BreakerModel, cfg: CircuitBreakerConfig)
    requires
        m.state == CircuitState::Open,
        m.has_failed,
        m.consecutive_failures < u32::MAX,
    ensures
        failure_step(m, cfg, true).state == CircuitState::Open,
        failure_step(m, cfg, true).half_open_requests == 0,
{
}

/// A failure that opens the breaker (from closed or from half-open) starts a fresh trial
/// window: the breaker rejects every request until its open timeout has run out, and
/// then allows exactly `min(n, half_open_max_requests)` of `n` requests.
pub proof fn lemma_opening_failure_gives_fresh_window(
    m: BreakerModel,
    cfg: CircuitBreakerConfig,
    timeout_elapsed: bool,
    n: nat,
)
    requires
        breaker_inv(m, cfg),
        m.consecutive_failures < u32::MAX,
        evaluated_state(m, timeout_elapsed) != CircuitState::Open,
        failure_step(m, cfg, timeout_elapsed).state == CircuitState::Open,
    ensures
        failure_step(m, cfg, timeout_elapsed).half_open_requests == 0,
        allow_step(failure_step(m, cfg, timeout_elapsed), cfg, false) == (
            failure_step(m, cfg, timeout_elapsed),
            false,
        ),
        after_requests(failure_step(m, cfg, timeout_elapsed), cfg, Seq::new(n, |i: int| true)).1
            == (if n <= cfg.half_open_max_requests {
            n
        } else {
            cfg.half_open_max_requests as nat
        }),
{
    lemma_half_open_limit(failure_step(m, cfg, timeout_elapsed), cfg, n);
}

/// An event of the breaker, with whether the open timeout had run out at it.
pub enum BreakerEvent {
    Request(bool),
    Success(bool),
    Failure(bool),
}

/// The breaker and the number of allowed requests after a run of events.
pub open spec fn after_events(m: BreakerModel, cfg: CircuitBreakerConfig, events: Seq<BreakerEvent>) -> (
    BreakerModel,
    nat,
)
    decreases events.len(),
{
    if events.len() == 0 {
        (m, 0)
    } else {
        let (prev, allowed) = after_events(m, cfg, events.drop_last());
        match events.last() {
            BreakerEvent::Request(e) => {
                let (next, ok) = allow_step(prev, cfg, e);
                (next, if ok { allowed + 1 } else { allowed })
            },
            BreakerEvent::Success(e) => (success_step(prev, cfg, e), allowed),
            BreakerEvent::Failure(e) => (failure_step(prev, cfg, e), allowed),
        }
    }
}

/// No failure is recorded in the run.
pub open spec fn without_failures(events: Seq<BreakerEvent>) -> bool {
    forall|i: int| 0 <= i < events.len() ==> !(#[trigger] events[i] is Failure)
}

/// While a breaker stays open with no failure recorded, whatever requests and
/// successes come and whatever the clock says, it allows at most
/// `half_open_max_requests` requests in all: the allowed requests are exactly those
/// counted as half-open trials. Without failures, a breaker that closes stays closed.
pub proof fn lemma_half_open_budget(m: BreakerModel, cfg: CircuitBreakerConfig, events: Seq<BreakerEvent>)
    requires
        breaker_inv(m, cfg),
        m.state == CircuitState::Open,
        without_failures(events),
    ensures
        after_events(m, cfg, events).0.state == CircuitState::Open || after_events(
            m,
            cfg,
            events,
        ).0.state == CircuitState::Closed,
        after_events(m, cfg, events).0.state == CircuitState::Open ==> after_events(
            m,
            cfg,
            events,
        ).1 + m.half_open_requests == after_events(m, cfg, events).0.half_open_requests,
        after_events(m, cfg, events).0.state == CircuitState::Open ==> after_events(
            m,
            cfg,
            events,
        ).0.half_open_requests <= cfg.half_open_max_requests,
        after_events(m, cfg, events).0.state == CircuitState::Open ==> after_events(
            m,
            cfg,
            events,
        ).1 <= cfg.half_open_max_requests,
    decreases events.len(),
{
    if events.len() > 0 {
        let init = events.drop_last();
        assert forall|i: int| 0 <= i < init.len() implies !(#[trigger] init[i] is Failure) by {
            assert(init[i] == events[i]);
        }
        lemma_half_open_budget(m, cfg, init);
        assert(!(events[events.len() - 1] is Failure));
    }
}

/// Recording a success never opens a breaker, and never turns a breaker that would
/// allow a request into one that rejects it (for the same reading of the clock).
pub proof fn lemma_success_keeps_allowing(m: BreakerModel, cfg: CircuitBreakerConfig, timeout_elapsed: bool)
    requires
        breaker_inv(m, cfg),
    ensures
        success_step(m, cfg, timeout_elapsed).state == CircuitState::Open ==> m.state
            == CircuitState::Open,
        allow_step(m, cfg, timeout_elapsed).1 ==> allow_step(
            success_step(m, cfg, timeout_elapsed),
            cfg,
            timeout_elapsed,
        ).1,
{
}

/// The breaker after a run of failures, `elapsed[i]` telling for the i-th failure
/// whether the open timeout had run out since the failure before it.
pub open spec fn after_failures(
    m: BreakerModel,
    cfg: CircuitBreakerConfig,
    elapsed: Seq<bool>,
) -> BreakerModel
    decreases elapsed.len(),
{
    if elapsed.len() == 0 {
        m
    } else {
        failure_step(after_failures(m, cfg, elapsed.drop_last()), cfg, elapsed.last())
    }
}

/// The breaker after a run of successes, `elapsed[i]` telling for the i-th success
/// whether the open timeout had run out since the recorded failure.
pub open spec fn after_successes(
    m: BreakerModel,
    cfg: CircuitBreakerConfig,
    elapsed: Seq<bool>,
) -> BreakerModel
    decreases elapsed.len(),
{
    if elapsed.len() == 0 {
        m
    } else {
        success_step(after_successes(m, cfg, elapsed.drop_last()), cfg, elapsed.last())
    }
}

/// The breaker and the number of allowed requests after a run of requests,
/// `elapsed[i]` telling for the i-th request whether the open timeout had run out.
pub open spec fn after_requests(
    m: BreakerModel,
    cfg: CircuitBreakerConfig,
    elapsed: Seq<bool>,
) -> (BreakerModel, nat)
    decreases elapsed.len(),
{
    if elapsed.len() == 0 {
        (m, 0)
    } else {
        let (prev, allowed) = after_requests(m, cfg, elapsed.drop_last());
        let (next, ok) = allow_step(prev, cfg, elapsed.last());
        (next, if ok { allowed + 1 } else { allowed })
    }
}

/// Consecutive failures trip a closed breaker: starting closed with no consecutive
/// failure, the breaker is open after `n` failures exactly when `n` is at least one and
/// at least the failure threshold, and it counts `n` consecutive failures.
pub proof fn lemma_failures_trip(m: BreakerModel, cfg: CircuitBreakerConfig, elapsed: Seq<bool>)
    requires
        m.state == CircuitState::Closed,
        m.consecutive_failures == 0,
        elapsed.len() < u32::MAX,
    ensures
        after_failures(m, cfg, elapsed).consecutive_failures == elapsed.len(),
        after_failures(m, cfg, elapsed).consecutive_successes == 0 || elapsed.len() == 0,
        (after_failures(m, cfg, elapsed).state == CircuitState::Open) <==> (elapsed.len() >= 1
            && elapsed.len() >= cfg.failure_threshold),
        after_failures(m, cfg, elapsed).state != CircuitState::HalfOpen,
    decreases elapsed.len(),
{
    if elapsed.len() > 0 {
        lemma_failures_trip(m, cfg, elapsed.drop_last());
    }
}

/// Consecutive successes close a half-open breaker: starting open with a recorded
/// failure and no consecutive success, and with the open timeout run out at each
/// success, the breaker stays open through the first `success_threshold - 1` successes
/// and is closed, with its success and half-open counts cleared, after
/// `success_threshold` of them.
pub proof fn lemma_successes_close(m: BreakerModel, cfg: CircuitBreakerConfig, n: nat)
    requires
        m.state == CircuitState::Open,
        m.has_failed,
        m.consecutive_successes == 0,
        1 <= cfg.success_threshold,
        n <= cfg.success_threshold,
    ensures
        n < cfg.success_threshold ==> after_successes(m, cfg, Seq::new(n, |i: int| true)).state
            == CircuitState::Open && after_successes(
            m,
            cfg,
            Seq::new(n, |i: int| true),
        ).consecutive_successes == n,
        after_successes(m, cfg, Seq::new(n, |i: int| true)).has_failed,
        n == cfg.success_threshold ==> after_successes(m, cfg, Seq::new(n, |i: int| true)).state
            == CircuitState::Closed && after_successes(
            m,
            cfg,
            Seq::new(n, |i: int| true),
        ).consecutive_successes == 0 && after_successes(
            m,
            cfg,
            Seq::new(n, |i: int| true),
        ).half_open_requests == 0,
    decreases n,
{
    if n > 0 {
        let prev = Seq::new((n - 1) as nat, |i: int| true);
        assert(Seq::new(n, |i: int| true).drop_last() =~= prev);
        assert(Seq::new(n, |i: int| true).last());
        lemma_successes_close(m, cfg, (n - 1) as nat);
    }
}

/// A half-open breaker allows at most `half_open_max_requests` requests: starting open
/// with a recorded failure and no half-open request, with the open timeout run out at
/// each request, exactly `min(n, half_open_max_requests)` of `n` requests are allowed.
pub proof fn lemma_half_open_limit(m: BreakerModel, cfg: CircuitBreakerConfig, n: nat)
    requires
        m.state == CircuitState::Open,
        m.has_failed,
        m.half_open_requests == 0,
    ensures
        after_requests(m, cfg, Seq::new(n, |i: int| true)).1 == (if n
            <= cfg.half_open_max_requests {
            n
        } else {
            cfg.half_open_max_requests as nat
        }),
        after_requests(m, cfg, Seq::new(n, |i: int| true)).0.half_open_requests == after_requests(
            m,
            cfg,
            Seq::new(n, |i: int| true),
        ).1,
        after_requests(m, cfg, Seq::new(n, |i: int| true)).0.state == CircuitState::Open,
        after_requests(m, cfg, Seq::new(n, |i: int| true)).0.has_failed,
    decreases n,
{
    if n > 0 {
        let prev = Seq::new((n - 1) as nat, |i: int| true);
        assert(Seq::new(n, |i: int| true).drop_last() =~= prev);
        assert(Seq::new(n, |i: int| true).last());
        lemma_half_open_limit(m, cfg, (n - 1) as nat);
    }
}


/// No request in the run came after the open timeout had run out.
pub open spec fn requests_before_timeout(events: Seq<BreakerEvent>) -> bool {
    forall|i: int| 0 <= i < events.len() ==> !(#[trigger] events[i] matches BreakerEvent::Request(true))
}

/// A fresh trial window lasts until it is used: from a breaker that satisfies the
/// invariant and has no half-open trial counted, through any run of successes and of
/// requests made before the open timeout ran out, with no failure, the breaker is closed
/// or open with no trial counted; the requests made while it is open are rejected; and
/// the first request after the open timeout is allowed when the window holds at least
/// one trial.
pub proof fn lemma_fresh_window_lasts(m: BreakerModel, cfg: CircuitBreakerConfig, events: Seq<BreakerEvent>)
    requires
        breaker_inv(m, cfg),
        m.half_open_requests == 0,
        without_failures(events),
        requests_before_timeout(events),
    ensures
        breaker_inv(after_events(m, cfg, events).0, cfg),
        after_events(m, cfg, events).0.half_open_requests == 0,
        m.state == CircuitState::Open && after_events(m, cfg, events).0.state == CircuitState::Open
            ==> after_events(m, cfg, events).1 == 0,
        cfg.half_open_max_requests >= 1 ==> allow_step(after_events(m, cfg, events).0, cfg, true).1,
    decreases events.len(),
{
    if events.len() > 0 {
        let init = events.drop_last();
        assert forall|i: int| 0 <= i < init.len() implies !(#[trigger] init[i] is Failure) by {
            assert(init[i] == events[i]);
        }
        assert forall|i: int| 0 <= i < init.len() implies !(#[trigger] init[i] matches BreakerEvent::Request(true)) by {
            assert(init[i] == events[i]);
        }
        lemma_fresh_window_lasts(m, cfg, init);
        let prev = after_events(m, cfg, init).0;
        assert(!(events[events.len() - 1] is Failure));
        assert(!(events[events.len() - 1] matches BreakerEvent::Request(true)));
        match events.last() {
            BreakerEvent::Request(e) => {
                lemma_steps_keep_inv(prev, cfg, e);
            },
            BreakerEvent::Success(e) => {
                lemma_steps_keep_inv(prev, cfg, e);
                if m.state == CircuitState::Open && after_events(m, cfg, events).0.state
                    == CircuitState::Open {
                    lemma_success_keeps_allowing(prev, cfg, e);
                }
            },
            BreakerEvent::Failure(e) => {},
        }
    }
}

/// After a failure that opens the breaker (from closed or from half-open), any run of
/// successes and of requests made before the open timeout runs out, with no further
/// failure, leaves a full trial window: while the breaker stays open those requests are
/// all rejected, and the first request after the open timeout is allowed.
pub proof fn lemma_opening_failure_window_lasts(
    m: BreakerModel,
    cfg: CircuitBreakerConfig,
    timeout_elapsed: bool,
    events: Seq<BreakerEvent>,
)
    requires
        breaker_inv(m, cfg),
        m.consecutive_failures < u32::MAX,
        evaluated_state(m, timeout_elapsed) != CircuitState::Open,
        failure_step(m, cfg, timeout_elapsed).state == CircuitState::Open,
        without_failures(events),
        requests_before_timeout(events),
        cfg.half_open_max_requests >= 1,
    ensures
        after_events(failure_step(m, cfg, timeout_elapsed), cfg, events).0.state
            == CircuitState::Open ==> after_events(failure_step(m, cfg, timeout_elapsed), cfg, events).1
            == 0,
        allow_step(after_events(failure_step(m, cfg, timeout_elapsed), cfg, events).0, cfg, true).1,
{
    lemma_steps_keep_inv(m, cfg, timeout_elapsed);
    lemma_fresh_window_lasts(failure_step(m, cfg, timeout_elapsed), cfg, events);
}

} // verus!
