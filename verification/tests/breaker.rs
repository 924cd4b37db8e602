use linkerd_app_outbound::breaker::consecutive_failures::ConsecutiveFailures;
use linkerd_app_outbound::breaker::retry_after::{
    take_hint, GrpcRetryPushbackStore, RetryAfterStore,
};
use linkerd_app_outbound::breaker::unified::{OpenState, UnifiedBreaker, UnifiedBreakerConfig};
use linkerd_app_outbound::breaker::{floor_wait, Action, Breaker, Event, Params, Phase, TripReason};
use linkerd_app_outbound::classify::{Class, Code};
use linkerd_app_outbound::client_policy::{
    self, ExponentialBackoff, FailureAccrual, SuccessRateThreshold, Unified,
};
use linkerd_app_outbound::time::{Duration, Instant};

fn secs(n: u64) -> Duration {
    Duration::from_secs(n)
}

fn millis(n: u64) -> Duration {
    Duration::from_millis(n)
}

fn make_backoff() -> ExponentialBackoff {
    ExponentialBackoff { min: secs(1), max: secs(100), jitter_percent: 0 }
}

#[derive(Clone, Copy, Debug, PartialEq)]
enum Gate {
    Open,
    Shut,
    Limited(usize),
    Lost,
}

/// Runs a breaker against a clock of its own, with a backoff schedule that doubles.
struct Sim {
    breaker: Breaker,
    now: Instant,
    gate: Gate,
    timer: Option<Instant>,
    delay: Duration,
    http: RetryAfterStore,
    grpc: GrpcRetryPushbackStore,
}

impl Sim {
    fn new(breaker: Breaker, now: Instant) -> Self {
        Sim {
            breaker,
            now,
            gate: Gate::Open,
            timer: None,
            delay: secs(1),
            http: RetryAfterStore::new(),
            grpc: GrpcRetryPushbackStore::new(),
        }
    }

    fn unified(config: UnifiedBreakerConfig) -> Self {
        let now = Instant { nanos: 1_000 };
        Self::new(Breaker::Unified(UnifiedBreaker::new(config, now)), now)
    }

    fn policy(accrual: FailureAccrual) -> Self {
        let now = Instant { nanos: 1_000 };
        let params = Params { accrual: Some(accrual), channel_capacity: 1 };
        Self::new(params.breaker(now).expect("a policy has a breaker"), now)
    }

    fn phase(&self) -> Phase {
        match &self.breaker {
            Breaker::Consecutive(b) => b.phase,
            Breaker::Unified(b) => b.phase,
        }
    }

    fn tripped(&self) -> Option<TripReason> {
        match &self.breaker {
            Breaker::Consecutive(_) => None,
            Breaker::Unified(b) => b.tripped,
        }
    }

    fn event(&mut self, event: Event) {
        let mut action = match &mut self.breaker {
            Breaker::Consecutive(b) => b.step(event),
            Breaker::Unified(b) => b.step(event),
        };
        if let Action::ShutGate { restart_backoff } = action {
            self.gate = Gate::Shut;
            self.timer = None;
            if restart_backoff {
                self.delay = secs(1);
            }
            let delay = self.delay;
            self.delay = Duration { nanos: delay.nanos * 2 }.min(secs(100));
            let (respect, backoff) = match &self.breaker {
                Breaker::Consecutive(b) => (b.policy.respect_retry_after_hint, b.policy.backoff),
                Breaker::Unified(b) => (b.config.respect_retry_after_hint, b.config.backoff),
            };
            let hint = take_hint(respect, &backoff, &mut self.http, &mut self.grpc, self.now);
            action = match &mut self.breaker {
                Breaker::Consecutive(b) => b.step(Event::Backoff(delay, hint)),
                Breaker::Unified(b) => b.step(Event::Backoff(delay, hint)),
            };
        }
        match action {
            Action::Listen => {}
            Action::OpenGate => {
                self.gate = Gate::Open;
                self.timer = None;
            }
            Action::Wait(d) => self.timer = Some(self.now.after(d)),
            Action::Probe { permits, deadline, .. } => {
                self.gate = Gate::Limited(permits);
                self.timer = deadline.map(|d| self.now.after(d));
            }
            Action::Stop => self.gate = Gate::Lost,
            Action::ShutGate { .. } => panic!("a schedule was asked for twice"),
        }
    }

    fn advance(&mut self, d: Duration) {
        // Timers are looked at once the clock has moved on, as by a task that is polled then.
        self.now = self.now.after(d);
        while let Some(at) = self.timer {
            if at.nanos > self.now.nanos {
                break;
            }
            self.timer = None;
            if self.phase() == Phase::Probation {
                self.event(Event::ProbeTimedOut);
            } else {
                self.event(Event::WaitElapsed);
            }
        }
    }

    fn send(&mut self, class: Class) {
        self.event(Event::Response(class, self.now));
    }

    fn ok(&mut self, status: u16) {
        self.send(Class::Http(Ok(status)));
    }

    fn err(&mut self, status: u16) {
        self.send(Class::Http(Err(status)));
    }

    fn grpc(&mut self, code: Code) {
        let failure = matches!(
            code,
            Code::Unknown
                | Code::DeadlineExceeded
                | Code::PermissionDenied
                | Code::Internal
                | Code::Unavailable
                | Code::DataLoss
        );
        self.send(Class::Grpc(if failure { Err(code) } else { Ok(code) }));
    }

    fn fail(&mut self, count: usize) {
        for _ in 0..count {
            self.err(502);
            self.advance(millis(100));
        }
    }
}

fn default_config() -> UnifiedBreakerConfig {
    UnifiedBreakerConfig {
        max_failures: 3,
        threshold: 8_000,
        window: secs(10),
        backoff: make_backoff(),
        min_requests: 1,
        respect_retry_after_hint: true,
    }
}

#[test]
fn starts_open() {
    let sim = Sim::unified(default_config());
    assert_eq!(sim.phase(), Phase::Open);
}

#[test]
fn trips_on_consecutive_failures() {
    let mut sim = Sim::unified(UnifiedBreakerConfig { threshold: 0, ..default_config() });
    for i in 1..=3 {
        sim.err(502);
        sim.advance(millis(100));
        if i < 3 {
            assert_eq!(sim.gate, Gate::Open, "should still be open after {i} failures");
        }
    }
    assert_eq!(sim.gate, Gate::Shut, "should trip after 3 consecutive 5xx");
}

#[test]
fn success_resets_consecutive_count() {
    let mut sim = Sim::unified(UnifiedBreakerConfig { threshold: 0, ..default_config() });
    sim.fail(2);
    assert_eq!(sim.gate, Gate::Open);
    sim.ok(200);
    sim.advance(millis(100));
    sim.fail(2);
    assert_eq!(sim.gate, Gate::Open, "only 2 consecutive after reset");
}

#[test]
fn trips_on_low_success_rate() {
    let mut sim = Sim::unified(UnifiedBreakerConfig { max_failures: 100, ..default_config() });
    sim.ok(200);
    sim.advance(secs(1));
    for _ in 0..4 {
        sim.ok(429);
        sim.advance(secs(1));
    }
    assert_ne!(sim.gate, Gate::Open, "should trip on low success rate");
}

#[test]
fn success_rate_counts_5xx() {
    let mut sim = Sim::unified(UnifiedBreakerConfig { max_failures: 100, ..default_config() });
    sim.err(502);
    sim.advance(millis(100));
    assert_eq!(sim.gate, Gate::Shut);
}

#[test]
fn cold_start_protects_success_rate() {
    let mut sim = Sim::unified(UnifiedBreakerConfig {
        max_failures: 100,
        min_requests: 5,
        ..default_config()
    });
    for _ in 0..4 {
        sim.ok(429);
        sim.advance(secs(1));
    }
    assert_eq!(sim.gate, Gate::Open);
}

#[test]
fn probation_success_reopens() {
    let mut sim = Sim::unified(default_config());
    sim.fail(3);
    assert_eq!(sim.gate, Gate::Shut);
    sim.advance(secs(1));
    assert_eq!(sim.gate, Gate::Limited(1));
    sim.ok(200);
    assert_eq!(sim.gate, Gate::Open);
}

#[test]
fn probation_failure_on_429() {
    let mut sim = Sim::unified(default_config());
    sim.fail(3);
    sim.advance(secs(1));
    assert_eq!(sim.gate, Gate::Limited(1));
    sim.ok(429);
    assert_eq!(sim.gate, Gate::Shut, "429 during probation should fail the probe");
}

#[test]
fn probation_failure_on_tolerated_server_error() {
    let mut sim = Sim::unified(default_config());
    sim.fail(3);
    sim.advance(secs(1));
    sim.ok(503);
    assert_eq!(sim.gate, Gate::Shut);
}

#[test]
fn retry_after_hint_extends_backoff() {
    let mut sim = Sim::unified(default_config());
    sim.http.record(secs(5), sim.now);
    sim.fail(3);
    assert_eq!(sim.gate, Gate::Shut);
    sim.advance(secs(1));
    assert_eq!(sim.gate, Gate::Shut);
    sim.advance(secs(3));
    assert_eq!(sim.gate, Gate::Shut);
    sim.advance(secs(1));
    assert_eq!(sim.gate, Gate::Limited(1));
}

#[test]
fn retry_after_hint_ignored_when_disabled() {
    let mut sim =
        Sim::unified(UnifiedBreakerConfig { respect_retry_after_hint: false, ..default_config() });
    sim.http.record(secs(5), sim.now);
    sim.fail(3);
    assert_eq!(sim.gate, Gate::Shut);
    sim.advance(secs(1));
    assert_eq!(sim.gate, Gate::Limited(1), "an unrespected hint must not extend the backoff");
}

#[test]
fn consecutive_failures_ignores_grpc_resource_exhausted() {
    let mut sim = Sim::unified(UnifiedBreakerConfig {
        threshold: 1_000,
        min_requests: 100,
        ..default_config()
    });
    for _ in 0..5 {
        sim.grpc(Code::ResourceExhausted);
        sim.advance(millis(100));
    }
    assert_eq!(sim.gate, Gate::Open);
}

#[test]
fn trips_on_low_success_rate_grpc_resource_exhausted() {
    let mut sim = Sim::unified(UnifiedBreakerConfig { max_failures: 100, ..default_config() });
    sim.grpc(Code::Okay);
    sim.advance(secs(1));
    for _ in 0..4 {
        sim.grpc(Code::ResourceExhausted);
        sim.advance(secs(1));
    }
    assert_ne!(sim.gate, Gate::Open);
}

#[test]
fn trips_on_low_success_rate_grpc_server_error() {
    let mut sim = Sim::unified(UnifiedBreakerConfig { max_failures: 100, ..default_config() });
    sim.grpc(Code::Okay);
    sim.advance(secs(1));
    for _ in 0..4 {
        sim.grpc(Code::Internal);
        sim.advance(secs(1));
    }
    assert_ne!(sim.gate, Gate::Open);
}

#[test]
fn probation_success_on_grpc_ok() {
    let mut sim = Sim::unified(default_config());
    sim.fail(3);
    assert_eq!(sim.gate, Gate::Shut);
    sim.advance(secs(1));
    assert_eq!(sim.gate, Gate::Limited(1));
    sim.grpc(Code::Okay);
    assert_eq!(sim.gate, Gate::Open);
}

#[test]
fn consecutive_failures_ignores_429() {
    let mut sim = Sim::unified(UnifiedBreakerConfig {
        threshold: 1_000,
        min_requests: 100,
        ..default_config()
    });
    for _ in 0..5 {
        sim.ok(429);
        sim.advance(millis(100));
    }
    assert_eq!(sim.gate, Gate::Open);
}

#[test]
fn threshold_zero_disables_success_rate() {
    let mut sim = Sim::unified(UnifiedBreakerConfig {
        max_failures: 100,
        threshold: 0,
        min_requests: 1,
        ..default_config()
    });
    sim.ok(200);
    sim.advance(secs(1));
    for _ in 0..10 {
        sim.ok(429);
        sim.advance(secs(1));
    }
    assert_eq!(sim.gate, Gate::Open);
}

#[test]
fn open_state_window_gated_on_threshold() {
    let now = Instant { nanos: 0 };
    let off = OpenState::new(false, secs(10), now);
    assert!(off.success_rate.is_none());
    let on = OpenState::new(true, secs(10), now);
    assert!(on.success_rate.is_some());
}

#[test]
fn unified_min_requests_zero_trips_on_first_failure() {
    let mut sim = Sim::unified(UnifiedBreakerConfig {
        max_failures: 100,
        threshold: 8_000,
        min_requests: 0,
        ..default_config()
    });
    assert_eq!(sim.gate, Gate::Open);
    sim.err(502);
    assert_eq!(sim.gate, Gate::Shut);
}

#[test]
fn duration_max_hint_is_clamped() {
    let mut sim = Sim::unified(default_config());
    sim.http.record(Duration::max_value(), sim.now);
    sim.fail(3);
    assert_eq!(sim.gate, Gate::Shut);
    sim.advance(secs(99));
    assert_eq!(sim.gate, Gate::Shut);
    sim.advance(secs(1));
    assert_eq!(sim.gate, Gate::Limited(1));
}

#[test]
fn backoff_resets_to_base_on_retrip() {
    let mut sim = Sim::unified(UnifiedBreakerConfig { max_failures: 2, ..default_config() });
    sim.fail(2);
    assert_eq!(sim.gate, Gate::Shut);
    sim.advance(secs(1));
    assert_eq!(sim.gate, Gate::Limited(1));
    sim.ok(200);
    sim.advance(millis(100));
    assert_eq!(sim.gate, Gate::Open);
    sim.fail(2);
    assert_eq!(sim.gate, Gate::Shut);
    sim.advance(millis(1050));
    assert_eq!(sim.gate, Gate::Limited(1), "the second trip should use the base backoff");
}

#[test]
fn both_policies_disabled_never_trips() {
    let mut sim = Sim::unified(UnifiedBreakerConfig {
        max_failures: 0,
        threshold: 0,
        ..default_config()
    });
    for _ in 0..10 {
        sim.err(502);
        sim.advance(secs(1));
        assert_eq!(sim.gate, Gate::Open);
    }
    for _ in 0..10 {
        sim.ok(429);
        sim.advance(secs(1));
        assert_eq!(sim.gate, Gate::Open);
    }
}

fn idle_config() -> UnifiedBreakerConfig {
    UnifiedBreakerConfig {
        max_failures: 100,
        threshold: 5_000,
        min_requests: 3,
        window: secs(10),
        ..default_config()
    }
}

#[test]
fn idle_reengages_cold_start_with_success() {
    let mut sim = Sim::unified(idle_config());
    sim.advance(millis(1));
    for _ in 0..3 {
        sim.ok(200);
        sim.advance(secs(1));
    }
    sim.err(502);
    sim.advance(secs(1));
    assert_eq!(sim.gate, Gate::Open);
    sim.advance(secs(200));
    sim.ok(200);
    sim.advance(millis(10));
    assert_eq!(sim.gate, Gate::Open);
    sim.err(502);
    sim.advance(millis(10));
    assert_eq!(sim.gate, Gate::Open, "2 < min_requests");
}

#[test]
fn idle_reengages_cold_start_with_failure() {
    let mut sim = Sim::unified(idle_config());
    sim.advance(millis(1));
    for _ in 0..3 {
        sim.ok(200);
        sim.advance(secs(1));
    }
    sim.err(502);
    sim.advance(secs(1));
    assert_eq!(sim.gate, Gate::Open);
    sim.advance(secs(200));
    for _ in 0..2 {
        sim.err(502);
        sim.advance(millis(10));
        assert_eq!(sim.gate, Gate::Open);
    }
    sim.err(502);
    sim.advance(millis(10));
    assert_eq!(sim.gate, Gate::Shut);
}

#[test]
fn wait_for_backoff_terminates_when_channel_closes() {
    let mut sim = Sim::unified(UnifiedBreakerConfig { max_failures: 1, ..default_config() });
    assert_eq!(sim.gate, Gate::Open);
    sim.err(500);
    assert_eq!(sim.gate, Gate::Shut);
    sim.event(Event::ResponsesClosed);
    assert_eq!(sim.phase(), Phase::Stopped);
    assert_eq!(sim.gate, Gate::Lost);
}

#[test]
fn lost_gate_stops_the_breaker_in_every_phase() {
    let mut open = Sim::unified(default_config());
    open.event(Event::GateLost);
    assert_eq!(open.phase(), Phase::Stopped);
    let mut shut = Sim::unified(default_config());
    shut.fail(3);
    shut.event(Event::GateLost);
    assert_eq!(shut.phase(), Phase::Stopped);
    shut.ok(200);
    assert_eq!(shut.phase(), Phase::Stopped);
}

#[test]
fn probation_admits_single_probe() {
    let mut sim = Sim::unified(default_config());
    sim.fail(3);
    assert_eq!(sim.gate, Gate::Shut);
    sim.advance(secs(1));
    assert_eq!(sim.gate, Gate::Limited(1));
}

#[test]
fn success_rate_recovers_after_decay() {
    let mut sim = Sim::unified(UnifiedBreakerConfig {
        max_failures: 0,
        threshold: 5_000,
        min_requests: 3,
        window: secs(10),
        ..default_config()
    });
    for _ in 0..3 {
        sim.ok(200);
        sim.advance(secs(1));
    }
    for _ in 0..8 {
        sim.ok(429);
        if sim.gate == Gate::Shut {
            break;
        }
        sim.advance(secs(1));
    }
    assert_eq!(sim.gate, Gate::Shut, "low success rate should trip");
    sim.advance(secs(1));
    assert_eq!(sim.gate, Gate::Limited(1));
    sim.ok(200);
    sim.advance(millis(10));
    assert_eq!(sim.gate, Gate::Open);
    sim.err(502);
    sim.advance(secs(1));
    assert_eq!(sim.gate, Gate::Open, "a single failure after recovery should not re-trip");
    for _ in 0..20 {
        sim.ok(200);
        sim.advance(secs(1));
        assert_eq!(sim.gate, Gate::Open);
    }
}

#[test]
fn dual_mode_success_rate_trips_before_consecutive() {
    let mut sim = Sim::unified(UnifiedBreakerConfig {
        max_failures: 5,
        threshold: 8_000,
        min_requests: 3,
        window: secs(10),
        ..default_config()
    });
    sim.ok(200);
    sim.advance(secs(1));
    let mut sent = 0;
    while sim.gate != Gate::Shut {
        assert!(sent < 4, "success rate should trip");
        sim.ok(429);
        sent += 1;
    }
    assert_eq!(sent, 2);
    assert_eq!(sim.tripped(), Some(TripReason::LowSuccessRate));
}

#[test]
fn consecutive_trip_reports_consecutive_reason() {
    let mut sim = Sim::unified(UnifiedBreakerConfig { threshold: 0, ..default_config() });
    sim.fail(3);
    assert_eq!(sim.gate, Gate::Shut);
    assert_eq!(sim.tripped(), Some(TripReason::ConsecutiveFailures));
}

#[test]
fn success_rate_trip_reports_low_success_rate_reason() {
    let mut sim = Sim::unified(UnifiedBreakerConfig {
        max_failures: 0,
        threshold: 5_000,
        min_requests: 1,
        window: secs(10),
        ..default_config()
    });
    sim.ok(200);
    sim.advance(secs(1));
    for _ in 0..8 {
        sim.ok(429);
        if sim.gate == Gate::Shut {
            break;
        }
        sim.advance(secs(1));
    }
    assert_eq!(sim.gate, Gate::Shut);
    assert_eq!(sim.tripped(), Some(TripReason::LowSuccessRate));
}

#[test]
fn simultaneous_threshold_cross_reports_consecutive_reason() {
    let mut sim = Sim::unified(UnifiedBreakerConfig { min_requests: 3, ..default_config() });
    sim.fail(3);
    assert_eq!(sim.gate, Gate::Shut);
    assert_eq!(sim.tripped(), Some(TripReason::ConsecutiveFailures));
}

#[test]
fn probe_timeout_reshuts_gate() {
    let mut sim = Sim::unified(default_config());
    sim.fail(3);
    sim.advance(secs(1));
    assert_eq!(sim.gate, Gate::Limited(1));
    sim.advance(secs(101));
    assert_eq!(sim.gate, Gate::Shut, "a timed-out probe must re-shut its gate");
    sim.advance(secs(1));
    assert_eq!(sim.gate, Gate::Shut, "the second backoff is longer than the base");
    assert_eq!(sim.delay, secs(4), "the schedule went on");
}

#[test]
fn slow_healthy_probe_within_ceiling_reopens() {
    let mut sim = Sim::unified(default_config());
    sim.fail(3);
    sim.advance(secs(1));
    sim.advance(secs(5));
    assert_eq!(sim.gate, Gate::Limited(1));
    sim.ok(200);
    assert_eq!(sim.gate, Gate::Open);
}

#[test]
fn stale_pre_trip_class_not_consumed_as_probe() {
    let mut sim = Sim::unified(default_config());
    sim.fail(3);
    assert_eq!(sim.gate, Gate::Shut);
    sim.ok(200);
    assert_eq!(sim.gate, Gate::Shut);
    sim.advance(secs(1));
    sim.advance(secs(101));
    assert_eq!(sim.gate, Gate::Shut, "with no fresh verdict the probe times out");
}

#[test]
fn cycle_2_fresh_hint_honored() {
    let mut sim = Sim::unified(default_config());
    sim.fail(3);
    sim.advance(secs(1));
    assert_eq!(sim.gate, Gate::Limited(1));
    sim.http.record(secs(10), sim.now);
    sim.err(502);
    sim.advance(millis(10));
    assert_eq!(sim.gate, Gate::Shut);
    sim.advance(secs(5));
    assert_eq!(sim.gate, Gate::Shut, "the fresh 10s hint floors the second backoff");
    sim.advance(secs(6));
    assert_eq!(sim.gate, Gate::Limited(1));
}

fn consecutive_accrual(max_failures: usize) -> FailureAccrual {
    FailureAccrual::Consecutive(client_policy::ConsecutiveFailures {
        max_failures,
        backoff: make_backoff(),
        respect_retry_after_hint: false,
    })
}

fn unified_accrual(
    basis_points: u32,
    min_requests: u32,
    max_consecutive_failures: usize,
) -> FailureAccrual {
    FailureAccrual::Unified(Unified {
        threshold: SuccessRateThreshold { basis_points },
        window: secs(10),
        min_requests,
        max_consecutive_failures,
        backoff: make_backoff(),
        respect_retry_after_hint: true,
    })
}

#[test]
fn transitions() {
    let mut sim = Sim::policy(consecutive_accrual(2));
    sim.err(502);
    assert_eq!(sim.gate, Gate::Open);
    sim.err(502);
    assert_eq!(sim.gate, Gate::Shut);
    sim.advance(millis(500));
    assert_eq!(sim.gate, Gate::Shut);
    sim.advance(millis(500));
    assert_eq!(sim.gate, Gate::Limited(1));
    sim.err(502);
    assert_eq!(sim.gate, Gate::Shut);
    sim.advance(secs(1));
    assert_eq!(sim.gate, Gate::Shut);
    sim.ok(200);
    assert_eq!(sim.gate, Gate::Shut);
    sim.advance(secs(1));
    assert_eq!(sim.gate, Gate::Limited(1));
    sim.ok(200);
    assert_eq!(sim.gate, Gate::Open);
}

#[test]
fn consecutive_ceiling_of_zero_never_trips() {
    let mut sim = Sim::policy(consecutive_accrual(0));
    for _ in 0..20 {
        sim.err(502);
    }
    assert_eq!(sim.gate, Gate::Open);
}

#[test]
fn consecutive_breaker_honors_hints_only_with_leave() {
    let mut policy = client_policy::ConsecutiveFailures {
        max_failures: 1,
        backoff: make_backoff(),
        respect_retry_after_hint: false,
    };
    let now = Instant { nanos: 0 };
    for (leave, wait) in [(false, secs(1)), (true, secs(9))] {
        policy.respect_retry_after_hint = leave;
        let mut b = ConsecutiveFailures::new(policy);
        b.step(Event::Response(Class::Error, now));
        match b.step(Event::Backoff(secs(1), Some(secs(9)))) {
            Action::Wait(d) => assert_eq!(d, wait),
            other => panic!("unexpected action {other:?}"),
        }
    }
    assert_eq!(floor_wait(secs(3), Some(secs(2))), secs(3));
    assert_eq!(floor_wait(secs(3), None), secs(3));
}

#[test]
fn consecutive_breaker_stops_when_responses_end() {
    let mut open = Sim::policy(consecutive_accrual(1));
    open.event(Event::ResponsesClosed);
    assert_eq!(open.phase(), Phase::Stopped);
    let mut shut = Sim::policy(consecutive_accrual(1));
    shut.err(502);
    shut.event(Event::ResponsesClosed);
    assert_eq!(shut.gate, Gate::Shut);
    shut.advance(secs(1));
    shut.event(Event::ResponsesClosed);
    assert_eq!(shut.phase(), Phase::Stopped);
}

#[test]
fn unified_trips_on_consecutive_failures() {
    let mut sim = Sim::policy(unified_accrual(0, 1, 3));
    sim.fail(2);
    assert_eq!(sim.gate, Gate::Open);
    sim.fail(1);
    assert_eq!(sim.gate, Gate::Shut);
}

#[test]
fn unified_trips_on_low_success_rate() {
    let mut sim = Sim::policy(unified_accrual(8_000, 1, 100));
    sim.ok(200);
    sim.advance(secs(1));
    assert_eq!(sim.gate, Gate::Open);
    sim.ok(429);
    assert_eq!(sim.gate, Gate::Shut);
}

#[test]
fn unified_probe_success_reopens() {
    let mut sim = Sim::policy(unified_accrual(8_000, 100, 2));
    sim.fail(2);
    sim.advance(secs(1));
    assert_eq!(sim.gate, Gate::Limited(1));
    sim.ok(200);
    assert_eq!(sim.gate, Gate::Open);
}

#[test]
fn unified_failed_probe_advances_backoff() {
    let mut sim = Sim::policy(unified_accrual(8_000, 100, 2));
    sim.fail(2);
    sim.advance(secs(1));
    assert_eq!(sim.gate, Gate::Limited(1));
    sim.err(502);
    assert_eq!(sim.gate, Gate::Shut);
    sim.advance(secs(1));
    assert_eq!(sim.gate, Gate::Shut);
    sim.advance(secs(1));
    assert_eq!(sim.gate, Gate::Limited(1));
}

#[test]
fn unified_timed_out_probe_re_shuts() {
    let mut sim = Sim::policy(unified_accrual(8_000, 100, 2));
    sim.fail(2);
    sim.advance(secs(1));
    assert_eq!(sim.gate, Gate::Limited(1));
    sim.advance(secs(100));
    assert_eq!(sim.gate, Gate::Shut);
}

#[test]
fn consecutive_probe_is_lenient() {
    let mut sim = Sim::policy(consecutive_accrual(2));
    sim.fail(2);
    sim.advance(secs(1));
    assert_eq!(sim.gate, Gate::Limited(1));
    sim.ok(429);
    assert_eq!(sim.gate, Gate::Open);
}

#[test]
fn unified_probe_is_strict() {
    let mut sim = Sim::policy(unified_accrual(8_000, 100, 2));
    sim.fail(2);
    sim.advance(secs(1));
    assert_eq!(sim.gate, Gate::Limited(1));
    sim.ok(429);
    assert_eq!(sim.gate, Gate::Shut);
}

#[test]
fn failure_accrual_none_produces_no_breaker_task() {
    let params = Params { accrual: None, channel_capacity: 1 };
    assert!(params.breaker(Instant { nanos: 0 }).is_none());
}

#[test]
fn consecutive_failures_accrue() {
    let mut sim = Sim::policy(consecutive_accrual(3));
    sim.ok(200);
    for _ in 0..3 {
        sim.err(500);
    }
    assert_eq!(sim.gate, Gate::Shut);
    sim.advance(secs(1));
    assert_eq!(sim.gate, Gate::Limited(1));
    sim.err(500);
    assert_eq!(sim.gate, Gate::Shut);
    sim.advance(secs(2));
    sim.ok(200);
    assert_eq!(sim.gate, Gate::Open);
    sim.ok(200);
    assert_eq!(sim.gate, Gate::Open);
}

#[test]
fn retry_after_hint_does_not_bleed_across_endpoints() {
    let mut a = Sim::policy(unified_accrual(0, 1, 3));
    let mut b = Sim::policy(unified_accrual(0, 1, 3));
    a.http.record(secs(30), a.now);
    a.ok(429);
    assert_eq!(a.gate, Gate::Open);
    for _ in 0..3 {
        b.err(500);
    }
    b.advance(secs(1));
    assert_eq!(b.gate, Gate::Limited(1), "only hints of the endpoint itself count");
}
