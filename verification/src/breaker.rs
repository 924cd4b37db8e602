//! Circuit breaking: deciding when an endpoint gets no more traffic, and when it gets some again.
//!
//! A breaker is a state machine. The caller owns a gate in front of the endpoint, the channel of
//! response classes and the clock; it reports an [`Event`] and carries out the [`Action`] that
//! comes back.

use crate::breaker::consecutive_failures::ConsecutiveFailures;
use crate::breaker::retry_after::combined;
use crate::breaker::unified::{UnifiedBreaker, UnifiedBreakerConfig};
use crate::classify::{Class, Code};
use crate::client_policy::FailureAccrual;
use crate::time::{Duration, Instant};
use vstd::prelude::*;

pub mod consecutive_failures;
pub mod retry_after;
pub mod success_rate;
pub mod unified;
pub mod wrap_classify;

verus! {

/// Why a circuit breaker tripped.
#[derive(Clone, Copy, Debug, PartialEq, Eq, Structural)]
pub enum TripReason {
    /// A run of failures.
    ConsecutiveFailures,
    /// The success rate over the window fell below the threshold.
    LowSuccessRate,
}

/// The phase that a breaker is in.
#[derive(Clone, Copy, Debug, PartialEq, Eq, Structural)]
pub enum Phase {
    /// Requests pass and responses are counted.
    Open,
    /// Requests were just shut out and the next wait is not yet known.
    Shut,
    /// Requests are shut out until the wait is over.
    Waiting,
    /// One request passes, and the response to it decides.
    Probation,
    /// The breaker controls nothing any more.
    Stopped,
}

/// What a breaker is told.
#[derive(Clone, Copy, Debug)]
pub enum Event {
    /// A response with the given class arrived.
    Response(Class, Instant),
    /// No more responses will arrive.
    ResponsesClosed,
    /// No requests will come any more.
    GateLost,
    /// The next delay of the backoff schedule, and the hint of the server if one is in force.
    Backoff(Duration, Option<Duration>),
    /// The wait is over.
    WaitElapsed,
    /// The probe was not answered in time.
    ProbeTimedOut,
}

/// What a breaker asks for.
#[derive(Clone, Copy, Debug)]
pub enum Action {
    /// Report the next event.
    Listen,
    /// Let requests pass.
    OpenGate,
    /// Shut requests out and report the next delay of the backoff schedule: of a schedule that
    /// starts over if `restart_backoff`, else of the one in use.
    ShutGate { restart_backoff: bool },
    /// Report when this much time has passed.
    Wait(Duration),
    /// Let `permits` requests pass, and report when `deadline` has passed without a response. If
    /// `drain`, drop the responses that are already queued: they came before the probe.
    Probe { permits: usize, drain: bool, deadline: Option<Duration> },
    /// Let go of the endpoint.
    Stop,
}

/// The wait before the next probe: the delay of the schedule, or the hint of the server when that
/// is longer.
pub open spec fn floored_wait(delay: Duration, hint: Option<Duration>) -> Duration {
    match hint {
        Some(h) => h.longer(delay),
        None => delay,
    }
}

pub fn floor_wait(delay: Duration, hint: Option<Duration>) -> (d: Duration)
    ensures
        d == floored_wait(delay, hint),
{
    match hint {
        Some(h) => h.max(delay),
        None => delay,
    }
}

/// Whether a class stands for a failure: a status or code that the policy in force did not let
/// pass, or no response.
pub open spec fn failing(class: Class) -> bool {
    match class {
        Class::Http(Ok(_)) => false,
        Class::Grpc(Ok(_)) => false,
        Class::Http(Err(_)) => true,
        Class::Grpc(Err(_)) => true,
        Class::Error => true,
    }
}

/// Whether a class shows an endpoint in full health: neither a failure, nor HTTP 429, nor gRPC
/// RESOURCE_EXHAUSTED.
pub open spec fn healthy(class: Class) -> bool {
    match class {
        Class::Http(Ok(status)) => status != 429,
        Class::Grpc(Ok(code)) => code != Code::ResourceExhausted,
        _ => false,
    }
}

/// The number of failures behind the last response that was none.
pub open spec fn trailing_failures(rsps: Seq<(Class, Instant)>) -> nat
    decreases rsps.len(),
{
    if rsps.len() == 0 || !failing(rsps.last().0) {
        0
    } else {
        trailing_failures(rsps.drop_last()) + 1
    }
}

/// The run of failures at the end of a history is made of failures only, and what lies before it is
/// none.
pub proof fn trailing_failures_are_all_failures(rsps: Seq<(Class, Instant)>)
    ensures
        trailing_failures(rsps) <= rsps.len(),
        forall|i: int|
            rsps.len() - trailing_failures(rsps) <= i < rsps.len() ==> failing(
                (#[trigger] rsps[i]).0,
            ),
        trailing_failures(rsps) < rsps.len() ==> !failing(
            rsps[rsps.len() - trailing_failures(rsps) - 1].0,
        ),
    decreases rsps.len(),
{
    if rsps.len() > 0 && failing(rsps.last().0) {
        let rest = rsps.drop_last();
        trailing_failures_are_all_failures(rest);
        assert forall|i: int|
            rsps.len() - trailing_failures(rsps) <= i < rsps.len() implies failing(
            (#[trigger] rsps[i]).0,
        ) by {
            if i < rest.len() {
                assert(rest[i] == rsps[i]);
            }
        }
    }
}

/// The wait before a probe is no shorter than the delay of the schedule nor than the hint, and it is
/// one of them.
pub proof fn wait_is_delay_or_hint(delay: Duration, hint: Duration)
    ensures
        floored_wait(delay, None) == delay,
        floored_wait(delay, Some(hint)).nanos >= delay.nanos,
        floored_wait(delay, Some(hint)).nanos >= hint.nanos,
        floored_wait(delay, Some(hint)) == delay || floored_wait(delay, Some(hint)) == hint,
{
}

/// A hint never shortens a wait.
pub proof fn hint_never_shortens_wait(delay: Duration, hint: Option<Duration>)
    ensures
        floored_wait(delay, hint).nanos >= delay.nanos,
{
}

/// The hints of servers do not push a wait past the ceiling of the backoff schedule, as they are
/// kept within its bounds before they count.
pub proof fn hinted_wait_stays_within_ceiling(
    delay: Duration,
    http: Option<Duration>,
    grpc: Option<Duration>,
    min: Duration,
    max: Duration,
)
    requires
        delay.nanos <= max.nanos,
    ensures
        floored_wait(delay, combined(http, grpc, min, max)).nanos <= max.nanos,
{
}

/// What configures the breaker of one endpoint. Without a policy there is no breaker.
#[derive(Clone, Copy, Debug)]
pub struct Params {
    pub accrual: Option<FailureAccrual>,
    pub channel_capacity: usize,
}

/// The breaker of one endpoint.
#[derive(Debug)]
pub enum Breaker {
    Consecutive(ConsecutiveFailures),
    Unified(UnifiedBreaker),
}

impl Params {
    /// The breaker that the policy asks for: none without a policy, and then no request
    /// is ever shut out.
    pub fn breaker(&self, now: Instant) -> (b: Option<Breaker>)
        ensures
            match self.accrual {
                None => b is None,
                Some(FailureAccrual::Consecutive(cf)) => b matches Some(Breaker::Consecutive(b))
                    && b.wf() && b.started(cf),
                Some(FailureAccrual::Unified(u)) => b matches Some(Breaker::Unified(b)) && b.wf()
                    && b@ == UnifiedBreaker::started(
                    UnifiedBreakerConfig {
                        max_failures: u.max_consecutive_failures,
                        threshold: u.threshold.basis_points,
                        window: u.window,
                        backoff: u.backoff,
                        min_requests: u.min_requests as usize,
                        respect_retry_after_hint: u.respect_retry_after_hint,
                    },
                    now,
                ),
            },
    {
        match self.accrual {
            None => None,
            Some(FailureAccrual::Consecutive(cf)) => Some(
                Breaker::Consecutive(ConsecutiveFailures::new(cf)),
            ),
            Some(FailureAccrual::Unified(u)) => {
                let config = UnifiedBreakerConfig {
                    max_failures: u.max_consecutive_failures,
                    threshold: u.threshold.basis_points,
                    window: u.window,
                    backoff: u.backoff,
                    min_requests: u.min_requests as usize,
                    respect_retry_after_hint: u.respect_retry_after_hint,
                };
                Some(Breaker::Unified(UnifiedBreaker::new(config, now)))
            },
        }
    }
}

} // verus!
