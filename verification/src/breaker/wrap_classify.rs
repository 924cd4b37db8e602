//! Setting up a gate for each endpoint.

use crate::breaker::retry_after::RetryAfterClassify;
use crate::breaker::Params;
use crate::client_policy::{ConsecutiveFailures, FailureAccrual, Unified};
use crate::time::Duration;
use vstd::prelude::*;

verus! {

/// What all gates of a balancer share.
#[derive(Clone, Copy, Debug)]
pub struct RetryAfterGateParams {
    pub channel_capacity: usize,
}

impl RetryAfterGateParams {
    pub fn new(channel_capacity: usize) -> (p: RetryAfterGateParams)
        ensures
            p.channel_capacity == channel_capacity,
    {
        RetryAfterGateParams { channel_capacity }
    }
}

/// Whether a policy can never trip: its ceiling of failures is zero, and so is its threshold if it
/// has one.
pub open spec fn inert(accrual: FailureAccrual) -> bool {
    match accrual {
        FailureAccrual::Consecutive(cf) => cf.max_failures == 0,
        FailureAccrual::Unified(u) => u.max_consecutive_failures == 0 && u.threshold.basis_points
            == 0,
    }
}

pub fn is_effectively_disabled(accrual: &FailureAccrual) -> (b: bool)
    ensures
        b == inert(*accrual),
{
    match accrual {
        FailureAccrual::Consecutive(cf) => cf.max_failures == 0,
        FailureAccrual::Unified(u) => u.max_consecutive_failures == 0 && u.threshold.basis_points
            == 0,
    }
}

pub open spec fn max_backoff(accrual: FailureAccrual) -> Duration {
    match accrual {
        FailureAccrual::Consecutive(cf) => cf.backoff.max,
        FailureAccrual::Unified(u) => u.backoff.max,
    }
}

/// The longest wait between probes, beyond which no hint needs to be kept.
pub fn accrual_max_backoff(accrual: &FailureAccrual) -> (d: Duration)
    ensures
        d == max_backoff(*accrual),
{
    match accrual {
        FailureAccrual::Consecutive(cf) => cf.backoff.max,
        FailureAccrual::Unified(u) => u.backoff.max,
    }
}

pub open spec fn respects_hint(accrual: FailureAccrual) -> bool {
    match accrual {
        FailureAccrual::Consecutive(cf) => cf.respect_retry_after_hint,
        FailureAccrual::Unified(u) => u.respect_retry_after_hint,
    }
}

/// Whether the breaker reads hints at all.
pub fn accrual_respects_retry_after_hint(accrual: &FailureAccrual) -> (b: bool)
    ensures
        b == respects_hint(*accrual),
{
    match accrual {
        FailureAccrual::Consecutive(cf) => cf.respect_retry_after_hint,
        FailureAccrual::Unified(u) => u.respect_retry_after_hint,
    }
}

/// A stack that puts a gate in front of each endpoint.
#[derive(Clone, Debug)]
pub struct NewRetryAfterGateSet<N> {
    pub inner: N,
    pub params: RetryAfterGateParams,
}

/// How a gate in front of one endpoint is set up.
#[derive(Clone, Debug)]
pub struct NewRetryAfterGate<N> {
    pub inner: N,
    pub accrual: Option<FailureAccrual>,
    pub channel_capacity: usize,
    pub max_duration: Duration,
}

/// The policy that is in force: one that can never trip is as good as none.
pub open spec fn effective(accrual: Option<FailureAccrual>) -> Option<FailureAccrual> {
    match accrual {
        Some(a) if !inert(a) => Some(a),
        _ => None,
    }
}

impl<N> NewRetryAfterGateSet<N> {
    pub fn new(inner: N, params: RetryAfterGateParams) -> (s: NewRetryAfterGateSet<N>)
        ensures
            s.inner == inner,
            s.params == params,
    {
        NewRetryAfterGateSet { inner, params }
    }

    /// Sets up a gate for an endpoint, whose inner service is `inner`, under its policy.
    pub fn new_service<S>(&self, accrual: Option<FailureAccrual>, inner: S) -> (gate:
        NewRetryAfterGate<S>)
        ensures
            gate.inner == inner,
            gate.accrual == effective(accrual),
            gate.channel_capacity == self.params.channel_capacity,
            gate.max_duration == match effective(accrual) {
                Some(a) => max_backoff(a),
                None => Duration { nanos: 0 },
            },
            gate.accrual is None ==> gate.max_duration.nanos == 0,
            gate.accrual is Some ==> gate.accrual == accrual,
    {
        let accrual: Option<FailureAccrual> = match accrual {
            Some(a) => if is_effectively_disabled(&a) {
                None
            } else {
                Some(a)
            },
            None => None,
        };
        let max_duration = match &accrual {
            Some(a) => accrual_max_backoff(a),
            None => Duration::zero(),
        };
        NewRetryAfterGate {
            inner,
            accrual,
            channel_capacity: self.params.channel_capacity,
            max_duration,
        }
    }
}

/// A service that puts a classifier into each request. Hints are recorded, up to the span of
/// `record`, only if that is given.
#[derive(Clone, Debug)]
pub struct InsertRetryAfterClassify<S> {
    pub inner: S,
    pub record: Option<Duration>,
}

impl<S> InsertRetryAfterClassify<S> {
    fn recording(inner: S, max_duration: Duration) -> (s: InsertRetryAfterClassify<S>)
        ensures
            s.inner == inner,
            s.record == Some(max_duration),
    {
        InsertRetryAfterClassify { inner, record: Some(max_duration) }
    }

    fn disabled(inner: S) -> (s: InsertRetryAfterClassify<S>)
        ensures
            s.inner == inner,
            s.record is None,
    {
        InsertRetryAfterClassify { inner, record: None }
    }

    /// The classifier that is put into a request. A request that is not classified at all gets
    /// none.
    pub fn call(&self, classified: bool) -> (r: Option<RetryAfterClassify>)
        ensures
            r == if classified {
                Some(
                    match self.record {
                        Some(max_duration) => RetryAfterClassify { max_duration, record: true },
                        None => RetryAfterClassify {
                            max_duration: Duration { nanos: 0 },
                            record: false,
                        },
                    },
                )
            } else {
                None
            },
    {
        if !classified {
            return None;
        }
        Some(
            match self.record {
                Some(max_duration) => RetryAfterClassify::new_with_max(max_duration),
                None => RetryAfterClassify::disabled(),
            },
        )
    }
}

impl<N> NewRetryAfterGate<N> {
    /// The parameters of the breaker of an endpoint, and the service in front of it. Hints are
    /// recorded only where there is a breaker that reads them.
    pub fn new_service<S>(&self, inner: S) -> (r: (Params, InsertRetryAfterClassify<S>))
        ensures
            r.0.accrual == self.accrual,
            r.0.channel_capacity == self.channel_capacity,
            r.1.inner == inner,
            r.1.record == match self.accrual {
                Some(a) if respects_hint(a) => Some(self.max_duration),
                _ => None,
            },
            self.accrual is None ==> r.1.record is None,
            self.accrual matches Some(FailureAccrual::Consecutive(cf)) ==> (r.1.record is Some
                <==> cf.respect_retry_after_hint),
            self.accrual matches Some(FailureAccrual::Unified(u)) ==> (r.1.record is Some
                <==> u.respect_retry_after_hint),
    {
        let params = Params { accrual: self.accrual, channel_capacity: self.channel_capacity };
        let insert = match &self.accrual {
            Some(a) => if accrual_respects_retry_after_hint(a) {
                InsertRetryAfterClassify::recording(inner, self.max_duration)
            } else {
                InsertRetryAfterClassify::disabled(inner)
            },
            None => InsertRetryAfterClassify::disabled(inner),
        };
        (params, insert)
    }
}

/// A policy that can never trip is as good as none: both leave an endpoint without a breaker and
/// without anything that records hints.
pub proof fn inert_policy_is_none(accrual: FailureAccrual)
    requires
        inert(accrual),
    ensures
        effective(Some(accrual)) == effective(None),
{
}

/// A policy is in force exactly if something can trip it: a ceiling of failures, or for a policy
/// that has one a threshold. What it says of waits and hints is its own.
pub proof fn policies_that_can_trip_are_in_force(cf: ConsecutiveFailures, u: Unified)
    ensures
        cf.max_failures >= 1 ==> effective(Some(FailureAccrual::Consecutive(cf))) == Some(
            FailureAccrual::Consecutive(cf),
        ),
        cf.max_failures == 0 ==> effective(Some(FailureAccrual::Consecutive(cf))) is None,
        u.max_consecutive_failures >= 1 ==> effective(Some(FailureAccrual::Unified(u))) == Some(
            FailureAccrual::Unified(u),
        ),
        u.threshold.basis_points >= 1 ==> effective(Some(FailureAccrual::Unified(u))) == Some(
            FailureAccrual::Unified(u),
        ),
        u.max_consecutive_failures == 0 && u.threshold.basis_points == 0 ==> effective(
            Some(FailureAccrual::Unified(u)),
        ) is None,
        effective(None) is None,
        max_backoff(FailureAccrual::Consecutive(cf)) == cf.backoff.max,
        max_backoff(FailureAccrual::Unified(u)) == u.backoff.max,
        respects_hint(FailureAccrual::Consecutive(cf)) <==> cf.respect_retry_after_hint,
        respects_hint(FailureAccrual::Unified(u)) <==> u.respect_retry_after_hint,
{
}

} // verus!
