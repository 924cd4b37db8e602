//! Deciding which requests are sent again.

use crate::classify::Code;
use crate::client_policy::{
    in_ranges, ranges_hold_what_is_between_their_ends, Codes, ExponentialBackoff, StatusRanges,
};
use crate::errors::{Cause, Error, Kind, ResponseTimeout, REFUSED_STREAM};
use crate::headers::{
    code_of_value, first_value, grpc_code, header_fields, header_get, number_of,
};
use crate::route::deadline::StreamTimeouts;
use crate::route::extensions::Attempt;
use crate::time::Duration;
use http::{HeaderMap, HeaderValue};
use vstd::prelude::*;

verus! {

/// When and how often a request is sent again.
#[derive(Clone, Debug)]
pub struct RetryPolicy {
    pub timeout: Option<Duration>,
    pub retryable_http_statuses: Option<StatusRanges>,
    pub retryable_grpc_statuses: Option<Codes>,
    pub max_retries: usize,
    pub max_request_bytes: usize,
    pub backoff: Option<ExponentialBackoff>,
}

pub struct RetryPolicyView {
    pub timeout: Option<Duration>,
    pub http: Option<Seq<(u16, u16)>>,
    pub grpc: Option<Set<u16>>,
    pub max_retries: nat,
    pub max_request_bytes: nat,
    pub backoff: Option<ExponentialBackoff>,
}

pub open spec fn ranges_of(r: Option<StatusRanges>) -> Option<Seq<(u16, u16)>> {
    match r {
        Some(r) => Some(r.0@),
        None => None,
    }
}

pub open spec fn codes_of(c: Option<Codes>) -> Option<Set<u16>> {
    match c {
        Some(c) => Some(c.0@),
        None => None,
    }
}

impl View for RetryPolicy {
    type V = RetryPolicyView;

    open spec fn view(&self) -> RetryPolicyView {
        RetryPolicyView {
            timeout: self.timeout,
            http: ranges_of(self.retryable_http_statuses),
            grpc: codes_of(self.retryable_grpc_statuses),
            max_retries: self.max_retries as nat,
            max_request_bytes: self.max_request_bytes as nat,
            backoff: self.backoff,
        }
    }
}

pub fn copy_ranges(r: &Option<StatusRanges>) -> (c: Option<StatusRanges>)
    ensures
        ranges_of(c) == ranges_of(*r),
{
    match r {
        Some(r) => Some(r.copy()),
        None => None,
    }
}

pub fn copy_codes(r: &Option<Codes>) -> (c: Option<Codes>)
    ensures
        codes_of(c) == codes_of(*r),
{
    match r {
        Some(r) => Some(Codes(r.0.clone())),
        None => None,
    }
}

impl RetryPolicy {
    /// A copy of the policy.
    pub fn copy(&self) -> (r: RetryPolicy)
        ensures
            r@ == self@,
    {
        RetryPolicy {
            timeout: self.timeout,
            retryable_http_statuses: copy_ranges(&self.retryable_http_statuses),
            retryable_grpc_statuses: copy_codes(&self.retryable_grpc_statuses),
            max_retries: self.max_retries,
            max_request_bytes: self.max_request_bytes,
            backoff: self.backoff,
        }
    }
}

/// Marks a request as one that was sent before.
#[derive(Clone, Copy, Debug)]
pub struct IsRetry;

/// The head of a response, and its trailers if they are there already.
#[derive(Clone, Copy, Debug)]
pub struct ResponseHead<'a> {
    pub status: u16,
    pub headers: &'a HeaderMap<HeaderValue>,
    pub trailers: Option<&'a HeaderMap<HeaderValue>>,
}

/// The gRPC code of a response: that in its headers, or that in its trailers if the headers hold
/// none. A field that does not hold a number gives no code, and is not made up for by another.
pub open spec fn grpc_status_of(rsp: ResponseHead<'_>) -> Option<int> {
    match first_value(header_fields(*rsp.headers), "grpc-status"@) {
        Some(v) => code_of_value(Some(v)),
        None => match rsp.trailers {
            Some(trls) => code_of_value(first_value(header_fields(*trls), "grpc-status"@)),
            None => None,
        },
    }
}

/// Whether it may help to send a request again after an error. Not if the proxy sheds load; but
/// another backend may be there after a fast failure.
pub open spec fn worth_another_try(error: Error) -> bool {
    if error.caused_by(Kind::LoadShed) {
        false
    } else {
        ||| error.caused_by(Kind::FailFast)
        ||| error.find(Kind::ResponseTimeout) matches Some(link) && link.cause
            == Cause::ResponseTimeout(ResponseTimeout::Headers)
        ||| error.find(Kind::H2) matches Some(link) && link.cause->H2_0.reason == Some(
            REFUSED_STREAM,
        )
    }
}

/// What is carried over to a request that is sent again.
#[derive(Debug)]
pub struct RetryExtensions<H, C> {
    pub attempt: Option<Attempt>,
    pub timeouts: Option<StreamTimeouts>,
    pub client_handle: Option<H>,
    pub classify: Option<C>,
}

/// The number of the next attempt. A request without a number was sent once.
pub open spec fn next_attempt(attempt: Option<Attempt>) -> Attempt {
    match attempt {
        Some(Attempt(n)) => if n < u16::MAX {
            Attempt((n + 1) as u16)
        } else {
            Attempt(u16::MAX)
        },
        None => Attempt(2),
    }
}

impl RetryPolicy {
    pub fn grpc_status(rsp: &ResponseHead<'_>) -> (code: Option<Code>)
        ensures
            number_of(code) == grpc_status_of(*rsp),
    {
        match header_get(rsp.headers, "grpc-status") {
            Some(_) => grpc_code(rsp.headers),
            None => match rsp.trailers {
                Some(trls) => grpc_code(trls),
                None => None,
            },
        }
    }

    pub fn retryable_error(error: &Error) -> (b: bool)
        ensures
            b == worth_another_try(*error),
    {
        if error.is_caused_by(Kind::LoadShed) {
            return false;
        }
        if error.is_caused_by(Kind::FailFast) {
            return true;
        }
        if let Some(link) = error.cause_ref(Kind::ResponseTimeout) {
            if let Cause::ResponseTimeout(ResponseTimeout::Headers) = &link.cause {
                return true;
            }
        }
        if let Some(link) = error.cause_ref(Kind::H2) {
            if let Cause::H2(h2e) = &link.cause {
                if let Some(reason) = h2e.reason {
                    if reason == REFUSED_STREAM {
                        return true;
                    }
                }
            }
        }
        false
    }

    /// Whether a response or an error is one after which the request is sent again.
    pub open spec fn retryable(self, res: Result<ResponseHead<'_>, Error>) -> bool {
        match res {
            Ok(rsp) => {
                ||| self@.grpc is Some && grpc_status_of(rsp) is Some && self@.grpc->0.contains(
                    grpc_status_of(rsp)->0 as u16,
                )
                ||| self@.http is Some && in_ranges(self@.http->0, rsp.status)
            },
            Err(error) => worth_another_try(error),
        }
    }

    pub fn is_retryable(&self, res: Result<&ResponseHead<'_>, &Error>) -> (b: bool)
        ensures
            b == self.retryable(
                match res {
                    Ok(rsp) => Ok(*rsp),
                    Err(error) => Err(*error),
                },
            ),
    {
        let rsp = match res {
            Ok(rsp) => rsp,
            Err(error) => {
                return RetryPolicy::retryable_error(error);
            },
        };
        if let Some(codes) = &self.retryable_grpc_statuses {
            if let Some(code) = RetryPolicy::grpc_status(rsp) {
                if codes.contains(code.to_u16()) {
                    return true;
                }
            }
        }
        if let Some(statuses) = &self.retryable_http_statuses {
            if statuses.contains(rsp.status) {
                return true;
            }
        }
        false
    }

    /// Works out what the next attempt carries. Once no retries remain, there is no decision left
    /// to make, so the head of the response has no deadline of its own any more.
    pub fn set_extensions<H, C>(&self, src: RetryExtensions<H, C>) -> (dst: RetryExtensions<H, C>)
        ensures
            dst.attempt == Some(next_attempt(src.attempt)),
            dst.timeouts == match src.timeouts {
                Some(t) => Some(
                    if next_attempt(src.attempt).0 <= self.max_retries {
                        t
                    } else {
                        StreamTimeouts { response_headers: None, ..t }
                    },
                ),
                None => None,
            },
            dst.client_handle == src.client_handle,
            dst.classify == src.classify,
            src.timeouts is Some <==> dst.timeouts is Some,
            src.timeouts matches Some(t) ==> {
                &&& dst.timeouts->0.response_end == t.response_end
                &&& dst.timeouts->0.idle == t.idle
                &&& dst.timeouts->0.limit == t.limit
                &&& src.attempt matches Some(Attempt(n)) ==> {
                    &&& n < self.max_retries && n < u16::MAX ==> dst.timeouts->0.response_headers
                        == t.response_headers
                    &&& n >= self.max_retries && n < u16::MAX ==> dst.timeouts->0.response_headers
                        is None
                }
            },
    {
        let attempt: u16 = match src.attempt {
            Some(Attempt(n)) => if n < u16::MAX {
                n + 1
            } else {
                n
            },
            None => 2,
        };
        let timeouts = match src.timeouts {
            Some(t) => {
                let mut timeouts = t;
                let retries_remain = attempt as usize <= self.max_retries;
                if !retries_remain {
                    timeouts.response_headers = None;
                }
                Some(timeouts)
            },
            None => None,
        };
        RetryExtensions {
            attempt: Some(Attempt(attempt)),
            timeouts,
            client_handle: src.client_handle,
            classify: src.classify,
        }
    }
}

/// Attempts are counted from one and never wrap around.
pub proof fn attempts_only_grow(attempt: Option<Attempt>)
    requires
        attempt matches Some(Attempt(n)) ==> n >= 1,
    ensures
        next_attempt(attempt).0 >= 2,
        attempt matches Some(Attempt(n)) ==> next_attempt(attempt).0 >= n,
{
}

/// What a policy asks for is retried. A response whose status lies within one of its ranges is, be
/// it an error or not, and so is one whose gRPC code is among its codes. One for which neither
/// holds is not.
pub proof fn listed_responses_are_retried(policy: RetryPolicy, rsp: ResponseHead<'_>, i: int)
    ensures
        policy.retryable_http_statuses matches Some(ranges) ==> (0 <= i < ranges.0@.len()
            && ranges.0@[i].0 <= rsp.status <= ranges.0@[i].1 ==> policy.retryable(Ok(rsp))),
        policy.retryable_grpc_statuses matches Some(codes) ==> (grpc_status_of(rsp) matches Some(n)
            ==> (codes.0@.contains(n as u16) ==> policy.retryable(Ok(rsp)))),
        (policy.retryable_http_statuses matches Some(ranges) ==> forall|j: int|
            0 <= j < ranges.0@.len() ==> !((#[trigger] ranges.0@[j]).0 <= rsp.status
                <= ranges.0@[j].1)) && (policy.retryable_grpc_statuses matches Some(codes) ==> (
        grpc_status_of(rsp) matches Some(n) ==> !codes.0@.contains(n as u16))) ==> !policy.retryable(
            Ok(rsp),
        ),
{
    if let Some(statuses) = policy.retryable_http_statuses {
        let ranges = statuses.0@;
        ranges_hold_what_is_between_their_ends(ranges, ranges, 0, 0, rsp.status);
    }
}

/// An error is worth another try after a fast failure, a timeout of the head of the response or a
/// stream that was refused, whatever else is in its chain, but never if load was shed. No other
/// error is.
pub proof fn only_passing_errors_are_retried(policy: RetryPolicy, error: Error)
    ensures
        policy.retryable(Err(error)) == worth_another_try(error),
        error.caused_by(Kind::LoadShed) ==> !worth_another_try(error),
        !error.caused_by(Kind::LoadShed) ==> {
            &&& error.caused_by(Kind::FailFast) ==> worth_another_try(error)
            &&& error.find(Kind::ResponseTimeout) matches Some(link) ==> (link.cause
                == Cause::ResponseTimeout(ResponseTimeout::Headers) ==> worth_another_try(error))
            &&& error.find(Kind::H2) matches Some(link) ==> (link.cause matches Cause::H2(e) ==> (
            e.reason == Some(7u32) ==> worth_another_try(error)))
            &&& worth_another_try(error) ==> error.caused_by(Kind::FailFast) || error.caused_by(
                Kind::ResponseTimeout,
            ) || error.caused_by(Kind::H2)
            &&& worth_another_try(error) && !error.caused_by(Kind::FailFast) && !error.caused_by(
                Kind::H2,
            ) ==> error.find(Kind::ResponseTimeout)->0.cause == Cause::ResponseTimeout(
                ResponseTimeout::Headers,
            )
            &&& worth_another_try(error) && !error.caused_by(Kind::FailFast) && !error.caused_by(
                Kind::ResponseTimeout,
            ) ==> error.find(Kind::H2)->0.cause->H2_0.reason == Some(7u32)
        },
{
}

/// The headers of a response have the say over its gRPC code. Its trailers are asked only if the
/// headers hold no such field.
pub proof fn headers_come_before_trailers(rsp: ResponseHead<'_>)
    ensures
        ({
            let name = "grpc-status"@;
            let head = first_value(header_fields(*rsp.headers), name);
            &&& head is Some ==> grpc_status_of(rsp) == code_of_value(head)
            &&& head is None && rsp.trailers is None ==> grpc_status_of(rsp) is None
            &&& head is None && rsp.trailers is Some ==> grpc_status_of(rsp) == code_of_value(
                first_value(header_fields(*rsp.trailers->0), name),
            )
        }),
{
}

/// The second attempt is number two, and each further one has the next number.
pub proof fn attempts_are_numbered(n: u16)
    ensures
        next_attempt(None).0 == 2,
        n < 0xffff ==> next_attempt(Some(Attempt(n))).0 == n + 1,
        next_attempt(Some(Attempt(0xffff))).0 == 0xffff,
{
}

} // verus!
