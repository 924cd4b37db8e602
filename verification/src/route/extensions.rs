//! Reading the retry policy and the deadlines of a request from its headers.

use crate::client_policy::{Codes, ExponentialBackoff, StatusRanges, Timeouts};
use crate::headers::{
    first_value, header_fields, header_key, header_remove, is_text, is_text_value, lower,
    lower_case_names_are_kept,
};
use crate::numbers::{
    at_most, numbers_are_positional, other_texts_are_no_numbers, parse_u64, unsigned,
};
use crate::route::deadline::{StreamLifetime, StreamTimeouts};
use crate::route::retry::{
    codes_of, copy_codes, copy_ranges, ranges_of, RetryPolicy, RetryPolicyView,
};
use crate::text::{
    blanks_around_are_taken, eq_bytes, eq_ignore_ascii_case, find, first_index,
    first_separator_is_found, lower_byte, parts, same_text, split, trim, trimmed,
};
use crate::time::{Duration, Instant};
use http::{HeaderMap, HeaderValue};
use vstd::prelude::*;
use vstd::slice::slice_subrange;
use vstd::string::StringSliceAdditionalSpecFns;

verus! {

/// A status between 100 and 599 in decimal.
pub open spec fn status_of(s: Seq<u8>) -> Option<u16> {
    match unsigned(s) {
        Some(n) if 100 <= n < 600 => Some(n as u16),
        _ => None,
    }
}

fn to_code(s: &[u8]) -> (r: Option<u16>)
    ensures
        r == status_of(s@),
{
    match parse_u64(s) {
        Some(n) => if 100 <= n && n < 600 {
            Some(n as u16)
        } else {
            None
        },
        None => None,
    }
}

/// The statuses that a condition stands for: a class of errors by name, a single status, or two
/// statuses in order with a dash between them.
pub open spec fn http_condition(cond: Seq<u8>) -> Option<(u16, u16)> {
    if same_text(cond, "5xx".spec_bytes()) {
        Some((500, 599))
    } else if same_text(cond, "gateway-error".spec_bytes()) {
        Some((502, 504))
    } else if status_of(cond) is Some {
        Some((status_of(cond)->0, status_of(cond)->0))
    } else {
        let dash = first_index(cond, 45);
        if 0 <= dash < cond.len() {
            match (status_of(cond.take(dash)), status_of(cond.skip(dash + 1))) {
                (Some(s), Some(e)) if s <= e => Some((s, e)),
                _ => None,
            }
        } else {
            None
        }
    }
}

/// The ranges that a list of conditions stands for. Those that make no sense are left out.
pub open spec fn http_conditions(conds: Seq<Seq<u8>>) -> Seq<(u16, u16)>
    decreases conds.len(),
{
    if conds.len() == 0 {
        Seq::empty()
    } else {
        let before = http_conditions(conds.drop_last());
        match http_condition(conds.last()) {
            Some(range) => before.push(range),
            None => before,
        }
    }
}

fn parse_http_condition(cond: &[u8]) -> (r: Option<(u16, u16)>)
    ensures
        r == http_condition(cond@),
{
    if eq_ignore_ascii_case(cond, "5xx".as_bytes()) {
        return Some((500, 599));
    }
    if eq_ignore_ascii_case(cond, "gateway-error".as_bytes()) {
        return Some((502, 504));
    }
    if let Some(code) = to_code(cond) {
        return Some((code, code));
    }
    let dash: usize = find(cond, 45);
    if dash < cond.len() {
        let start = slice_subrange(cond, 0, dash);
        let end = slice_subrange(cond, dash + 1, cond.len());
        proof {
            assert(start@ =~= cond@.take(dash as int));
            assert(end@ =~= cond@.skip(dash + 1));
        }
        if let (Some(s), Some(e)) = (to_code(start), to_code(end)) {
            if s <= e {
                return Some((s, e));
            }
        }
    }
    None
}

/// Reads a list of conditions on HTTP statuses, with commas between them.
pub fn parse_http_conditions(s: &[u8]) -> (r: Option<StatusRanges>)
    ensures
        ranges_of(r) == Some(http_conditions(parts(s@, 44))),
{
    let conds = split(s, 44);
    let ghost views = conds@.map_values(|p: Vec<u8>| p@);
    let mut ranges: Vec<(u16, u16)> = Vec::new();
    let mut i: usize = 0;
    while i < conds.len()
        invariant
            i <= conds@.len(),
            views == conds@.map_values(|p: Vec<u8>| p@),
            ranges@ == http_conditions(views.take(i as int)),
        decreases conds@.len() - i,
    {
        proof {
            assert(views.take(i + 1).drop_last() =~= views.take(i as int));
            assert(views.take(i + 1).last() == conds@[i as int]@);
        }
        if let Some(range) = parse_http_condition(&conds[i]) {
            ranges.push(range);
        }
        i = i + 1;
    }
    proof {
        assert(views.take(i as int) =~= views);
    }
    Some(StatusRanges(ranges))
}

/// The gRPC code that a condition names.
pub open spec fn grpc_condition(cond: Seq<u8>) -> Option<u16> {
    if same_text(cond, "cancelled".spec_bytes()) {
        Some(1)
    } else if same_text(cond, "deadline-exceeded".spec_bytes()) {
        Some(4)
    } else if same_text(cond, "internal".spec_bytes()) {
        Some(13)
    } else if same_text(cond, "resource-exhausted".spec_bytes()) {
        Some(8)
    } else if same_text(cond, "unavailable".spec_bytes()) {
        Some(14)
    } else {
        None
    }
}

/// The codes that a list of conditions names. Those that make no sense are left out.
pub open spec fn grpc_conditions(conds: Seq<Seq<u8>>) -> Set<u16>
    decreases conds.len(),
{
    if conds.len() == 0 {
        Set::empty()
    } else {
        let before = grpc_conditions(conds.drop_last());
        match grpc_condition(conds.last()) {
            Some(code) => before.insert(code),
            None => before,
        }
    }
}

fn parse_grpc_condition(cond: &[u8]) -> (r: Option<u16>)
    ensures
        r == grpc_condition(cond@),
{
    if eq_ignore_ascii_case(cond, "cancelled".as_bytes()) {
        return Some(1);
    }
    if eq_ignore_ascii_case(cond, "deadline-exceeded".as_bytes()) {
        return Some(4);
    }
    if eq_ignore_ascii_case(cond, "internal".as_bytes()) {
        return Some(13);
    }
    if eq_ignore_ascii_case(cond, "resource-exhausted".as_bytes()) {
        return Some(8);
    }
    if eq_ignore_ascii_case(cond, "unavailable".as_bytes()) {
        return Some(14);
    }
    None
}

/// Reads a list of names of gRPC codes, with commas between them.
pub fn parse_grpc_conditions(s: &[u8]) -> (r: Option<Codes>)
    ensures
        codes_of(r) == Some(grpc_conditions(parts(s@, 44))),
{
    let conds = split(s, 44);
    let ghost views = conds@.map_values(|p: Vec<u8>| p@);
    let mut codes = Codes::new();
    let mut i: usize = 0;
    while i < conds.len()
        invariant
            i <= conds@.len(),
            views == conds@.map_values(|p: Vec<u8>| p@),
            codes.0@ == grpc_conditions(views.take(i as int)),
        decreases conds@.len() - i,
    {
        proof {
            assert(views.take(i + 1).drop_last() =~= views.take(i as int));
            assert(views.take(i + 1).last() == conds@[i as int]@);
        }
        if let Some(code) = parse_grpc_condition(&conds[i]) {
            codes.insert(code);
        }
        i = i + 1;
    }
    proof {
        assert(views.take(i as int) =~= views);
    }
    Some(codes)
}

/// The length of a text up to and with its last digit.
pub open spec fn up_to_last_digit(s: Seq<u8>) -> int
    decreases s.len(),
{
    if s.len() == 0 || 48 <= s.last() <= 57 {
        s.len() as int
    } else {
        up_to_last_digit(s.drop_last())
    }
}

/// The milliseconds in a unit of time. Only zero needs no unit.
pub open spec fn unit_millis(unit: Seq<u8>, magnitude: nat) -> Option<nat> {
    if unit.len() == 0 && magnitude == 0 {
        Some(0)
    } else if unit == "ms".spec_bytes() {
        Some(1)
    } else if unit == "s".spec_bytes() {
        Some(1000)
    } else if unit == "m".spec_bytes() {
        Some(60_000)
    } else if unit == "h".spec_bytes() {
        Some(3_600_000)
    } else if unit == "d".spec_bytes() {
        Some(86_400_000)
    } else {
        None
    }
}

/// The span that a text stands for: a whole number with a unit, of at most 64 bits in
/// milliseconds.
pub open spec fn duration_of(value: Seq<u8>) -> Option<Duration> {
    let s = trimmed(value);
    let split = up_to_last_digit(s);
    if split == 0 {
        None
    } else {
        match at_most(unsigned(s.take(split)), u64::MAX as nat) {
            Some(magnitude) => match unit_millis(s.skip(split), magnitude) {
                Some(mul) => if magnitude * mul <= u64::MAX {
                    Some(Duration { nanos: (magnitude * mul * 1_000_000) as u128 })
                } else {
                    None
                },
                None => None,
            },
            None => None,
        }
    }
}

fn unit_of(unit: &[u8], magnitude: u64) -> (r: Option<u64>)
    ensures
        r is Some <==> unit_millis(unit@, magnitude as nat) is Some,
        r matches Some(n) ==> unit_millis(unit@, magnitude as nat) == Some(n as nat),
{
    if unit.len() == 0 && magnitude == 0 {
        Some(0)
    } else if eq_bytes(unit, "ms".as_bytes()) {
        Some(1)
    } else if eq_bytes(unit, "s".as_bytes()) {
        Some(1000)
    } else if eq_bytes(unit, "m".as_bytes()) {
        Some(60_000)
    } else if eq_bytes(unit, "h".as_bytes()) {
        Some(3_600_000)
    } else if eq_bytes(unit, "d".as_bytes()) {
        Some(86_400_000)
    } else {
        None
    }
}

/// Reads a span of time, as in `100ms` or `10s`.
pub fn parse_duration(value: &[u8]) -> (r: Option<Duration>)
    ensures
        r == (if is_text(value@) {
            duration_of(value@)
        } else {
            None
        }),
{
    if !is_text_value(value) {
        return None;
    }
    let s = trim(value);
    let mut offset: usize = s.len();
    proof {
        assert(s@.take(offset as int) =~= s@);
    }
    while offset > 0 && !(48 <= s[offset - 1] && s[offset - 1] <= 57)
        invariant
            offset <= s@.len(),
            up_to_last_digit(s@.take(offset as int)) == up_to_last_digit(s@),
        decreases offset,
    {
        proof {
            assert(s@.take(offset as int).drop_last() =~= s@.take(offset - 1));
        }
        offset = offset - 1;
    }
    proof {
        assert(up_to_last_digit(s@) == offset);
    }
    if offset == 0 {
        return None;
    }
    let magnitude = slice_subrange(s, 0, offset);
    let unit = slice_subrange(s, offset, s.len());
    proof {
        assert(magnitude@ =~= s@.take(offset as int));
        assert(unit@ =~= s@.skip(offset as int));
    }
    let magnitude: u64 = match parse_u64(magnitude) {
        Some(n) => n,
        None => {
            return None;
        },
    };
    let mul: u64 = match unit_of(unit, magnitude) {
        Some(n) => n,
        None => {
            return None;
        },
    };
    match magnitude.checked_mul(mul) {
        Some(ms) => Some(Duration::from_millis(ms)),
        None => None,
    }
}

/// How often a request has been sent, starting at one.
#[derive(Clone, Copy, Debug, PartialEq, Eq, Structural)]
pub struct Attempt(pub u16);

/// How a route sets up the extensions of requests.
#[derive(Clone, Debug)]
pub struct Params {
    pub retry: Option<RetryPolicy>,
    pub timeouts: Timeouts,
    pub allow_l5d_request_headers: bool,
}

/// How an HTTP route sends requests again.
#[derive(Debug)]
pub struct HttpRetry {
    pub max_retries: u16,
    pub max_request_bytes: usize,
    pub status_ranges: StatusRanges,
    pub timeout: Option<Duration>,
    pub backoff: Option<ExponentialBackoff>,
}

/// How a gRPC route sends requests again.
#[derive(Debug)]
pub struct GrpcRetry {
    pub max_retries: u16,
    pub max_request_bytes: usize,
    pub codes: Codes,
    pub timeout: Option<Duration>,
    pub backoff: Option<ExponentialBackoff>,
}

/// What a policy says of the requests of a route.
#[derive(Debug)]
pub struct RouteParams<R> {
    pub timeouts: Timeouts,
    pub retry: Option<R>,
    pub allow_l5d_request_headers: bool,
}

impl Params {
    /// The parameters of an HTTP route, which sends requests again by HTTP status.
    pub fn http(route: &RouteParams<HttpRetry>) -> (p: Params)
        ensures
            p.timeouts == route.timeouts,
            p.allow_l5d_request_headers == route.allow_l5d_request_headers,
            policy_of(p.retry) == match route.retry {
                Some(r) => Some(
                    RetryPolicyView {
                        timeout: r.timeout,
                        http: Some(r.status_ranges.0@),
                        grpc: None,
                        max_retries: r.max_retries as nat,
                        max_request_bytes: r.max_request_bytes as nat,
                        backoff: r.backoff,
                    },
                ),
                None => None,
            },
    {
        let retry = match &route.retry {
            Some(r) => Some(
                RetryPolicy {
                    timeout: r.timeout,
                    retryable_http_statuses: Some(r.status_ranges.copy()),
                    retryable_grpc_statuses: None,
                    max_retries: r.max_retries as usize,
                    max_request_bytes: r.max_request_bytes,
                    backoff: r.backoff,
                },
            ),
            None => None,
        };
        Params {
            retry,
            timeouts: route.timeouts,
            allow_l5d_request_headers: route.allow_l5d_request_headers,
        }
    }

    /// The parameters of a gRPC route, which sends requests again by gRPC code.
    pub fn grpc(route: &RouteParams<GrpcRetry>) -> (p: Params)
        ensures
            p.timeouts == route.timeouts,
            p.allow_l5d_request_headers == route.allow_l5d_request_headers,
            policy_of(p.retry) == match route.retry {
                Some(r) => Some(
                    RetryPolicyView {
                        timeout: r.timeout,
                        http: None,
                        grpc: Some(r.codes.0@),
                        max_retries: r.max_retries as nat,
                        max_request_bytes: r.max_request_bytes as nat,
                        backoff: r.backoff,
                    },
                ),
                None => None,
            },
    {
        let retry = match &route.retry {
            Some(r) => Some(
                RetryPolicy {
                    timeout: r.timeout,
                    retryable_http_statuses: None,
                    retryable_grpc_statuses: Some(Codes(r.codes.0.clone())),
                    max_retries: r.max_retries as usize,
                    max_request_bytes: r.max_request_bytes,
                    backoff: r.backoff,
                },
            ),
            None => None,
        };
        Params {
            retry,
            timeouts: route.timeouts,
            allow_l5d_request_headers: route.allow_l5d_request_headers,
        }
    }
}

/// A stack whose services set the extensions of requests.
#[derive(Clone, Debug)]
pub struct NewSetExtensions<N> {
    pub inner: N,
}

/// A service that sets the extensions of requests.
#[derive(Clone, Debug)]
pub struct SetExtensions<S> {
    pub inner: S,
    pub params: Params,
}

impl<N> NewSetExtensions<N> {
    pub fn new_service<S>(&self, params: Params, inner: S) -> (s: SetExtensions<S>)
        ensures
            s.inner == inner,
            s.params == params,
    {
        SetExtensions { inner, params }
    }
}

/// What a request carries through its route.
#[derive(Debug)]
pub struct RouteExtensions {
    pub retry: Option<RetryPolicy>,
    pub timeouts: StreamTimeouts,
    pub attempt: Attempt,
}

pub open spec fn policy_of(r: Option<RetryPolicy>) -> Option<RetryPolicyView> {
    match r {
        Some(r) => Some(r@),
        None => None,
    }
}

/// The first value of a field, if it is text.
pub open spec fn text_value(fields: Map<Seq<char>, Seq<Seq<u8>>>, name: Seq<char>) -> Option<
    Seq<u8>,
> {
    match first_value(fields, name) {
        Some(v) if is_text(v) => Some(v),
        _ => None,
    }
}

/// The span in a field.
pub open spec fn duration_value(fields: Map<Seq<char>, Seq<Seq<u8>>>, name: Seq<char>) -> Option<
    Duration,
> {
    match text_value(fields, name) {
        Some(v) => duration_of(v),
        None => None,
    }
}

pub open spec fn user_http(fields: Map<Seq<char>, Seq<Seq<u8>>>) -> Option<Seq<(u16, u16)>> {
    match text_value(fields, "l5d-retry-http"@) {
        Some(v) => Some(http_conditions(parts(v, 44))),
        None => None,
    }
}

pub open spec fn user_grpc(fields: Map<Seq<char>, Seq<Seq<u8>>>) -> Option<Set<u16>> {
    match text_value(fields, "l5d-retry-grpc"@) {
        Some(v) => Some(grpc_conditions(parts(v, 44))),
        None => None,
    }
}

pub open spec fn user_limit(fields: Map<Seq<char>, Seq<Seq<u8>>>) -> Option<nat> {
    match text_value(fields, "l5d-retry-limit"@) {
        Some(v) => at_most(unsigned(v), usize::MAX as nat),
        None => None,
    }
}

pub open spec fn user_timeout(fields: Map<Seq<char>, Seq<Seq<u8>>>) -> Option<Duration> {
    duration_value(fields, "l5d-retry-timeout"@)
}

/// The first of two values that is there.
pub open spec fn or<T>(a: Option<T>, b: Option<T>) -> Option<T> {
    if a is Some {
        a
    } else {
        b
    }
}

pub const DEFAULT_MAX_REQUEST_BYTES: usize = 65536;

/// The retry policy of a request: that of the route, with what the headers ask for in its place.
/// Without a policy of the route, the headers alone make one if at least one of them says
/// something.
pub open spec fn configured_retry(
    retry: Option<RetryPolicyView>,
    fields: Map<Seq<char>, Seq<Seq<u8>>>,
) -> Option<RetryPolicyView> {
    match retry {
        Some(retry) => Some(
            RetryPolicyView {
                timeout: or(user_timeout(fields), retry.timeout),
                http: or(user_http(fields), retry.http),
                grpc: or(user_grpc(fields), retry.grpc),
                max_retries: or(user_limit(fields), Some(retry.max_retries))->0,
                ..retry
            },
        ),
        None => if user_http(fields) is None && user_grpc(fields) is None && user_limit(
            fields,
        ) is None && user_timeout(fields) is None {
            None
        } else {
            Some(
                RetryPolicyView {
                    timeout: user_timeout(fields),
                    http: user_http(fields),
                    grpc: user_grpc(fields),
                    max_retries: or(user_limit(fields), Some(1nat))->0,
                    max_request_bytes: DEFAULT_MAX_REQUEST_BYTES as nat,
                    backoff: Some(
                        ExponentialBackoff {
                            min: Duration { nanos: 25_000_000 },
                            max: Duration { nanos: 250_000_000 },
                            jitter_percent: 100,
                        },
                    ),
                },
            )
        },
    }
}

/// The fields without those that speak of retries.
pub open spec fn without_retry_headers(fields: Map<Seq<char>, Seq<Seq<u8>>>) -> Map<
    Seq<char>,
    Seq<Seq<u8>>,
> {
    fields.remove(header_key("l5d-retry-http"@)).remove(header_key("l5d-retry-grpc"@)).remove(
        header_key("l5d-retry-limit"@),
    ).remove(header_key("l5d-retry-timeout"@))
}

/// The fields without those that speak of timeouts.
pub open spec fn without_timeout_headers(fields: Map<Seq<char>, Seq<Seq<u8>>>) -> Map<
    Seq<char>,
    Seq<Seq<u8>>,
> {
    fields.remove(header_key("l5d-timeout"@)).remove(header_key("l5d-request-timeout"@)).remove(
        header_key("l5d-response-timeout"@),
    )
}

/// The deadlines of a request: those of the route, with what the headers ask for in their place.
/// The longer name of the limit on the whole request wins over the shorter one.
pub open spec fn configured_timeouts(
    timeouts: Timeouts,
    fields: Map<Seq<char>, Seq<Seq<u8>>>,
    now: Instant,
) -> StreamTimeouts {
    StreamTimeouts {
        response_headers: None,
        response_end: or(duration_value(fields, "l5d-response-timeout"@), timeouts.response),
        idle: timeouts.idle,
        limit: match or(
            duration_value(fields, "l5d-request-timeout"@),
            or(duration_value(fields, "l5d-timeout"@), timeouts.request),
        ) {
            Some(lifetime) => Some(StreamLifetime::starting(now, lifetime)),
            None => None,
        },
    }
}

proof fn lemma_keys_of_other_length(a: Seq<char>, b: Seq<char>)
    requires
        a.len() != b.len(),
    ensures
        header_key(a) != header_key(b),
{
    assert(header_key(a).len() == a.len());
    assert(header_key(b).len() == b.len());
}

proof fn lemma_header_keys()
    ensures
        header_key("l5d-retry-http"@) != header_key("l5d-retry-grpc"@),
        header_key("l5d-retry-http"@) != header_key("l5d-retry-limit"@),
        header_key("l5d-retry-http"@) != header_key("l5d-retry-timeout"@),
        header_key("l5d-retry-grpc"@) != header_key("l5d-retry-limit"@),
        header_key("l5d-retry-grpc"@) != header_key("l5d-retry-timeout"@),
        header_key("l5d-retry-limit"@) != header_key("l5d-retry-timeout"@),
        header_key("l5d-timeout"@) != header_key("l5d-request-timeout"@),
        header_key("l5d-timeout"@) != header_key("l5d-response-timeout"@),
        header_key("l5d-request-timeout"@) != header_key("l5d-response-timeout"@),
{
    reveal_strlit("l5d-retry-http");
    reveal_strlit("l5d-retry-grpc");
    reveal_strlit("l5d-retry-limit");
    reveal_strlit("l5d-retry-timeout");
    reveal_strlit("l5d-timeout");
    reveal_strlit("l5d-request-timeout");
    reveal_strlit("l5d-response-timeout");
    assert(header_key("l5d-retry-http"@)[10] == lower('h'));
    assert(header_key("l5d-retry-grpc"@)[10] == lower('g'));
    lemma_keys_of_other_length("l5d-retry-http"@, "l5d-retry-limit"@);
    lemma_keys_of_other_length("l5d-retry-http"@, "l5d-retry-timeout"@);
    lemma_keys_of_other_length("l5d-retry-grpc"@, "l5d-retry-limit"@);
    lemma_keys_of_other_length("l5d-retry-grpc"@, "l5d-retry-timeout"@);
    lemma_keys_of_other_length("l5d-retry-limit"@, "l5d-retry-timeout"@);
    lemma_keys_of_other_length("l5d-timeout"@, "l5d-request-timeout"@);
    lemma_keys_of_other_length("l5d-timeout"@, "l5d-response-timeout"@);
    lemma_keys_of_other_length("l5d-request-timeout"@, "l5d-response-timeout"@);
}

/// The headers that speak of retries say nothing about deadlines.
proof fn lemma_timeouts_outlive_retry_headers(
    timeouts: Timeouts,
    fields: Map<Seq<char>, Seq<Seq<u8>>>,
    now: Instant,
)
    ensures
        configured_timeouts(timeouts, without_retry_headers(fields), now) == configured_timeouts(
            timeouts,
            fields,
            now,
        ),
{
    reveal_strlit("l5d-retry-http");
    reveal_strlit("l5d-retry-grpc");
    reveal_strlit("l5d-retry-limit");
    reveal_strlit("l5d-retry-timeout");
    reveal_strlit("l5d-timeout");
    reveal_strlit("l5d-request-timeout");
    reveal_strlit("l5d-response-timeout");
    lemma_removed_apart(fields, "l5d-timeout"@);
    lemma_removed_apart(fields, "l5d-request-timeout"@);
    lemma_removed_apart(fields, "l5d-response-timeout"@);
}

proof fn lemma_removed_apart(fields: Map<Seq<char>, Seq<Seq<u8>>>, name: Seq<char>)
    requires
        name.len() != "l5d-retry-http"@.len(),
        name.len() != "l5d-retry-grpc"@.len(),
        name.len() != "l5d-retry-limit"@.len(),
        name.len() != "l5d-retry-timeout"@.len(),
    ensures
        first_value(without_retry_headers(fields), name) == first_value(fields, name),
{
    lemma_keys_of_other_length(name, "l5d-retry-http"@);
    lemma_keys_of_other_length(name, "l5d-retry-grpc"@);
    lemma_keys_of_other_length(name, "l5d-retry-limit"@);
    lemma_keys_of_other_length(name, "l5d-retry-timeout"@);
}

/// Removes a field and hands back its first value if that is text.
fn remove_text(req: &mut HeaderMap<HeaderValue>, name: &str) -> (r: Option<Vec<u8>>)
    ensures
        crate::headers::bytes_of(r) == text_value(header_fields(*old(req)), name@),
        header_fields(*final(req)) == header_fields(*old(req)).remove(header_key(name@)),
{
    match header_remove(req, name) {
        Some(v) => if is_text_value(&v) {
            Some(v)
        } else {
            None
        },
        None => None,
    }
}

/// Removes a field and reads the span in it.
fn remove_duration(req: &mut HeaderMap<HeaderValue>, name: &str) -> (r: Option<Duration>)
    ensures
        r == duration_value(header_fields(*old(req)), name@),
        header_fields(*final(req)) == header_fields(*old(req)).remove(header_key(name@)),
{
    match header_remove(req, name) {
        Some(v) => parse_duration(&v),
        None => None,
    }
}

impl<S> SetExtensions<S> {
    /// Works out the retry policy of a request. The headers that speak of it count, and are
    /// removed, only where the route allows them.
    pub fn configure_retry(&self, req: &mut HeaderMap<HeaderValue>) -> (r: Option<RetryPolicy>)
        ensures
            !self.params.allow_l5d_request_headers ==> {
                &&& policy_of(r) == policy_of(self.params.retry)
                &&& header_fields(*final(req)) == header_fields(*old(req))
            },
            self.params.allow_l5d_request_headers ==> {
                &&& policy_of(r) == configured_retry(
                    policy_of(self.params.retry),
                    header_fields(*old(req)),
                )
                &&& header_fields(*final(req)) == without_retry_headers(header_fields(*old(req)))
            },
    {
        if !self.params.allow_l5d_request_headers {
            return match &self.params.retry {
                Some(retry) => Some(retry.copy()),
                None => None,
            };
        }
        proof {
            lemma_header_keys();
        }
        let user_retry_http = match remove_text(req, "l5d-retry-http") {
            Some(v) => parse_http_conditions(&v),
            None => None,
        };
        let user_retry_grpc = match remove_text(req, "l5d-retry-grpc") {
            Some(v) => parse_grpc_conditions(&v),
            None => None,
        };
        let user_retry_limit: Option<usize> = match remove_text(req, "l5d-retry-limit") {
            Some(v) => match parse_u64(&v) {
                Some(n) => if n <= usize::MAX as u64 {
                    Some(n as usize)
                } else {
                    None
                },
                None => None,
            },
            None => None,
        };
        let user_retry_timeout = remove_duration(req, "l5d-retry-timeout");
        if let Some(retry) = &self.params.retry {
            return Some(
                RetryPolicy {
                    timeout: match user_retry_timeout {
                        Some(t) => Some(t),
                        None => retry.timeout,
                    },
                    retryable_http_statuses: match user_retry_http {
                        Some(r) => Some(r),
                        None => copy_ranges(&retry.retryable_http_statuses),
                    },
                    retryable_grpc_statuses: match user_retry_grpc {
                        Some(c) => Some(c),
                        None => copy_codes(&retry.retryable_grpc_statuses),
                    },
                    max_retries: match user_retry_limit {
                        Some(n) => n,
                        None => retry.max_retries,
                    },
                    max_request_bytes: retry.max_request_bytes,
                    backoff: retry.backoff,
                },
            );
        }
        match (user_retry_http, user_retry_grpc, user_retry_limit, user_retry_timeout) {
            (None, None, None, None) => None,
            (retryable_http_statuses, retryable_grpc_statuses, retry_limit, timeout) => Some(
                RetryPolicy {
                    timeout,
                    retryable_http_statuses,
                    retryable_grpc_statuses,
                    max_retries: match retry_limit {
                        Some(n) => n,
                        None => 1,
                    },
                    max_request_bytes: DEFAULT_MAX_REQUEST_BYTES,
                    backoff: Some(
                        ExponentialBackoff {
                            min: Duration::from_millis(25),
                            max: Duration::from_millis(250),
                            jitter_percent: 100,
                        },
                    ),
                },
            ),
        }
    }

    /// Works out the deadlines of a request that begins at `now`. The headers that speak of them
    /// count, and are removed, only where the route allows them.
    pub fn configure_timeouts(&self, req: &mut HeaderMap<HeaderValue>, now: Instant) -> (t:
        StreamTimeouts)
        ensures
            !self.params.allow_l5d_request_headers ==> {
                &&& t == configured_timeouts(self.params.timeouts, Map::empty(), now)
                &&& header_fields(*final(req)) == header_fields(*old(req))
            },
            self.params.allow_l5d_request_headers ==> {
                &&& t == configured_timeouts(self.params.timeouts, header_fields(*old(req)), now)
                &&& header_fields(*final(req)) == without_timeout_headers(header_fields(*old(req)))
            },
    {
        let mut timeouts = StreamTimeouts {
            response_headers: None,
            response_end: self.params.timeouts.response,
            idle: self.params.timeouts.idle,
            limit: match self.params.timeouts.request {
                Some(lifetime) => Some(StreamLifetime::new(now, lifetime)),
                None => None,
            },
        };
        if !self.params.allow_l5d_request_headers {
            return timeouts;
        }
        proof {
            lemma_header_keys();
        }
        if let Some(t) = remove_duration(req, "l5d-timeout") {
            timeouts.limit = Some(StreamLifetime::new(now, t));
        }
        if let Some(t) = remove_duration(req, "l5d-request-timeout") {
            timeouts.limit = Some(StreamLifetime::new(now, t));
        }
        if let Some(t) = remove_duration(req, "l5d-response-timeout") {
            timeouts.response_end = Some(t);
        }
        timeouts
    }

    /// Sets up the extensions of a request that begins at `now`. Under a retry policy with a
    /// timeout, the head of the response is due within it.
    pub fn call(&self, req: &mut HeaderMap<HeaderValue>, now: Instant) -> (r: RouteExtensions)
        ensures
            r.attempt == Attempt(1),
            ({
                let fields = header_fields(*old(req));
                let allowed = self.params.allow_l5d_request_headers;
                let retry = if allowed {
                    configured_retry(policy_of(self.params.retry), fields)
                } else {
                    policy_of(self.params.retry)
                };
                &&& policy_of(r.retry) == retry
                &&& r.timeouts == (StreamTimeouts {
                    response_headers: if retry is Some {
                        retry->0.timeout
                    } else {
                        None
                    },
                    ..configured_timeouts(
                        self.params.timeouts,
                        if allowed {
                            fields
                        } else {
                            Map::empty()
                        },
                        now,
                    )
                })
                &&& header_fields(*final(req)) == if allowed {
                    without_timeout_headers(without_retry_headers(fields))
                } else {
                    fields
                }
            }),
            r.retry is None ==> r.timeouts.response_headers is None,
            r.retry matches Some(policy) ==> r.timeouts.response_headers == policy.timeout,
            r.timeouts.idle == self.params.timeouts.idle,
    {
        let retry = self.configure_retry(req);
        proof {
            lemma_timeouts_outlive_retry_headers(self.params.timeouts, header_fields(*old(req)), now);
        }
        let mut timeouts = self.configure_timeouts(req, now);
        timeouts.response_headers =
        match &retry {
            Some(r) => r.timeout,
            None => None,
        };
        RouteExtensions { retry, timeouts, attempt: Attempt(1) }
    }
}

/// Where no header speaks of deadlines, those of the route stand.
pub proof fn route_deadlines_stand(params: Timeouts, now: Instant)
    ensures
        configured_timeouts(params, Map::empty(), now) == (StreamTimeouts {
            response_headers: None,
            response_end: params.response,
            idle: params.idle,
            limit: match params.request {
                Some(lifetime) => Some(StreamLifetime::starting(now, lifetime)),
                None => None,
            },
        }),
{
}

/// Where headers count, none of those that speak of retries or deadlines is passed on, and every
/// other header is passed on as it is.
pub proof fn only_own_headers_are_removed(fields: Map<Seq<char>, Seq<Seq<u8>>>, key: Seq<char>)
    ensures
        ({
            let own = {
                ||| key == header_key("l5d-retry-http"@)
                ||| key == header_key("l5d-retry-grpc"@)
                ||| key == header_key("l5d-retry-limit"@)
                ||| key == header_key("l5d-retry-timeout"@)
                ||| key == header_key("l5d-timeout"@)
                ||| key == header_key("l5d-request-timeout"@)
                ||| key == header_key("l5d-response-timeout"@)
            };
            let passed = without_timeout_headers(without_retry_headers(fields));
            &&& own ==> !passed.contains_key(key)
            &&& !own ==> passed.contains_key(key) == fields.contains_key(key)
            &&& !own && fields.contains_key(key) ==> passed[key] == fields[key]
        }),
{
}

/// A request whose headers say nothing about retries has the policy of its route.
pub proof fn silent_headers_change_nothing(
    retry: Option<RetryPolicyView>,
    fields: Map<Seq<char>, Seq<Seq<u8>>>,
)
    requires
        user_http(fields) is None,
        user_grpc(fields) is None,
        user_limit(fields) is None,
        user_timeout(fields) is None,
    ensures
        configured_retry(retry, fields) == retry,
{
}

/// A condition on HTTP statuses may be a status, which must be one from 100 to 599 and stands for
/// itself, or two of them in order with a dash between them, which stand for all from the first to
/// the second.
pub proof fn statuses_and_ranges_are_conditions(a: Seq<u8>, b: Seq<u8>)
    requires
        a.len() > 0,
        b.len() > 0,
        forall|i: int| 0 <= i < a.len() ==> 48 <= #[trigger] a[i] <= 57,
        forall|i: int| 0 <= i < b.len() ==> 48 <= #[trigger] b[i] <= 57,
    ensures
        unsigned(a) is Some,
        unsigned(b) is Some,
        100 <= unsigned(a)->0 <= 599 ==> http_condition(a) == Some(
            (unsigned(a)->0 as u16, unsigned(a)->0 as u16),
        ),
        unsigned(a)->0 < 100 || unsigned(a)->0 > 599 ==> http_condition(a) is None,
        100 <= unsigned(a)->0 <= unsigned(b)->0 <= 599 ==> http_condition(a + seq![45u8] + b) == Some(
            (unsigned(a)->0 as u16, unsigned(b)->0 as u16),
        ),
        unsigned(a)->0 < 100 || unsigned(b)->0 > 599 || unsigned(a)->0 > unsigned(b)->0
            ==> http_condition(a + seq![45u8] + b) is None,
{
    numbers_are_positional(a, 48);
    numbers_are_positional(b, 48);
    reveal_strlit("5xx");
    assert("5xx".is_ascii());
    reveal_strlit("gateway-error");
    assert("gateway-error".is_ascii());
    let named = "5xx".spec_bytes();
    let gateway = "gateway-error".spec_bytes();
    assert(named.len() == 3 && named[2] == 120);
    assert(gateway.len() == 13 && gateway[12] == 114);
    let last_a = a[a.len() - 1];
    if same_text(a, named) {
        assert(lower_byte(a[2]) == lower_byte(named[2]));
    }
    if same_text(a, gateway) {
        assert(lower_byte(a[12]) == lower_byte(gateway[12]));
    }
    first_separator_is_found(a, 45);
    assert(first_index(a, 45) == a.len());
    let range = a + seq![45u8] + b;
    let last = range[range.len() - 1];
    assert(last == b[b.len() - 1]);
    if same_text(range, named) {
        assert(lower_byte(range[2]) == lower_byte(named[2]));
    }
    if same_text(range, gateway) {
        assert(lower_byte(range[12]) == lower_byte(gateway[12]));
    }
    assert(range[a.len() as int] == 45);
    other_texts_are_no_numbers(range, a.len() as int);
    first_separator_is_found(range, 45);
    assert forall|i: int| 0 <= i < a.len() implies range[i] != 45 by {
        assert(range[i] == a[i]);
    }
    assert(first_index(range, 45) == a.len()) by {
        let at = first_index(range, 45);
        if at < a.len() {
            assert(range[at] == 45);
        } else if at > a.len() {
            assert(range[a.len() as int] != 45);
        }
    }
    assert(range.take(a.len() as int) =~= a);
    assert(range.skip(a.len() as int + 1) =~= b);
}

/// Two classes of errors have names, which may be written in any case: `5xx` stands for 500 to 599
/// and `gateway-error` for 502 to 504.
pub proof fn classes_of_errors_have_names(cond: Seq<u8>)
    ensures
        cond.len() == 3 && cond[0] == 53 && (cond[1] == 120 || cond[1] == 88) && (cond[2] == 120
            || cond[2] == 88) ==> http_condition(cond) == Some((500u16, 599u16)),
        same_text(cond, "gateway-error".spec_bytes()) ==> http_condition(cond) == Some(
            (502u16, 504u16),
        ),
{
    reveal_strlit("5xx");
    assert("5xx".is_ascii());
    reveal_strlit("gateway-error");
    assert("gateway-error".is_ascii());
    let named = "5xx".spec_bytes();
    assert(named.len() == 3 && named[0] == 53 && named[1] == 120 && named[2] == 120);
    assert("gateway-error".spec_bytes().len() == 13);
    if cond.len() == 3 && cond[0] == 53 && (cond[1] == 120 || cond[1] == 88) && (cond[2] == 120
        || cond[2] == 88) {
        assert(same_text(cond, named));
    }
}

/// Conditions are read one by one, whatever stands around them: those of a list are those of its
/// first part and then those of the rest.
pub proof fn http_conditions_add_up(conds: Seq<Seq<u8>>, more: Seq<Seq<u8>>, cond: Seq<u8>)
    ensures
        http_conditions(Seq::empty()) == Seq::<(u16, u16)>::empty(),
        http_conditions(conds + more) == http_conditions(conds) + http_conditions(more),
        http_condition(cond) matches Some(range) ==> http_conditions(seq![cond]) == seq![range],
        http_condition(cond) is None ==> http_conditions(seq![cond]) == Seq::<(u16, u16)>::empty(),
    decreases more.len(),
{
    let one = seq![cond];
    assert(one.drop_last() =~= Seq::<Seq<u8>>::empty());
    assert(one.last() == cond);
    assert(http_conditions(one.drop_last()) =~= Seq::<(u16, u16)>::empty());
    if http_condition(cond) is Some {
        assert(http_conditions(one) =~= seq![http_condition(cond)->0]);
    }
    if more.len() == 0 {
        assert(conds + more =~= conds);
        assert(http_conditions(conds) + http_conditions(more) =~= http_conditions(conds));
    } else {
        assert((conds + more).drop_last() =~= conds + more.drop_last());
        assert((conds + more).last() == more.last());
        http_conditions_add_up(conds, more.drop_last(), cond);
        assert(http_conditions(conds + more) =~= http_conditions(conds) + http_conditions(more));
    }
}

/// The same of conditions on gRPC codes, where order does not matter.
pub proof fn grpc_conditions_add_up(conds: Seq<Seq<u8>>, more: Seq<Seq<u8>>, cond: Seq<u8>)
    ensures
        grpc_conditions(Seq::empty()) == Set::<u16>::empty(),
        grpc_conditions(conds + more) == grpc_conditions(conds).union(grpc_conditions(more)),
        grpc_condition(cond) matches Some(code) ==> grpc_conditions(seq![cond]) == set![code],
        grpc_condition(cond) is None ==> grpc_conditions(seq![cond]) == Set::<u16>::empty(),
    decreases more.len(),
{
    let one = seq![cond];
    assert(one.drop_last() =~= Seq::<Seq<u8>>::empty());
    assert(one.last() == cond);
    assert(grpc_conditions(one.drop_last()) =~= Set::<u16>::empty());
    if grpc_condition(cond) is Some {
        assert(grpc_conditions(one) =~= set![grpc_condition(cond)->0]);
    }
    if more.len() == 0 {
        assert(conds + more =~= conds);
        assert(grpc_conditions(conds).union(grpc_conditions(more)) =~= grpc_conditions(conds));
    } else {
        assert((conds + more).drop_last() =~= conds + more.drop_last());
        assert((conds + more).last() == more.last());
        grpc_conditions_add_up(conds, more.drop_last(), cond);
        assert(grpc_conditions(conds + more) =~= grpc_conditions(conds).union(
            grpc_conditions(more),
        ));
    }
}

/// Five gRPC codes have names, which may be written in any case. No other text names a code.
pub proof fn grpc_codes_have_names(cond: Seq<u8>)
    ensures
        same_text(cond, "cancelled".spec_bytes()) ==> grpc_condition(cond) == Some(1u16),
        same_text(cond, "deadline-exceeded".spec_bytes()) ==> grpc_condition(cond) == Some(4u16),
        same_text(cond, "internal".spec_bytes()) ==> grpc_condition(cond) == Some(13u16),
        same_text(cond, "resource-exhausted".spec_bytes()) ==> grpc_condition(cond) == Some(8u16),
        same_text(cond, "unavailable".spec_bytes()) ==> grpc_condition(cond) == Some(14u16),
        grpc_condition(cond) is Some ==> {
            ||| same_text(cond, "cancelled".spec_bytes())
            ||| same_text(cond, "deadline-exceeded".spec_bytes())
            ||| same_text(cond, "internal".spec_bytes())
            ||| same_text(cond, "resource-exhausted".spec_bytes())
            ||| same_text(cond, "unavailable".spec_bytes())
        },
{
    reveal_strlit("cancelled");
    assert("cancelled".is_ascii());
    assert("cancelled".spec_bytes().len() == 9);
    reveal_strlit("deadline-exceeded");
    assert("deadline-exceeded".is_ascii());
    assert("deadline-exceeded".spec_bytes().len() == 17);
    reveal_strlit("internal");
    assert("internal".is_ascii());
    assert("internal".spec_bytes().len() == 8);
    reveal_strlit("resource-exhausted");
    assert("resource-exhausted".is_ascii());
    assert("resource-exhausted".spec_bytes().len() == 18);
    reveal_strlit("unavailable");
    assert("unavailable".is_ascii());
    assert("unavailable".spec_bytes().len() == 11);
}

proof fn lemma_up_to_last_digit(digits: Seq<u8>, unit: Seq<u8>)
    requires
        digits.len() > 0,
        48 <= digits.last() <= 57,
        forall|i: int| 0 <= i < unit.len() ==> !(48 <= #[trigger] unit[i] <= 57),
    ensures
        up_to_last_digit(digits + unit) == digits.len(),
    decreases unit.len(),
{
    if unit.len() == 0 {
        assert(digits + unit =~= digits);
    } else {
        assert((digits + unit).drop_last() =~= digits + unit.drop_last());
        assert((digits + unit).last() == unit[unit.len() - 1]);
        assert forall|i: int| 0 <= i < unit.drop_last().len() implies !(48
            <= #[trigger] unit.drop_last()[i] <= 57) by {
            assert(unit.drop_last()[i] == unit[i]);
        }
        lemma_up_to_last_digit(digits, unit.drop_last());
    }
}

/// The nanoseconds in a unit of time.
pub open spec fn unit_nanos(unit: Seq<u8>) -> Option<nat> {
    if unit == seq![109u8, 115u8] {
        Some(1_000_000)
    } else if unit == seq![115u8] {
        Some(1_000_000_000)
    } else if unit == seq![109u8] {
        Some(60_000_000_000)
    } else if unit == seq![104u8] {
        Some(3_600_000_000_000)
    } else if unit == seq![100u8] {
        Some(86_400_000_000_000)
    } else {
        None
    }
}

/// A whole number of milliseconds, seconds, minutes, hours or days is a span of that length, with
/// blanks around it or not, as long as its milliseconds fit in 64 bits. Zero needs no unit; any
/// other number does, and nothing else is a unit.
pub proof fn spans_are_numbers_with_units(
    before: Seq<u8>,
    digits: Seq<u8>,
    unit: Seq<u8>,
    after: Seq<u8>,
)
    requires
        forall|i: int| 0 <= i < before.len() ==> before[i] == 32 || before[i] == 9,
        forall|i: int| 0 <= i < after.len() ==> after[i] == 32 || after[i] == 9,
        digits.len() > 0,
        forall|i: int| 0 <= i < digits.len() ==> 48 <= #[trigger] digits[i] <= 57,
        forall|i: int| 0 <= i < unit.len() ==> !(48 <= #[trigger] unit[i] <= 57),
        unit.len() > 0 ==> unit.last() != 32 && unit.last() != 9,
    ensures
        unsigned(digits) is Some,
        ({
            let n = unsigned(digits)->0;
            let span = duration_of(before + (digits + unit) + after);
            &&& unit.len() == 0 && n == 0 ==> (span matches Some(d) && d.nanos == 0)
            &&& unit.len() == 0 && n > 0 ==> span is None
            &&& unit.len() > 0 && unit_nanos(unit) is None ==> span is None
            &&& unit_nanos(unit) matches Some(nanos) ==> {
                &&& n * nanos <= 0xffff_ffff_ffff_ffff * 1_000_000 ==> (span matches Some(d)
                    && d.nanos == n * nanos)
                &&& n * nanos > 0xffff_ffff_ffff_ffff * 1_000_000 ==> span is None
            }
        }),
{
    numbers_are_positional(digits, 48);
    let s = digits + unit;
    assert(s[0] == digits[0]);
    assert(digits.last() == digits[digits.len() - 1]);
    if unit.len() > 0 {
        assert(s.last() == unit.last());
    } else {
        assert(s =~= digits);
    }
    blanks_around_are_taken(before, s, after);
    lemma_up_to_last_digit(digits, unit);
    assert(s.take(digits.len() as int) =~= digits);
    assert(s.skip(digits.len() as int) =~= unit);
    reveal_strlit("ms");
    assert("ms".is_ascii());
    reveal_strlit("s");
    assert("s".is_ascii());
    reveal_strlit("m");
    assert("m".is_ascii());
    reveal_strlit("h");
    assert("h".is_ascii());
    reveal_strlit("d");
    assert("d".is_ascii());
    assert("ms".spec_bytes() =~= seq![109u8, 115u8]);
    assert("s".spec_bytes() =~= seq![115u8]);
    assert("m".spec_bytes() =~= seq![109u8]);
    assert("h".spec_bytes() =~= seq![104u8]);
    assert("d".spec_bytes() =~= seq![100u8]);
    let n = unsigned(digits)->0;
    if unit_nanos(unit) is Some {
        assert(unit.len() > 0);
        let mul = unit_millis(unit, n)->0;
        assert(unit_nanos(unit) == Some(mul * 1_000_000));
        assert(n * (mul * 1_000_000) == n * mul * 1_000_000) by (nonlinear_arith);
        assert(n <= n * mul) by (nonlinear_arith)
            requires
                mul >= 1,
        ;
    }
}

proof fn lemma_own_names()
    ensures
        header_key("l5d-retry-http"@) == "l5d-retry-http"@,
        header_key("l5d-retry-grpc"@) == "l5d-retry-grpc"@,
        header_key("l5d-retry-limit"@) == "l5d-retry-limit"@,
        header_key("l5d-retry-timeout"@) == "l5d-retry-timeout"@,
        header_key("l5d-timeout"@) == "l5d-timeout"@,
        header_key("l5d-request-timeout"@) == "l5d-request-timeout"@,
        header_key("l5d-response-timeout"@) == "l5d-response-timeout"@,
{
    reveal_strlit("l5d-retry-http");
    lower_case_names_are_kept("l5d-retry-http"@);
    reveal_strlit("l5d-retry-grpc");
    lower_case_names_are_kept("l5d-retry-grpc"@);
    reveal_strlit("l5d-retry-limit");
    lower_case_names_are_kept("l5d-retry-limit"@);
    reveal_strlit("l5d-retry-timeout");
    lower_case_names_are_kept("l5d-retry-timeout"@);
    reveal_strlit("l5d-timeout");
    lower_case_names_are_kept("l5d-timeout"@);
    reveal_strlit("l5d-request-timeout");
    lower_case_names_are_kept("l5d-request-timeout"@);
    reveal_strlit("l5d-response-timeout");
    lower_case_names_are_kept("l5d-response-timeout"@);
}

/// Each header that speaks of retries speaks for one setting, whatever the others say and whether
/// or not the route has a policy. What no header speaks of stays as the route has it.
pub proof fn each_header_speaks_for_its_setting(
    retry: Option<RetryPolicyView>,
    fields: Map<Seq<char>, Seq<Seq<u8>>>,
)
    ensures
        ({
            let p = configured_retry(retry, fields);
            &&& fields.contains_key("l5d-retry-http"@) && is_text(fields["l5d-retry-http"@][0]) ==> p
                is Some && p->0.http == Some(
                http_conditions(parts(fields["l5d-retry-http"@][0], 44)),
            )
            &&& fields.contains_key("l5d-retry-grpc"@) && is_text(fields["l5d-retry-grpc"@][0]) ==> p
                is Some && p->0.grpc == Some(
                grpc_conditions(parts(fields["l5d-retry-grpc"@][0], 44)),
            )
            &&& fields.contains_key("l5d-retry-limit"@) && is_text(fields["l5d-retry-limit"@][0])
                && unsigned(fields["l5d-retry-limit"@][0]) is Some && unsigned(
                fields["l5d-retry-limit"@][0],
            )->0 <= usize::MAX ==> p is Some && p->0.max_retries == unsigned(
                fields["l5d-retry-limit"@][0],
            )->0
            &&& fields.contains_key("l5d-retry-timeout"@) && is_text(fields["l5d-retry-timeout"@][0])
                && duration_of(fields["l5d-retry-timeout"@][0]) is Some ==> p is Some && p->0.timeout
                == duration_of(fields["l5d-retry-timeout"@][0])
            &&& retry matches Some(r) ==> {
                &&& p is Some
                &&& !fields.contains_key("l5d-retry-http"@) ==> p->0.http == r.http
                &&& !fields.contains_key("l5d-retry-grpc"@) ==> p->0.grpc == r.grpc
                &&& !fields.contains_key("l5d-retry-limit"@) ==> p->0.max_retries == r.max_retries
                &&& !fields.contains_key("l5d-retry-timeout"@) ==> p->0.timeout == r.timeout
                &&& p->0.max_request_bytes == r.max_request_bytes
                &&& p->0.backoff == r.backoff
            }
            &&& retry is None && p is Some ==> {
                &&& !fields.contains_key("l5d-retry-http"@) ==> p->0.http is None
                &&& !fields.contains_key("l5d-retry-grpc"@) ==> p->0.grpc is None
                &&& !fields.contains_key("l5d-retry-limit"@) ==> p->0.max_retries == 1
                &&& !fields.contains_key("l5d-retry-timeout"@) ==> p->0.timeout is None
                &&& p->0.max_request_bytes == 65536
                &&& p->0.backoff matches Some(b) && b.min.nanos == 25_000_000 && b.max.nanos
                    == 250_000_000 && b.jitter_percent == 100
            }
            &&& retry is None && !fields.contains_key("l5d-retry-http"@) && !fields.contains_key(
                "l5d-retry-grpc"@,
            ) && !fields.contains_key("l5d-retry-limit"@) && !fields.contains_key(
                "l5d-retry-timeout"@,
            ) ==> p is None
        }),
{
    lemma_own_names();
}

/// A header that does not hold text, or not what its setting needs, speaks for nothing.
pub proof fn headers_that_make_no_sense_are_ignored(fields: Map<Seq<char>, Seq<Seq<u8>>>)
    ensures
        fields.contains_key("l5d-retry-http"@) && !is_text(fields["l5d-retry-http"@][0])
            ==> user_http(fields) is None,
        fields.contains_key("l5d-retry-grpc"@) && !is_text(fields["l5d-retry-grpc"@][0])
            ==> user_grpc(fields) is None,
        fields.contains_key("l5d-retry-limit"@) && unsigned(fields["l5d-retry-limit"@][0]) is None
            ==> user_limit(fields) is None,
        fields.contains_key("l5d-retry-limit"@) && !is_text(fields["l5d-retry-limit"@][0])
            ==> user_limit(fields) is None,
        fields.contains_key("l5d-retry-timeout"@) && duration_of(fields["l5d-retry-timeout"@][0])
            is None ==> user_timeout(fields) is None,
        fields.contains_key("l5d-retry-timeout"@) && !is_text(fields["l5d-retry-timeout"@][0])
            ==> user_timeout(fields) is None,
{
    lemma_own_names();
}

/// Whether a field holds a span of time.
pub open spec fn holds_span(fields: Map<Seq<char>, Seq<Seq<u8>>>, key: Seq<char>) -> bool {
    fields.contains_key(key) && is_text(fields[key][0]) && duration_of(fields[key][0]) is Some
}

/// The whole request is limited by what `l5d-request-timeout` says, else by what `l5d-timeout` says,
/// else by what the route says, counted from its start. The response is limited by what
/// `l5d-response-timeout` says, else by what the route says. Idleness is up to the route.
pub proof fn each_header_speaks_for_its_deadline(
    timeouts: Timeouts,
    fields: Map<Seq<char>, Seq<Seq<u8>>>,
    now: Instant,
)
    ensures
        ({
            let t = configured_timeouts(timeouts, fields, now);
            &&& t.limit matches Some(l) ==> l.deadline == now.later(l.lifetime)
            &&& holds_span(fields, "l5d-request-timeout"@) ==> t.limit is Some
                && Some(t.limit->0.lifetime) == duration_of(fields["l5d-request-timeout"@][0])
            &&& !holds_span(fields, "l5d-request-timeout"@) && holds_span(fields, "l5d-timeout"@)
                ==> t.limit is Some && Some(t.limit->0.lifetime) == duration_of(
                fields["l5d-timeout"@][0],
            )
            &&& !holds_span(fields, "l5d-request-timeout"@) && !holds_span(fields, "l5d-timeout"@)
                ==> (t.limit is Some <==> timeouts.request is Some) && (t.limit is Some
                ==> timeouts.request == Some(t.limit->0.lifetime))
            &&& holds_span(fields, "l5d-response-timeout"@) ==> t.response_end == duration_of(
                fields["l5d-response-timeout"@][0],
            )
            &&& !holds_span(fields, "l5d-response-timeout"@) ==> t.response_end == timeouts.response
            &&& t.idle == timeouts.idle
            &&& t.response_headers is None
        }),
{
    lemma_own_names();
}

} // verus!
