use http::{HeaderMap, HeaderValue};
use linkerd_app_outbound::classify::{Class, Code};
use linkerd_app_outbound::client_policy::{Codes, ExponentialBackoff, StatusRanges, Timeouts};
use linkerd_app_outbound::errors::{
    Cause, Error, H2Error, Kind, Link, ResponseTimeout, CANCEL, REFUSED_STREAM,
};
use linkerd_app_outbound::headers::{grpc_code, is_text_value};
use linkerd_app_outbound::numbers::{parse_i32, parse_u64};
use linkerd_app_outbound::retry::{self, BudgetOp, RetryCount, MAX_BUFFERED_BYTES};
use linkerd_app_outbound::route::backend::{
    follow_routes, CountRequests, ExtractRecordDurationParams, NewCountRequests, RequestCount,
    RouteAction, RouteEvent,
};
use linkerd_app_outbound::route::deadline::StreamTimeouts;
use linkerd_app_outbound::route::extensions::{
    parse_duration, parse_grpc_conditions, parse_http_conditions, Attempt, GrpcRetry, HttpRetry,
    NewSetExtensions, Params, RouteParams, SetExtensions, DEFAULT_MAX_REQUEST_BYTES,
};
use linkerd_app_outbound::route::filters::{
    apply_grpc_request, apply_grpc_response, apply_http_request, apply_http_response, FailureResponse, GrpcFailure,
    GrpcFilter, HttpFilter, NewApplyFilters, Redirection,
};
use linkerd_app_outbound::route::retry::{ResponseHead, RetryExtensions, RetryPolicy};
use linkerd_app_outbound::text::{eq_ignore_ascii_case, split, split_chars, trim};
use linkerd_app_outbound::time::{Duration, Instant};

fn secs(n: u64) -> Duration {
    Duration::from_secs(n)
}

fn millis(n: u64) -> Duration {
    Duration::from_millis(n)
}

fn start() -> Instant {
    Instant { nanos: 7_000_000_000 }
}

fn headers(fields: &[(&'static str, &'static str)]) -> HeaderMap {
    let mut map = HeaderMap::new();
    for (k, v) in fields {
        map.insert(*k, HeaderValue::from_static(v));
    }
    map
}

fn no_timeouts() -> Timeouts {
    Timeouts { response: None, request: None, idle: None }
}

fn svc(retry: Option<RetryPolicy>, timeouts: Timeouts, allow: bool) -> SetExtensions<()> {
    let params = Params { retry, timeouts, allow_l5d_request_headers: allow };
    NewSetExtensions { inner: () }.new_service(params, ())
}

fn configured() -> RetryPolicy {
    RetryPolicy {
        timeout: Some(secs(3)),
        retryable_http_statuses: Some(StatusRanges::default()),
        retryable_grpc_statuses: None,
        max_retries: 4,
        max_request_bytes: 1000,
        backoff: None,
    }
}

#[test]
fn http() {
    let mut hdrs = headers(&[
        ("l5d-retry-limit", "2"),
        ("l5d-retry-http", "5xx"),
        ("l5d-retry-timeout", "100ms"),
        ("x-other", "kept"),
    ]);
    let ext = svc(None, no_timeouts(), true).call(&mut hdrs, start());
    let retry = ext.retry.expect("the headers ask for retries");
    assert_eq!(retry.max_retries, 2);
    assert_eq!(retry.timeout, Some(millis(100)));
    assert_eq!(retry.max_request_bytes, DEFAULT_MAX_REQUEST_BYTES);
    assert_eq!(
        retry.backoff,
        Some(ExponentialBackoff { min: millis(25), max: millis(250), jitter_percent: 100 })
    );
    assert!(retry.retryable_grpc_statuses.is_none());
    let ranges = retry.retryable_http_statuses.expect("statuses");
    assert!(ranges.contains(500) && ranges.contains(599));
    assert!(!ranges.contains(499) && !ranges.contains(600));
    assert_eq!(ext.timeouts.response_headers, Some(millis(100)));
    assert_eq!(ext.attempt, Attempt(1));
    assert_eq!(hdrs.len(), 1);
    assert_eq!(hdrs.get("x-other").unwrap(), "kept");
}

#[test]
fn http_requires_allow() {
    let mut hdrs = headers(&[("l5d-retry-limit", "1"), ("l5d-retry-http", "5xx")]);
    let ext = svc(None, no_timeouts(), false).call(&mut hdrs, start());
    assert!(ext.retry.is_none());
    assert_eq!(hdrs.len(), 2, "headers are passed on where they do not count");
}

#[test]
fn grpc() {
    let mut hdrs = headers(&[
        ("l5d-retry-limit", "2"),
        ("l5d-retry-grpc", "unavailable"),
        ("l5d-retry-timeout", "100ms"),
    ]);
    let ext = svc(None, no_timeouts(), true).call(&mut hdrs, start());
    let retry = ext.retry.expect("the headers ask for retries");
    let codes = retry.retryable_grpc_statuses.expect("codes");
    assert!(codes.contains(14));
    assert!(!codes.contains(5));
    assert_eq!(retry.max_retries, 2);
    assert!(retry.retryable_http_statuses.is_none());
}

#[test]
fn grpc_requires_allow() {
    let mut hdrs = headers(&[("l5d-retry-grpc", "unavailable")]);
    let retry = svc(None, no_timeouts(), false).configure_retry(&mut hdrs);
    assert!(retry.is_none());
    assert!(hdrs.contains_key("l5d-retry-grpc"));
}

#[test]
fn headers_go_over_the_policy_of_the_route() {
    let mut hdrs = headers(&[("L5D-Retry-Limit", "9"), ("l5d-retry-grpc", "internal,cancelled")]);
    let retry = svc(Some(configured()), no_timeouts(), true)
        .configure_retry(&mut hdrs)
        .expect("the route retries");
    assert_eq!(retry.max_retries, 9);
    assert_eq!(retry.timeout, Some(secs(3)));
    assert_eq!(retry.max_request_bytes, 1000);
    assert!(retry.backoff.is_none());
    assert!(retry.retryable_http_statuses.expect("kept").contains(503));
    let codes = retry.retryable_grpc_statuses.expect("codes");
    assert!(codes.contains(13) && codes.contains(1) && !codes.contains(14));
    assert!(hdrs.is_empty());
}

#[test]
fn senseless_headers_leave_no_policy() {
    let mut hdrs = headers(&[("l5d-retry-limit", "many"), ("l5d-retry-timeout", "10")]);
    let retry = svc(None, no_timeouts(), true).configure_retry(&mut hdrs);
    assert!(retry.is_none());
    assert!(hdrs.is_empty());
}

#[test]
fn explicit_request_timeout_wins() {
    let timeouts = Timeouts { response: Some(secs(8)), request: Some(secs(9)), idle: Some(secs(7)) };
    let mut hdrs = headers(&[
        ("l5d-timeout", "1s"),
        ("l5d-request-timeout", "2s"),
        ("l5d-response-timeout", "3s"),
    ]);
    let t = svc(None, timeouts, true).configure_timeouts(&mut hdrs, start());
    assert_eq!(t.limit.expect("limit").lifetime, secs(2));
    assert_eq!(t.limit.expect("limit").deadline, start().after(secs(2)));
    assert_eq!(t.response_end, Some(secs(3)));
    assert_eq!(t.idle, Some(secs(7)));
    assert!(hdrs.is_empty());

    let mut hdrs = headers(&[("l5d-timeout", "1s")]);
    let t = svc(None, timeouts, true).configure_timeouts(&mut hdrs, start());
    assert_eq!(t.limit.expect("limit").lifetime, secs(1));
    assert_eq!(t.response_end, Some(secs(8)));

    let mut hdrs = headers(&[("l5d-timeout", "1s")]);
    let t = svc(None, timeouts, false).configure_timeouts(&mut hdrs, start());
    assert_eq!(t.limit.expect("limit").lifetime, secs(9));
    assert_eq!(hdrs.len(), 1);
}

#[test]
fn durations() {
    assert_eq!(parse_duration(b"0"), Some(Duration::zero()));
    assert_eq!(parse_duration(b"100ms"), Some(millis(100)));
    assert_eq!(parse_duration(b" 10s\t"), Some(secs(10)));
    assert_eq!(parse_duration(b"+5m"), Some(secs(300)));
    assert_eq!(parse_duration(b"2h"), Some(secs(7200)));
    assert_eq!(parse_duration(b"1d"), Some(secs(86_400)));
    assert_eq!(parse_duration(b"10"), None);
    assert_eq!(parse_duration(b""), None);
    assert_eq!(parse_duration(b"s"), None);
    assert_eq!(parse_duration(b"-1s"), None);
    assert_eq!(parse_duration(b"1 s"), None);
    assert_eq!(parse_duration(b"1.5s"), None);
    assert_eq!(parse_duration(b"18446744073709551615s"), None);
    assert_eq!(parse_duration(b"18446744073709551615ms"), Some(millis(u64::MAX)));
    assert_eq!(parse_duration(b"18446744073709551616ms"), None);
    assert_eq!(parse_duration(b"1s\x7f"), None);
}

#[test]
fn http_conditions() {
    let ranges = |s: &[u8]| parse_http_conditions(s).expect("ranges").0;
    assert_eq!(ranges(b"5XX"), vec![(500, 599)]);
    assert_eq!(ranges(b"gateway-error,404"), vec![(502, 504), (404, 404)]);
    assert_eq!(ranges(b"400-499,nonsense,600,99,500-400"), vec![(400, 499)]);
    assert_eq!(ranges(b""), vec![]);
    assert_eq!(ranges(b"100-599"), vec![(100, 599)]);
    assert_eq!(ranges(b"-100"), vec![]);
}

#[test]
fn grpc_conditions() {
    let codes = parse_grpc_conditions(
        b"Cancelled,deadline-exceeded,internal,resource-exhausted,unavailable,ok",
    )
    .expect("codes");
    let got: Vec<u16> = codes.0.iter().copied().collect();
    assert_eq!(got, vec![1, 4, 8, 13, 14]);
}

#[test]
fn numbers() {
    assert_eq!(parse_u64(b"18446744073709551615"), Some(u64::MAX));
    assert_eq!(parse_u64(b"18446744073709551616"), None);
    assert_eq!(parse_u64(b"+7"), Some(7));
    assert_eq!(parse_u64(b"+"), None);
    assert_eq!(parse_u64(b"-7"), None);
    assert_eq!(parse_i32(b"-2147483648"), Some(i32::MIN));
    assert_eq!(parse_i32(b"2147483648"), None);
    assert_eq!(parse_i32(b"-"), None);
    assert_eq!(parse_i32(b"0008"), Some(8));
}

#[test]
fn texts() {
    assert!(eq_ignore_ascii_case(b"AbC-9", b"aBc-9"));
    assert!(!eq_ignore_ascii_case(b"abc", b"abd"));
    assert_eq!(trim(b" \t x y \t"), b"x y");
    assert_eq!(split(b"a,,b", 44), vec![b"a".to_vec(), vec![], b"b".to_vec()]);
    assert_eq!(split_chars("a.b", '.'), vec!["a".to_string(), "b".to_string()]);
    assert_eq!(split_chars("", '.'), vec!["".to_string()]);
    assert!(is_text_value(b"a b\tc"));
    assert!(!is_text_value(b"a\nb"));
}

#[test]
fn grpc_codes_are_read_from_numbers() {
    for n in 0..17 {
        assert_eq!(Code::from_i32(n).to_u16() as i32, n);
    }
    assert_eq!(Code::from_i32(17), Code::Unknown);
    assert_eq!(Code::from_i32(-1), Code::Unknown);
    assert_eq!(grpc_code(&headers(&[("grpc-status", "5")])), Some(Code::NotFound));
    assert_eq!(grpc_code(&headers(&[("grpc-status", "99")])), Some(Code::Unknown));
    assert_eq!(grpc_code(&headers(&[("grpc-status", "x")])), None);
    assert_eq!(grpc_code(&HeaderMap::new()), None);
    let mut twice = headers(&[("grpc-status", "8")]);
    twice.append("grpc-status", HeaderValue::from_static("0"));
    assert_eq!(grpc_code(&twice), Some(Code::ResourceExhausted));
}

fn http_policy(max_retries: u16, timeout: Option<Duration>) -> RetryPolicy {
    Params::http(&RouteParams {
        timeouts: no_timeouts(),
        retry: Some(HttpRetry {
            max_retries,
            max_request_bytes: 1000,
            status_ranges: StatusRanges::default(),
            timeout,
            backoff: None,
        }),
        allow_l5d_request_headers: false,
    })
    .retry
    .expect("the route retries")
}

fn is_retryable(policy: &RetryPolicy, status: u16) -> bool {
    let headers = HeaderMap::new();
    policy.is_retryable(Ok(&ResponseHead { status, headers: &headers, trailers: None }))
}

#[test]
fn http_5xx() {
    let policy = http_policy(1, None);
    assert!(is_retryable(&policy, 500));
    assert!(!is_retryable(&policy, 204));
}

#[test]
fn http_5xx_limited() {
    let policy = http_policy(2, None);
    assert_eq!(policy.max_retries, 2);
    assert!(is_retryable(&policy, 504));
}

fn error(cause: Cause) -> Error {
    Error {
        outer: Link { cause: Cause::Other, message: "outer".to_string() },
        sources: vec![Link { cause, message: "inner".to_string() }],
    }
}

#[test]
fn http_timeout() {
    let policy = http_policy(1, Some(millis(500)));
    let timed_out = error(Cause::ResponseTimeout(ResponseTimeout::Headers));
    assert!(policy.is_retryable(Err(&timed_out)));
    let too_late = error(Cause::ResponseTimeout(ResponseTimeout::Lifetime));
    assert!(!policy.is_retryable(Err(&too_late)));
}

#[test]
fn errors_worth_another_try() {
    assert!(RetryPolicy::retryable_error(&error(Cause::FailFast)));
    assert!(!RetryPolicy::retryable_error(&error(Cause::LoadShed)));
    assert!(!RetryPolicy::retryable_error(&error(Cause::Io)));
    let mut both = error(Cause::FailFast);
    both.sources.push(Link { cause: Cause::LoadShed, message: String::new() });
    assert!(!RetryPolicy::retryable_error(&both));
    let h2 = |reason| {
        error(Cause::H2(H2Error { is_reset: true, is_go_away: false, is_io: false, reason }))
    };
    assert!(RetryPolicy::retryable_error(&h2(Some(REFUSED_STREAM))));
    assert!(!RetryPolicy::retryable_error(&h2(Some(CANCEL))));
    assert!(!RetryPolicy::retryable_error(&h2(None)));
    assert_eq!(both.cause_ref(Kind::LoadShed).expect("there").message, "");
}

fn extensions(attempt: Option<u16>) -> RetryExtensions<u8, u8> {
    RetryExtensions {
        attempt: attempt.map(Attempt),
        timeouts: Some(StreamTimeouts {
            response_headers: Some(millis(500)),
            ..StreamTimeouts::default()
        }),
        client_handle: Some(1),
        classify: Some(2),
    }
}

#[test]
fn http_timeout_on_limit() {
    let policy = http_policy(1, Some(millis(500)));
    let next = policy.set_extensions(extensions(Some(1)));
    assert_eq!(next.attempt, Some(Attempt(2)));
    assert_eq!(next.timeouts.expect("kept").response_headers, None);
    assert_eq!((next.client_handle, next.classify), (Some(1), Some(2)));
}

#[test]
fn http_timeout_with_request_timeout() {
    let policy = http_policy(2, Some(millis(100)));
    let second = policy.set_extensions(extensions(Some(1)));
    assert_eq!(second.timeouts.expect("kept").response_headers, Some(millis(500)));
    let third = policy.set_extensions(RetryExtensions { attempt: second.attempt, ..extensions(None) });
    assert_eq!(third.attempt, Some(Attempt(3)));
    assert_eq!(third.timeouts.expect("kept").response_headers, None);
    assert_eq!(policy.set_extensions(extensions(None)).attempt, Some(Attempt(2)));
    assert_eq!(policy.set_extensions(extensions(Some(u16::MAX))).attempt, Some(Attempt(u16::MAX)));
}

fn grpc_policy(codes: &[u16]) -> RetryPolicy {
    let mut set = Codes::new();
    for code in codes {
        set.insert(*code);
    }
    Params::grpc(&RouteParams {
        timeouts: no_timeouts(),
        retry: Some(GrpcRetry {
            max_retries: 1,
            max_request_bytes: 1000,
            codes: set,
            timeout: None,
            backoff: None,
        }),
        allow_l5d_request_headers: false,
    })
    .retry
    .expect("the route retries")
}

#[test]
fn grpc_internal() {
    let policy = grpc_policy(&[13]);
    let hdrs = HeaderMap::new();
    let internal = headers(&[("grpc-status", "13")]);
    let okay = headers(&[("grpc-status", "0")]);
    let head = |trailers| ResponseHead { status: 200, headers: &hdrs, trailers };
    assert!(policy.is_retryable(Ok(&head(Some(&internal)))));
    assert!(!policy.is_retryable(Ok(&head(Some(&okay)))));
    assert!(!policy.is_retryable(Ok(&head(None))));
    let both = ResponseHead { status: 200, headers: &okay, trailers: Some(&internal) };
    assert!(!policy.is_retryable(Ok(&both)), "headers come first");
}

#[test]
fn grpc_timeout() {
    let policy = grpc_policy(&[]);
    let timed_out = error(Cause::ResponseTimeout(ResponseTimeout::Headers));
    assert!(policy.is_retryable(Err(&timed_out)));
    assert!(!is_retryable(&policy, 500));
}

#[test]
fn profile_retries_stay_within_budget_and_limit() {
    let policy = retry::RetryPolicy { max_per_request: Some(1) };
    let failure = Some(Class::Http(Err(500)));
    assert_eq!(policy.retry(failure, false, None), BudgetOp::Withdraw);
    assert_eq!(policy.next_count(None), Some(RetryCount(1)));
    assert_eq!(policy.retry(failure, false, Some(RetryCount(1))), BudgetOp::Deposit);
    assert_eq!(policy.retry(failure, true, None), BudgetOp::Deposit);
    assert_eq!(policy.retry(Some(Class::Http(Ok(200))), false, None), BudgetOp::Deposit);
    assert_eq!(policy.retry(None, false, None), BudgetOp::Deposit);
    let unlimited = retry::RetryPolicy { max_per_request: None };
    assert_eq!(unlimited.retry(failure, false, Some(RetryCount(9))), BudgetOp::Withdraw);
    assert_eq!(unlimited.next_count(Some(RetryCount(9))), None);
    for withdrew in [false, true] {
        assert_eq!(retry::sent_again(BudgetOp::Withdraw, withdrew), withdrew);
        assert!(!retry::sent_again(BudgetOp::Deposit, withdrew));
        assert_eq!(retry::retryable_metric(BudgetOp::Withdraw, withdrew), Some(withdrew));
        assert_eq!(retry::retryable_metric(BudgetOp::Deposit, withdrew), None);
    }
    assert_eq!(MAX_BUFFERED_BYTES, 64 * 1024);
    let params = retry::Params { budget: "budget", max_per_request: Some(3) };
    let (policy, budget) = retry::RetryPolicy::new_policy(Some(params)).expect("retries");
    assert_eq!((policy.max_per_request, budget), (Some(3), "budget"));
    assert!(retry::RetryPolicy::new_policy::<u8>(None).is_none());
}

#[test]
fn http_filter_request_headers() {
    let filters = vec![
        HttpFilter::RequestHeaders,
        HttpFilter::ResponseHeaders,
        HttpFilter::InjectFailure(None),
        HttpFilter::Redirect(Redirection::Irrelevant),
        HttpFilter::RequestHeaders,
    ];
    let applied = apply_http_request(&filters);
    assert!(applied.result.is_ok());
    assert_eq!(applied.changes, vec![0, 4]);
    assert_eq!(apply_http_response(&filters), vec![1]);
    let stack = NewApplyFilters { inner: () }.new_service(filters, "inner");
    assert_eq!(stack.filters.len(), 5);
}

#[test]
fn first_filter_that_ends_a_request_gives_the_error() {
    let failure = || FailureResponse { status: 418, message: "teapot".to_string() };
    let applied = apply_http_request(&[
        HttpFilter::RequestHeaders,
        HttpFilter::InjectFailure(Some(failure())),
        HttpFilter::InternalError("never".to_string()),
        HttpFilter::RequestHeaders,
    ]);
    assert_eq!(applied.changes, vec![0]);
    match applied.result {
        Err(Cause::HttpRouteInjectedFailure(e)) => {
            assert_eq!((e.status, e.message.as_str()), (418, "teapot"));
        }
        other => panic!("unexpected result {other:?}"),
    }
    let to = Redirection::To { status: 301, location: "http://there/".to_string() };
    match apply_http_request(&[HttpFilter::Redirect(to)]).result {
        Err(Cause::HttpRouteRedirect(e)) => {
            assert_eq!((e.status, e.location.as_str()), (301, "http://there/"));
        }
        other => panic!("unexpected result {other:?}"),
    }
    let invalid = HttpFilter::Redirect(Redirection::Invalid("no authority".to_string()));
    match apply_http_request(&[invalid]).result {
        Err(Cause::HttpRouteInvalidRedirect(e)) => assert_eq!(e.0, "no authority"),
        other => panic!("unexpected result {other:?}"),
    }
    match apply_http_request(&[HttpFilter::InternalError("bad".to_string())]).result {
        Err(Cause::HttpInvalidPolicy(e)) => assert_eq!(e.0, "bad"),
        other => panic!("unexpected result {other:?}"),
    }
    let applied = apply_grpc_request(&[
        GrpcFilter::RequestHeaders,
        GrpcFilter::InjectFailure(None),
        GrpcFilter::InjectFailure(Some(GrpcFailure { code: 7, message: "denied".to_string() })),
    ]);
    assert_eq!(applied.changes, vec![0]);
    match applied.result {
        Err(Cause::GrpcRouteInjectedFailure(e)) => assert_eq!(e.code, 7),
        other => panic!("unexpected result {other:?}"),
    }
    assert!(apply_grpc_response(&[GrpcFilter::RequestHeaders]).is_empty());
    match apply_grpc_request(&[GrpcFilter::InternalError("bad".to_string())]).result {
        Err(Cause::HttpInvalidPolicy(e)) => assert_eq!(e.0, "bad"),
        other => panic!("unexpected result {other:?}"),
    }
}

#[test]
fn requests_are_counted() {
    let stack = NewCountRequests::new("extract", "inner");
    let mut requests = RequestCount(0);
    let svc: CountRequests<u8> = stack.new_service(9);
    let other = stack.new_service(8);
    svc.call(&mut requests);
    svc.clone().call(&mut requests);
    other.call(&mut requests);
    assert_eq!(requests, RequestCount(3), "services for the same labels share a count");
    let mut full = RequestCount(u64::MAX);
    svc.call(&mut full);
    assert_eq!(full, RequestCount(0));
    let params = ExtractRecordDurationParams("metric").extract_param("target");
    assert_eq!((params.labeler, params.metric), ("target", "metric"));
}

#[test]
fn routes_follow_their_source() {
    assert!(matches!(follow_routes(RouteEvent::Changed(Some(3))), RouteAction::Send(3)));
    assert!(matches!(follow_routes::<u8>(RouteEvent::Changed(None)), RouteAction::Keep));
    assert!(matches!(follow_routes::<u8>(RouteEvent::Unused), RouteAction::Stop));
    assert!(matches!(follow_routes::<u8>(RouteEvent::SourceClosed), RouteAction::Stop));
}
