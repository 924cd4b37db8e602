use http::{HeaderMap, HeaderValue};
use linkerd_app_outbound::breaker::retry_after::{
    clamp_hint, gated_parse_grpc_retry_pushback, parse_retry_after, take_combined_hint,
    DurationHintStore, GrpcRetryPushbackStore, RetryAfterClassify, RetryAfterStore,
};
use linkerd_app_outbound::breaker::wrap_classify::{
    accrual_max_backoff, accrual_respects_retry_after_hint, is_effectively_disabled,
    NewRetryAfterGateSet, RetryAfterGateParams,
};
use linkerd_app_outbound::classify::{Class, Code};
use linkerd_app_outbound::client_policy::{
    ConsecutiveFailures, ExponentialBackoff, FailureAccrual, SuccessRateThreshold, Unified,
};
use linkerd_app_outbound::time::{Duration, Instant};

fn secs(n: u64) -> Duration {
    Duration::from_secs(n)
}

fn start() -> Instant {
    Instant { nanos: 5_000_000_000 }
}

fn headers(fields: &[(&'static str, &'static str)]) -> HeaderMap {
    let mut map = HeaderMap::new();
    for (k, v) in fields {
        map.insert(*k, HeaderValue::from_static(v));
    }
    map
}

fn combine_hints(http: Option<Duration>, grpc: Option<Duration>) -> Option<Duration> {
    match (http, grpc) {
        (Some(h), Some(g)) => Some(h.max(g)),
        (Some(h), None) => Some(h),
        (None, g) => g,
    }
}

#[test]
fn store_last_value_wins() {
    let mut store = RetryAfterStore::new();
    store.record(secs(10), start());
    store.record(secs(5), start());
    assert_eq!(store.take(secs(1), start()), Some(secs(5)));
}

#[test]
fn store_larger_value_updates() {
    let mut store = RetryAfterStore::new();
    store.record(secs(5), start());
    store.record(secs(10), start());
    assert_eq!(store.take(secs(1), start()), Some(secs(10)));
}

#[test]
fn store_empty_accepts_any() {
    let mut store = RetryAfterStore::default();
    store.record(secs(5), start());
    assert_eq!(store.take(secs(1), start()), Some(secs(5)));
}

#[test]
fn store_take_clears() {
    let mut store = RetryAfterStore::new();
    store.record(secs(10), start());
    assert_eq!(store.take(secs(1), start()), Some(secs(10)));
    assert_eq!(store.take(secs(1), start()), None);
}

#[test]
fn store_after_take_accepts_new() {
    let mut store = RetryAfterStore::new();
    store.record(secs(10), start());
    let _ = store.take(secs(1), start());
    store.record(secs(5), start());
    assert_eq!(store.take(secs(1), start()), Some(secs(5)));
}

#[test]
fn parse_grpc_pushback_positive() {
    let hdrs = headers(&[("grpc-retry-pushback-ms", "5000")]);
    let r = gated_parse_grpc_retry_pushback(Some(Code::ResourceExhausted), &hdrs, secs(300));
    assert_eq!(r, Some(Duration::from_millis(5000)));
}

#[test]
fn parse_grpc_pushback_zero() {
    let hdrs = headers(&[("grpc-retry-pushback-ms", "0")]);
    let r = gated_parse_grpc_retry_pushback(Some(Code::ResourceExhausted), &hdrs, secs(300));
    assert_eq!(r, Some(Duration::zero()));
}

#[test]
fn parse_grpc_pushback_negative_ignored() {
    let hdrs = headers(&[("grpc-retry-pushback-ms", "-1")]);
    let r = gated_parse_grpc_retry_pushback(Some(Code::ResourceExhausted), &hdrs, secs(300));
    assert_eq!(r, None);
}

#[test]
fn parse_grpc_pushback_non_resource_exhausted_ignored() {
    let hdrs = headers(&[("grpc-retry-pushback-ms", "5000")]);
    for code in [Some(Code::Okay), Some(Code::Internal), Some(Code::Unavailable), None] {
        assert_eq!(gated_parse_grpc_retry_pushback(code, &hdrs, secs(300)), None);
    }
}

#[test]
fn parse_grpc_pushback_caps_at_max() {
    let max = secs(300);
    let hdrs = headers(&[("grpc-retry-pushback-ms", "999999999")]);
    let r = gated_parse_grpc_retry_pushback(Some(Code::ResourceExhausted), &hdrs, max);
    assert_eq!(r, Some(max));
}

#[test]
fn parse_grpc_pushback_invalid_format() {
    let hdrs = headers(&[("grpc-retry-pushback-ms", "abc")]);
    let r = gated_parse_grpc_retry_pushback(Some(Code::ResourceExhausted), &hdrs, secs(300));
    assert_eq!(r, None);
}

#[test]
fn parse_grpc_pushback_missing_header() {
    let hdrs = HeaderMap::new();
    let r = gated_parse_grpc_retry_pushback(Some(Code::ResourceExhausted), &hdrs, secs(300));
    assert_eq!(r, None);
}

#[test]
fn parse_grpc_pushback_empty_value() {
    let hdrs = headers(&[("grpc-retry-pushback-ms", "")]);
    let r = gated_parse_grpc_retry_pushback(Some(Code::ResourceExhausted), &hdrs, secs(300));
    assert_eq!(r, None);
}

#[test]
fn retry_after_only_on_429_and_503() {
    let hdrs = headers(&[("retry-after", "30")]);
    assert_eq!(parse_retry_after(429, &hdrs, secs(300)), Some(secs(30)));
    assert_eq!(parse_retry_after(503, &hdrs, secs(300)), Some(secs(30)));
    assert_eq!(parse_retry_after(429, &hdrs, secs(20)), Some(secs(20)));
    assert_eq!(parse_retry_after(200, &hdrs, secs(300)), None);
    assert_eq!(parse_retry_after(500, &hdrs, secs(300)), None);
    assert_eq!(parse_retry_after(429, &headers(&[("retry-after", "soon")]), secs(300)), None);
}

#[test]
fn grpc_store_last_value_wins() {
    let mut store = GrpcRetryPushbackStore::new();
    store.record(secs(10), start());
    store.record(secs(5), start());
    assert_eq!(store.take(secs(1), start()), Some(secs(5)));
}

#[test]
fn grpc_store_larger_value_updates() {
    let mut store = GrpcRetryPushbackStore::new();
    store.record(secs(5), start());
    store.record(secs(10), start());
    assert_eq!(store.take(secs(1), start()), Some(secs(10)));
}

#[test]
fn grpc_store_take_clears() {
    let mut store = GrpcRetryPushbackStore::default();
    store.record(secs(10), start());
    assert_eq!(store.take(secs(1), start()), Some(secs(10)));
    assert_eq!(store.take(secs(1), start()), None);
}

#[test]
fn combined_http_and_grpc_hints_max_wins() {
    let mut http_store = RetryAfterStore::new();
    let mut grpc_store = GrpcRetryPushbackStore::new();
    http_store.record(secs(10), start());
    grpc_store.record(secs(30), start());
    let http_hint = http_store.take(secs(60), start());
    let grpc_hint = grpc_store.take(secs(60), start());
    assert_eq!(http_hint, Some(secs(10)));
    assert_eq!(grpc_hint, Some(secs(30)));
    assert_eq!(combine_hints(http_hint, grpc_hint), Some(secs(30)));
    http_store.record(secs(10), start());
    grpc_store.record(secs(30), start());
    let r = take_combined_hint(&mut http_store, &mut grpc_store, secs(1), secs(60), start());
    assert_eq!(r, Some(secs(30)));
}

#[test]
fn combined_hints_http_wins_when_larger() {
    let mut http_store = RetryAfterStore::new();
    let mut grpc_store = GrpcRetryPushbackStore::new();
    http_store.record(secs(60), start());
    grpc_store.record(secs(15), start());
    let r = take_combined_hint(&mut http_store, &mut grpc_store, secs(1), secs(60), start());
    assert_eq!(r, Some(secs(60)));
}

#[test]
fn combined_hints_only_http() {
    let mut http_store = RetryAfterStore::new();
    let mut grpc_store = GrpcRetryPushbackStore::new();
    http_store.record(secs(20), start());
    let r = take_combined_hint(&mut http_store, &mut grpc_store, secs(1), secs(60), start());
    assert_eq!(r, Some(secs(20)));
}

#[test]
fn combined_hints_only_grpc() {
    let mut http_store = RetryAfterStore::new();
    let mut grpc_store = GrpcRetryPushbackStore::new();
    grpc_store.record(secs(25), start());
    let r = take_combined_hint(&mut http_store, &mut grpc_store, secs(1), secs(60), start());
    assert_eq!(r, Some(secs(25)));
    let again = take_combined_hint(&mut http_store, &mut grpc_store, secs(1), secs(60), start());
    assert_eq!(again, None);
}

#[test]
fn combined_hints_neither_present() {
    let mut http_store = RetryAfterStore::new();
    let mut grpc_store = GrpcRetryPushbackStore::new();
    let http_hint = http_store.take(secs(60), start());
    let grpc_hint = grpc_store.take(secs(60), start());
    assert_eq!(combine_hints(http_hint, grpc_hint), None);
    let r = take_combined_hint(&mut http_store, &mut grpc_store, secs(1), secs(60), start());
    assert_eq!(r, None);
}

#[test]
fn combined_hint_is_raised_to_the_base() {
    let mut http_store = RetryAfterStore::new();
    let mut grpc_store = GrpcRetryPushbackStore::new();
    http_store.record(Duration::from_millis(5), start());
    let r = take_combined_hint(&mut http_store, &mut grpc_store, secs(1), secs(60), start());
    assert_eq!(r, Some(secs(1)));
}

#[test]
fn stale_hint_discarded() {
    let mut store = DurationHintStore::new("test");
    store.record(secs(5), start());
    let later = start().after(secs(60));
    assert_eq!(store.take(secs(30), later), None);
    assert_eq!(store.take(secs(30), later), None);
}

#[test]
fn take_adjusts_for_elapsed_time() {
    let mut store = DurationHintStore::new("test");
    store.record(secs(10), start());
    assert_eq!(store.take(secs(60), start().after(secs(3))), Some(secs(7)));
}

#[test]
fn exactly_elapsed_hint_returns_none() {
    let mut store = DurationHintStore::new("test");
    store.record(secs(5), start());
    let later = start().after(secs(5));
    assert_eq!(store.take(secs(60), later), None);
    assert_eq!(store.take(secs(60), later), None);
    store.record(secs(3), later);
    assert_eq!(store.take(secs(60), later), Some(secs(3)));
}

#[test]
fn overshot_hint_returns_none() {
    let mut store = DurationHintStore::new("test");
    store.record(secs(2), start());
    let later = start().after(secs(3));
    assert_eq!(store.take(secs(60), later), None);
    assert_eq!(store.take(secs(60), later), None);
    store.record(secs(1), later);
    assert_eq!(store.take(secs(60), later), Some(secs(1)));
}

#[test]
fn repeated_equal_hint_refreshes_age() {
    let mut store = DurationHintStore::new("test");
    store.record(secs(10), start());
    store.record(secs(10), start().after(secs(6)));
    assert_eq!(store.take(secs(60), start().after(secs(12))), Some(secs(4)));
    assert_eq!(store.name, "test");
    let mut http_store = RetryAfterStore::default();
    let mut grpc_store = GrpcRetryPushbackStore::default();
    http_store.record(secs(1), start());
    let _ = take_combined_hint(&mut http_store, &mut grpc_store, secs(1), secs(60), start());
    assert_eq!(http_store.0.name, "Retry-After");
    assert_eq!(grpc_store.0.name, "grpc-retry-pushback-ms");
}

#[test]
fn clamp_hint_inverted_bounds_stay_within_max() {
    let min = secs(10);
    let max = secs(5);
    for hint in [secs(3), secs(7), secs(20)] {
        assert!(clamp_hint(hint, min, max, "test") <= max);
    }
    assert_eq!(clamp_hint(secs(3), secs(1), secs(5), "test"), secs(3));
}

#[test]
fn grpc_status_skipped_on_non_200() {
    let mut http_store = RetryAfterStore::new();
    let mut grpc_store = GrpcRetryPushbackStore::new();
    let hdrs = headers(&[
        ("retry-after", "30"),
        ("grpc-status", "8"),
        ("grpc-retry-pushback-ms", "5000"),
    ]);
    let _eos = RetryAfterClassify::new().start(429, &hdrs, &mut http_store, &mut grpc_store, start());
    assert_eq!(http_store.take(secs(10), start()), Some(secs(30)));
    assert_eq!(grpc_store.take(secs(10), start()), None);
}

#[test]
fn grpc_pushback_recorded_only_in_grpc_store() {
    let mut http_store = RetryAfterStore::new();
    let mut grpc_store = GrpcRetryPushbackStore::new();
    let hdrs = headers(&[
        ("content-type", "application/grpc"),
        ("grpc-status", "8"),
        ("grpc-retry-pushback-ms", "5000"),
    ]);
    let _eos = RetryAfterClassify::new().start(200, &hdrs, &mut http_store, &mut grpc_store, start());
    assert_eq!(grpc_store.take(secs(10), start()), Some(Duration::from_millis(5000)));
    assert_eq!(http_store.take(secs(10), start()), None);
}

#[test]
fn grpc_trailer_pushback_skipped_on_non_200() {
    let mut http_store = RetryAfterStore::new();
    let mut grpc_store = GrpcRetryPushbackStore::new();
    let eos = RetryAfterClassify::new().start(
        503,
        &HeaderMap::new(),
        &mut http_store,
        &mut grpc_store,
        start(),
    );
    let trailers = headers(&[("grpc-status", "8"), ("grpc-retry-pushback-ms", "5000")]);
    let class = Class::Grpc(Ok(Code::ResourceExhausted));
    let _class = eos.eos(class, Some(&trailers), &mut grpc_store, start());
    assert_eq!(grpc_store.take(secs(10), start()), None);
}

#[test]
fn grpc_trailer_pushback_recorded_on_200() {
    let mut http_store = RetryAfterStore::new();
    let mut grpc_store = GrpcRetryPushbackStore::new();
    let eos = RetryAfterClassify::new().start(
        200,
        &HeaderMap::new(),
        &mut http_store,
        &mut grpc_store,
        start(),
    );
    let trailers = headers(&[("grpc-status", "8"), ("grpc-retry-pushback-ms", "5000")]);
    let class = Class::Grpc(Err(Code::ResourceExhausted));
    let out = eos.eos(class, Some(&trailers), &mut grpc_store, start());
    assert!(matches!(out, Class::Grpc(Err(Code::ResourceExhausted))));
    assert_eq!(grpc_store.take(secs(10), start()), Some(Duration::from_millis(5000)));
}

fn mk_backoff() -> ExponentialBackoff {
    ExponentialBackoff { min: secs(1), max: secs(100), jitter_percent: 0 }
}

fn resolved_accrual(accrual: Option<FailureAccrual>) -> Option<FailureAccrual> {
    let set = NewRetryAfterGateSet::new((), RetryAfterGateParams::new(1));
    set.new_service(accrual, ()).accrual
}

#[test]
fn effectively_disabled_accrual_produces_no_breaker_task() {
    let disabled = FailureAccrual::Consecutive(ConsecutiveFailures {
        max_failures: 0,
        backoff: mk_backoff(),
        respect_retry_after_hint: false,
    });
    assert!(is_effectively_disabled(&disabled), "max_failures 0 can never trip");
    assert_eq!(resolved_accrual(Some(disabled)), None);

    let live = FailureAccrual::Consecutive(ConsecutiveFailures {
        max_failures: 3,
        backoff: mk_backoff(),
        respect_retry_after_hint: false,
    });
    assert!(!is_effectively_disabled(&live));
    assert!(resolved_accrual(Some(live)).is_some());
}

#[test]
fn unified_policy_is_inert_only_with_both_conditions_off() {
    let mut unified = Unified {
        threshold: SuccessRateThreshold { basis_points: 0 },
        window: secs(10),
        min_requests: 1,
        max_consecutive_failures: 0,
        backoff: mk_backoff(),
        respect_retry_after_hint: true,
    };
    assert!(is_effectively_disabled(&FailureAccrual::Unified(unified)));
    unified.threshold = SuccessRateThreshold { basis_points: 1 };
    let live = FailureAccrual::Unified(unified);
    assert!(!is_effectively_disabled(&live));
    assert_eq!(accrual_max_backoff(&live), secs(100));
    assert!(accrual_respects_retry_after_hint(&live));
    let set = NewRetryAfterGateSet::new((), RetryAfterGateParams::new(7));
    let gate = set.new_service(Some(live), ());
    assert_eq!(gate.max_duration, secs(100));
    let (params, insert) = gate.new_service("inner");
    assert_eq!(params.channel_capacity, 7);
    assert_eq!(params.accrual, Some(live));
    let classify = insert.call(true).expect("the request is classified");
    assert!(classify.record);
    assert_eq!(classify.max_duration, secs(100));
    assert!(insert.call(false).is_none());
    let none = set.new_service(None, ());
    assert_eq!(none.max_duration, Duration::zero());
    let (params, insert) = none.new_service("inner");
    assert_eq!(params.accrual, None);
    assert!(!insert.call(true).expect("the request is classified").record);
}

#[test]
fn wrapped_classifier_records_retry_after() {
    let mut http_store = RetryAfterStore::new();
    let mut grpc_store = GrpcRetryPushbackStore::new();
    let hdrs = headers(&[("retry-after", "30")]);
    let _eos = RetryAfterClassify::new().start(429, &hdrs, &mut http_store, &mut grpc_store, start());
    assert_eq!(http_store.take(secs(10), start()), Some(secs(30)));
}

#[test]
fn wrapped_classifier_ignores_non_429() {
    let mut http_store = RetryAfterStore::new();
    let mut grpc_store = GrpcRetryPushbackStore::new();
    let hdrs = headers(&[("retry-after", "30")]);
    let _eos = RetryAfterClassify::new().start(200, &hdrs, &mut http_store, &mut grpc_store, start());
    assert_eq!(http_store.take(secs(10), start()), None);
}

#[test]
fn disabled_classifier_records_nothing() {
    let mut http_store = RetryAfterStore::new();
    let mut grpc_store = GrpcRetryPushbackStore::new();
    let hdrs = headers(&[("retry-after", "30")]);
    let eos =
        RetryAfterClassify::disabled().start(429, &hdrs, &mut http_store, &mut grpc_store, start());
    assert!(!eos.record);
    assert_eq!(http_store.take(secs(10), start()), None);
}

#[test]
fn config_max_duration_caps_hint_at_recording() {
    let mut http_store = RetryAfterStore::new();
    let mut grpc_store = GrpcRetryPushbackStore::new();
    let hdrs = headers(&[("retry-after", "600")]);
    let wrapped = RetryAfterClassify::new_with_max(secs(120));
    let _eos = wrapped.start(429, &hdrs, &mut http_store, &mut grpc_store, start());
    assert_eq!(http_store.take(secs(10), start()), Some(secs(120)));
}

#[test]
fn config_max_duration_passes_through_uncapped_hint() {
    let mut http_store = RetryAfterStore::new();
    let mut grpc_store = GrpcRetryPushbackStore::new();
    let hdrs = headers(&[("retry-after", "60")]);
    let wrapped = RetryAfterClassify::new_with_max(secs(120));
    let _eos = wrapped.start(429, &hdrs, &mut http_store, &mut grpc_store, start());
    assert_eq!(http_store.take(secs(10), start()), Some(secs(60)));
}
