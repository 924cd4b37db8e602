//! Hints of servers on when to come back: `Retry-After` and `grpc-retry-pushback-ms`.
//!
//! Each source has a store that keeps the latest hint. A breaker drains both stores before it
//! waits, and takes the longer hint within the bounds of its backoff schedule.

use crate::classify::{Class, Code, OK, TOO_MANY_REQUESTS};
use crate::client_policy::ExponentialBackoff;
use crate::headers::{
    code_of_value, first_value, grpc_code, header_fields, header_get, lower_case_names_are_kept,
    number_of,
};
use crate::numbers::{at_most, parse_u64, unsigned};
use crate::time::{Duration, Instant};
use http::{HeaderMap, HeaderValue};
use vstd::prelude::*;

verus! {

pub const SERVICE_UNAVAILABLE: u16 = 503;

/// A hint and the time at which it came.
#[derive(Clone, Copy, Debug, PartialEq, Eq, Structural)]
pub struct Hint {
    pub recorded_at: Instant,
    pub duration: Duration,
}

impl Hint {
    /// What is left of a hint at `now`: nothing when it is older than `max_age` or its time is up.
    pub open spec fn remaining(self, max_age: Duration, now: Instant) -> Option<Duration> {
        let elapsed = now.since(self.recorded_at);
        if elapsed <= max_age.nanos && elapsed < self.duration.nanos {
            Some(Duration { nanos: (self.duration.nanos - elapsed) as u128 })
        } else {
            None
        }
    }
}

/// A store for the latest hint of one source. There is one for each endpoint and source: whatever
/// records hints and whatever reads them use the same store, so it cannot be copied.
#[derive(Debug)]
pub struct DurationHintStore {
    pub name: &'static str,
    pub latest: Option<Hint>,
}

impl DurationHintStore {
    /// An empty store for the hints of the source called `name`.
    pub fn new(name: &'static str) -> (s: DurationHintStore)
        ensures
            s.name@ == name@,
            s.latest is None,
    {
        DurationHintStore { name, latest: None }
    }

    /// Keeps a hint in place of the one before it.
    pub fn record(&mut self, duration: Duration, now: Instant)
        ensures
            final(self).name == old(self).name,
            final(self).latest == Some(Hint { recorded_at: now, duration }),
    {
        self.latest = Some(Hint { recorded_at: now, duration });
    }

    /// What a read at `now` gives.
    pub open spec fn available(self, max_age: Duration, now: Instant) -> Option<Duration> {
        match self.latest {
            Some(hint) => hint.remaining(max_age, now),
            None => None,
        }
    }

    /// Takes the hint out, and returns the part of it that still lies ahead if it is recent.
    pub fn take(&mut self, max_age: Duration, now: Instant) -> (r: Option<Duration>)
        ensures
            r == old(self).available(max_age, now),
            final(self).name == old(self).name,
            final(self).latest is None,
    {
        match self.latest {
            Some(hint) => {
                self.latest = None;
                let elapsed = now.saturating_duration_since(hint.recorded_at);
                if elapsed.nanos <= max_age.nanos {
                    if elapsed.nanos >= hint.duration.nanos {
                        None
                    } else {
                        Some(Duration { nanos: hint.duration.nanos - elapsed.nanos })
                    }
                } else {
                    None
                }
            },
            None => None,
        }
    }
}

/// The store for `Retry-After` hints.
#[derive(Debug)]
pub struct RetryAfterStore(pub DurationHintStore);

impl RetryAfterStore {
    pub fn new() -> (s: RetryAfterStore)
        ensures
            s.0.name@ == "Retry-After"@,
            s.0.latest is None,
    {
        RetryAfterStore(DurationHintStore::new("Retry-After"))
    }

    pub fn record(&mut self, duration: Duration, now: Instant)
        ensures
            final(self).0.name == old(self).0.name,
            final(self).0.latest == Some(Hint { recorded_at: now, duration }),
    {
        self.0.record(duration, now);
    }

    pub fn take(&mut self, max_age: Duration, now: Instant) -> (r: Option<Duration>)
        ensures
            r == old(self).0.available(max_age, now),
            final(self).0.name == old(self).0.name,
            final(self).0.latest is None,
    {
        self.0.take(max_age, now)
    }
}

impl Default for RetryAfterStore {
    fn default() -> (s: RetryAfterStore)
        ensures
            s.0.name@ == "Retry-After"@,
            s.0.latest is None,
    {
        RetryAfterStore::new()
    }
}

/// The store for `grpc-retry-pushback-ms` hints.
#[derive(Debug)]
pub struct GrpcRetryPushbackStore(pub DurationHintStore);

impl GrpcRetryPushbackStore {
    pub fn new() -> (s: GrpcRetryPushbackStore)
        ensures
            s.0.name@ == "grpc-retry-pushback-ms"@,
            s.0.latest is None,
    {
        GrpcRetryPushbackStore(DurationHintStore::new("grpc-retry-pushback-ms"))
    }

    pub fn record(&mut self, duration: Duration, now: Instant)
        ensures
            final(self).0.name == old(self).0.name,
            final(self).0.latest == Some(Hint { recorded_at: now, duration }),
    {
        self.0.record(duration, now);
    }

    pub fn take(&mut self, max_age: Duration, now: Instant) -> (r: Option<Duration>)
        ensures
            r == old(self).0.available(max_age, now),
            final(self).0.name == old(self).0.name,
            final(self).0.latest is None,
    {
        self.0.take(max_age, now)
    }
}

impl Default for GrpcRetryPushbackStore {
    fn default() -> (s: GrpcRetryPushbackStore)
        ensures
            s.0.name@ == "grpc-retry-pushback-ms"@,
            s.0.latest is None,
    {
        GrpcRetryPushbackStore::new()
    }
}

/// A hint moved into the bounds of a backoff schedule. Where the bounds are inverted, the upper
/// one alone holds.
pub open spec fn clamped(hint: Duration, min: Duration, max: Duration) -> Duration {
    hint.longer(min).shorter(max)
}

/// Clamps the hint of `_source` to the bounds of a backoff schedule.
pub fn clamp_hint(hint: Duration, min: Duration, max: Duration, _source: &'static str) -> (d:
    Duration)
    ensures
        d == clamped(hint, min, max),
{
    let min = min.min(max);
    if hint.nanos > max.nanos {
        max
    } else if hint.nanos < min.nanos {
        min
    } else {
        hint
    }
}

/// The longer of two hints that are clamped on their own.
pub open spec fn combined(
    http: Option<Duration>,
    grpc: Option<Duration>,
    min: Duration,
    max: Duration,
) -> Option<Duration> {
    match (http, grpc) {
        (Some(h), Some(g)) => Some(clamped(h, min, max).longer(clamped(g, min, max))),
        (Some(h), None) => Some(clamped(h, min, max)),
        (None, Some(g)) => Some(clamped(g, min, max)),
        (None, None) => None,
    }
}

/// Drains both stores and returns one floor for the next wait, within the bounds of the backoff
/// schedule. Hints older than `max` do not count.
pub fn take_combined_hint(
    http_store: &mut RetryAfterStore,
    grpc_store: &mut GrpcRetryPushbackStore,
    min: Duration,
    max: Duration,
    now: Instant,
) -> (r: Option<Duration>)
    ensures
        r == combined(
            old(http_store).0.available(max, now),
            old(grpc_store).0.available(max, now),
            min,
            max,
        ),
        final(http_store).0.name == old(http_store).0.name,
        final(grpc_store).0.name == old(grpc_store).0.name,
        final(http_store).0.latest is None,
        final(grpc_store).0.latest is None,
{
    let http_hint = match http_store.take(max, now) {
        Some(h) => Some(clamp_hint(h, min, max, "Retry-After")),
        None => None,
    };
    let grpc_hint = match grpc_store.take(max, now) {
        Some(g) => Some(clamp_hint(g, min, max, "grpc-retry-pushback-ms")),
        None => None,
    };
    match (http_hint, grpc_hint) {
        (Some(h), Some(g)) => Some(h.max(g)),
        (Some(h), None) => Some(h),
        (None, Some(g)) => Some(g),
        (None, None) => None,
    }
}

/// The hint that the next wait of a breaker has to honor. The stores are drained only if hints
/// count for it.
pub fn take_hint(
    respect_retry_after_hint: bool,
    backoff: &ExponentialBackoff,
    http_store: &mut RetryAfterStore,
    grpc_store: &mut GrpcRetryPushbackStore,
    now: Instant,
) -> (r: Option<Duration>)
    ensures
        final(http_store).0.name == old(http_store).0.name,
        final(grpc_store).0.name == old(grpc_store).0.name,
        respect_retry_after_hint ==> {
            &&& r == combined(
                old(http_store).0.available(backoff.max, now),
                old(grpc_store).0.available(backoff.max, now),
                backoff.min,
                backoff.max,
            )
            &&& final(http_store).0.latest is None
            &&& final(grpc_store).0.latest is None
        },
        !respect_retry_after_hint ==> {
            &&& r is None
            &&& *final(http_store) == *old(http_store)
            &&& *final(grpc_store) == *old(grpc_store)
        },
{
    if respect_retry_after_hint {
        take_combined_hint(http_store, grpc_store, backoff.min, backoff.max, now)
    } else {
        None
    }
}

/// The hint in a field that holds a number of units: the number, cut off at `max`. Nothing when
/// the field does not hold a number of at most 64 bits.
pub open spec fn units(value: Option<Seq<u8>>, nanos_per_unit: nat, max: Duration) -> Option<
    Duration,
> {
    match value {
        Some(v) => match at_most(unsigned(v), u64::MAX as nat) {
            Some(n) => Some(
                if n * nanos_per_unit <= max.nanos {
                    Duration { nanos: (n * nanos_per_unit) as u128 }
                } else {
                    max
                },
            ),
            None => None,
        },
        None => None,
    }
}

/// The hint in a `grpc-retry-pushback-ms` field: a number of milliseconds. A negative number asks
/// not to retry and gives no hint.
pub fn parse_grpc_retry_pushback(headers: &HeaderMap<HeaderValue>, max: Duration) -> (r: Option<
    Duration,
>)
    ensures
        r == units(
            first_value(header_fields(*headers), "grpc-retry-pushback-ms"@),
            1_000_000,
            max,
        ),
{
    match header_get(headers, "grpc-retry-pushback-ms") {
        Some(v) => match parse_u64(&v) {
            Some(n) => Some(Duration::from_millis(n).min(max)),
            None => None,
        },
        None => None,
    }
}

/// The hint in a `Retry-After` field of a 429 or 503 response: a number of seconds. Only
/// that form of the field is read.
pub open spec fn retry_after(
    status: u16,
    fields: Map<Seq<char>, Seq<Seq<u8>>>,
    max: Duration,
) -> Option<Duration> {
    if status == TOO_MANY_REQUESTS || status == SERVICE_UNAVAILABLE {
        units(first_value(fields, "retry-after"@), 1_000_000_000, max)
    } else {
        None
    }
}

/// Reads a `Retry-After` hint.
pub fn parse_retry_after(status: u16, headers: &HeaderMap<HeaderValue>, max: Duration) -> (r:
    Option<Duration>)
    ensures
        r == retry_after(status, header_fields(*headers), max),
{
    if status != TOO_MANY_REQUESTS && status != SERVICE_UNAVAILABLE {
        return None;
    }
    match header_get(headers, "retry-after") {
        Some(v) => match parse_u64(&v) {
            Some(n) => Some(Duration::from_secs(n).min(max)),
            None => None,
        },
        None => None,
    }
}

/// The pushback of headers or trailers with a given gRPC status: only RESOURCE_EXHAUSTED has one.
pub open spec fn pushback(
    code: Option<int>,
    fields: Map<Seq<char>, Seq<Seq<u8>>>,
    max: Duration,
) -> Option<Duration> {
    if code == Some(Code::ResourceExhausted.number()) {
        units(first_value(fields, "grpc-retry-pushback-ms"@), 1_000_000, max)
    } else {
        None
    }
}

/// Reads a pushback hint, if the gRPC status is RESOURCE_EXHAUSTED.
pub fn gated_parse_grpc_retry_pushback(
    grpc_code: Option<Code>,
    headers_or_trailers: &HeaderMap<HeaderValue>,
    max: Duration,
) -> (r: Option<Duration>)
    ensures
        r == pushback(number_of(grpc_code), header_fields(*headers_or_trailers), max),
{
    match grpc_code {
        Some(Code::ResourceExhausted) => parse_grpc_retry_pushback(headers_or_trailers, max),
        _ => None,
    }
}

/// Where a new hint, if there is one, takes the place of the one before it.
pub open spec fn updated(
    latest: Option<Hint>,
    hint: Option<Duration>,
    now: Instant,
) -> Option<Hint> {
    match hint {
        Some(duration) => Some(Hint { recorded_at: now, duration }),
        None => latest,
    }
}

/// Watches the head of a response for hints.
#[derive(Clone, Copy, Debug)]
pub struct RetryAfterClassify {
    pub max_duration: Duration,
    pub record: bool,
}

/// Watches the trailers of a response for hints.
#[derive(Clone, Copy, Debug)]
pub struct GrpcRetryPushbackClassifyEos {
    pub max_duration: Duration,
    pub record: bool,
    pub is_ok_status: bool,
}

impl RetryAfterClassify {
    /// Records hints of up to five minutes.
    pub fn new() -> (c: RetryAfterClassify)
        ensures
            c.record,
            c.max_duration.nanos == 300_000_000_000,
    {
        RetryAfterClassify { max_duration: Duration::from_secs(300), record: true }
    }

    /// Records hints of up to `max_duration`.
    pub fn new_with_max(max_duration: Duration) -> (c: RetryAfterClassify)
        ensures
            c == (RetryAfterClassify { max_duration, record: true }),
    {
        RetryAfterClassify { max_duration, record: true }
    }

    /// Records nothing.
    pub fn disabled() -> (c: RetryAfterClassify)
        ensures
            !c.record,
            c.max_duration.nanos == 0,
    {
        RetryAfterClassify { max_duration: Duration::zero(), record: false }
    }

    /// Records the hints in the head of a response: `Retry-After` in one store, and in the other
    /// the pushback of a gRPC response, which has the status 200.
    pub fn start(
        self,
        status: u16,
        headers: &HeaderMap<HeaderValue>,
        http_store: &mut RetryAfterStore,
        grpc_store: &mut GrpcRetryPushbackStore,
        now: Instant,
    ) -> (eos: GrpcRetryPushbackClassifyEos)
        ensures
            eos == (GrpcRetryPushbackClassifyEos {
                max_duration: self.max_duration,
                record: self.record,
                is_ok_status: self.record && status == OK,
            }),
            final(http_store).0.name == old(http_store).0.name,
            final(grpc_store).0.name == old(grpc_store).0.name,
            final(http_store).0.latest == updated(
                old(http_store).0.latest,
                if self.record {
                    retry_after(status, header_fields(*headers), self.max_duration)
                } else {
                    None
                },
                now,
            ),
            final(grpc_store).0.latest == updated(
                old(grpc_store).0.latest,
                if self.record && status == OK {
                    pushback(
                        code_of_value(first_value(header_fields(*headers), "grpc-status"@)),
                        header_fields(*headers),
                        self.max_duration,
                    )
                } else {
                    None
                },
                now,
            ),
            !self.record || status != 429 && status != 503 ==> final(http_store).0.latest == old(
                http_store,
            ).0.latest,
            !self.record || status != 200 ==> final(grpc_store).0.latest == old(grpc_store).0.latest,
            final(http_store).0.latest != old(http_store).0.latest ==> (final(http_store).0.latest
                matches Some(hint) && hint.recorded_at == now && hint.duration.nanos
                <= self.max_duration.nanos),
            final(grpc_store).0.latest != old(grpc_store).0.latest ==> (final(grpc_store).0.latest
                matches Some(hint) && hint.recorded_at == now && hint.duration.nanos
                <= self.max_duration.nanos),
    {
        let max = self.max_duration;
        if !self.record {
            return GrpcRetryPushbackClassifyEos::disabled(max);
        }
        if let Some(duration) = parse_retry_after(status, headers, max) {
            http_store.record(duration, now);
        }
        let is_ok_status = status == OK;
        if is_ok_status {
            let code = grpc_code(headers);
            if let Some(duration) = gated_parse_grpc_retry_pushback(code, headers, max) {
                grpc_store.record(duration, now);
            }
        }
        GrpcRetryPushbackClassifyEos::new(max, is_ok_status)
    }
}

impl GrpcRetryPushbackClassifyEos {
    pub fn new(max_duration: Duration, is_ok_status: bool) -> (c: GrpcRetryPushbackClassifyEos)
        ensures
            c == (GrpcRetryPushbackClassifyEos { max_duration, record: true, is_ok_status }),
    {
        GrpcRetryPushbackClassifyEos { max_duration, record: true, is_ok_status }
    }

    pub fn disabled(max_duration: Duration) -> (c: GrpcRetryPushbackClassifyEos)
        ensures
            c == (GrpcRetryPushbackClassifyEos { max_duration, record: false, is_ok_status: false }),
    {
        GrpcRetryPushbackClassifyEos { max_duration, record: false, is_ok_status: false }
    }

    /// The pushback in the trailers of a response of a given class.
    pub open spec fn trailer_hint(
        self,
        class: Class,
        trailers: Option<&HeaderMap<HeaderValue>>,
    ) -> Option<Duration> {
        match (class, trailers) {
            (Class::Grpc(r), Some(trls)) if self.record && self.is_ok_status => pushback(
                Some(
                    match r {
                        Ok(code) => code.number(),
                        Err(code) => code.number(),
                    },
                ),
                header_fields(*trls),
                self.max_duration,
            ),
            _ => None,
        }
    }

    /// Records the pushback in the trailers of a response with status 200. The class that the
    /// response was given is handed on unchanged.
    pub fn eos(
        self,
        class: Class,
        trailers: Option<&HeaderMap<HeaderValue>>,
        store: &mut GrpcRetryPushbackStore,
        now: Instant,
    ) -> (r: Class)
        ensures
            r == class,
            final(store).0.name == old(store).0.name,
            final(store).0.latest == updated(
                old(store).0.latest,
                self.trailer_hint(class, trailers),
                now,
            ),
    {
        if self.record && self.is_ok_status {
            if let Some(trls) = trailers {
                let code: Option<Code> = match class {
                    Class::Grpc(Ok(code)) => Some(code),
                    Class::Grpc(Err(code)) => Some(code),
                    _ => None,
                };
                if let Some(duration) = gated_parse_grpc_retry_pushback(
                    code,
                    trls,
                    self.max_duration,
                ) {
                    store.record(duration, now);
                }
            }
        }
        class
    }
}

/// A clamped hint stays within the bounds: never above the upper one, and not below the lower one
/// unless the bounds are inverted.
pub proof fn clamped_hint_stays_in_bounds(hint: Duration, min: Duration, max: Duration)
    ensures
        clamped(hint, min, max).nanos <= max.nanos,
        min.nanos <= max.nanos ==> clamped(hint, min, max).nanos >= min.nanos,
        min.nanos <= hint.nanos <= max.nanos ==> clamped(hint, min, max) == hint,
{
}

/// One response can neither shorten the base backoff nor push past its ceiling: whatever the
/// stores hold, the floor that comes out of them is within the bounds.
pub proof fn combined_hint_stays_in_bounds(
    http: Option<Duration>,
    grpc: Option<Duration>,
    min: Duration,
    max: Duration,
)
    requires
        min.nanos <= max.nanos,
    ensures
        combined(http, grpc, min, max) is Some <==> http is Some || grpc is Some,
        combined(http, grpc, min, max) matches Some(d) ==> min.nanos <= d.nanos <= max.nanos,
        combined(http, grpc, min, max) == combined(grpc, http, min, max),
{
}

/// A hint is read once: what a read leaves behind gives nothing to the next.
pub proof fn hint_is_consumed(
    left: DurationHintStore,
    max_age: Duration,
    now: Instant,
)
    requires
        left.latest is None,
    ensures
        left.available(max_age, now) is None,
{
}

/// The last hint wins, whether it is longer or shorter than the one before, and time that has
/// passed since then is taken off.
pub proof fn last_hint_wins(
    store: DurationHintStore,
    duration: Duration,
    recorded_at: Instant,
    max_age: Duration,
    now: Instant,
)
    requires
        store.latest == Some(Hint { recorded_at, duration }),
        now.nanos >= recorded_at.nanos,
    ensures
        store.available(max_age, now) == if now.nanos - recorded_at.nanos <= max_age.nanos
            && now.nanos - recorded_at.nanos < duration.nanos {
            Some(Duration { nanos: (duration.nanos - (now.nanos - recorded_at.nanos)) as u128 })
        } else {
            None
        },
{
}

/// A hint is moved only as far as it must be: down to the upper bound or up to the lower one.
/// Bounds that are inverted leave the upper one.
pub proof fn hint_moves_to_the_nearest_bound(hint: Duration, min: Duration, max: Duration)
    ensures
        hint.nanos >= max.nanos ==> clamped(hint, min, max).nanos == max.nanos,
        hint.nanos <= min.nanos <= max.nanos ==> clamped(hint, min, max).nanos == min.nanos,
        min.nanos <= hint.nanos <= max.nanos ==> clamped(hint, min, max).nanos == hint.nanos,
        min.nanos >= max.nanos ==> clamped(hint, min, max).nanos == max.nanos,
{
}

/// Of two hints the longer is honored, and one alone is honored as it is, each within the bounds.
pub proof fn longer_hint_is_honored(h: Duration, g: Duration, min: Duration, max: Duration)
    requires
        min.nanos <= max.nanos,
    ensures
        combined(None, None, min, max) is None,
        min.nanos <= h.nanos <= max.nanos ==> {
            &&& combined(Some(h), None, min, max) == Some(h)
            &&& combined(None, Some(h), min, max) == Some(h)
            &&& g.nanos <= h.nanos ==> combined(Some(h), Some(g), min, max) == Some(h)
            &&& g.nanos <= h.nanos ==> combined(Some(g), Some(h), min, max) == Some(h)
        },
        h.nanos >= max.nanos ==> {
            &&& combined(Some(h), None, min, max) == Some(max)
            &&& combined(None, Some(h), min, max) == Some(max)
            &&& combined(Some(h), Some(g), min, max) == Some(max)
            &&& combined(Some(g), Some(h), min, max) == Some(max)
        },
        h.nanos <= min.nanos ==> combined(Some(h), None, min, max) == Some(min) && combined(
            None,
            Some(h),
            min,
            max,
        ) == Some(min),
        h.nanos <= min.nanos && g.nanos <= min.nanos ==> combined(Some(h), Some(g), min, max) == Some(
            min,
        ),
{
}

/// A hint asks for a moment, not for a span: however late it is read, what is left of it ends at
/// that moment. There is nothing left from that moment on, nor of a hint that is older than hints
/// may be. One that was read before it came, as clocks may have it, is read as a whole.
pub proof fn hint_asks_for_a_moment(hint: Hint, max_age: Duration, now: Instant)
    ensures
        hint.remaining(max_age, now) matches Some(left) ==> left.nanos > 0 && (now.nanos
            >= hint.recorded_at.nanos ==> now.nanos + left.nanos == hint.recorded_at.nanos
            + hint.duration.nanos),
        now.nanos >= hint.recorded_at.nanos + hint.duration.nanos ==> hint.remaining(max_age, now)
            is None,
        now.nanos > hint.recorded_at.nanos + max_age.nanos ==> hint.remaining(max_age, now) is None,
        now.nanos < hint.recorded_at.nanos + hint.duration.nanos && now.nanos
            <= hint.recorded_at.nanos + max_age.nanos && now.nanos >= hint.recorded_at.nanos
            ==> hint.remaining(max_age, now) is Some,
        now.nanos < hint.recorded_at.nanos && hint.duration.nanos > 0 ==> hint.remaining(max_age, now)
            == Some(hint.duration),
{
}

/// What `Retry-After` says is taken as seconds, up to the longest span that is allowed, and only
/// from a response with one of the statuses 429 and 503. Text that is no number says nothing.
pub proof fn retry_after_counts_seconds(
    status: u16,
    fields: Map<Seq<char>, Seq<Seq<u8>>>,
    max: Duration,
)
    ensures
        status != 429 && status != 503 ==> retry_after(status, fields, max) is None,
        retry_after(429, fields, max) == retry_after(503, fields, max),
        !fields.contains_key("retry-after"@) ==> retry_after(status, fields, max) is None,
        status == 429 && fields.contains_key("retry-after"@) ==> {
            let value = fields["retry-after"@][0];
            let hint = retry_after(status, fields, max);
            &&& unsigned(value) is None ==> hint is None
            &&& unsigned(value) matches Some(n) ==> {
                &&& n > 0xffff_ffff_ffff_ffff ==> hint is None
                &&& n <= 0xffff_ffff_ffff_ffff ==> hint is Some && hint->0.nanos <= max.nanos
                &&& n <= 0xffff_ffff_ffff_ffff && n * 1_000_000_000 <= max.nanos ==> hint->0.nanos
                    == n * 1_000_000_000
                &&& n <= 0xffff_ffff_ffff_ffff && n * 1_000_000_000 >= max.nanos ==> hint->0.nanos
                    == max.nanos
            }
        },
{
    reveal_strlit("retry-after");
    lower_case_names_are_kept("retry-after"@);
}

/// A pushback is taken as milliseconds, up to the longest span that is allowed, and only where the
/// gRPC status is 8, RESOURCE_EXHAUSTED. Text that is no number says nothing.
pub proof fn pushback_counts_milliseconds(
    code: Option<int>,
    fields: Map<Seq<char>, Seq<Seq<u8>>>,
    max: Duration,
)
    ensures
        code != Some(8int) ==> pushback(code, fields, max) is None,
        !fields.contains_key("grpc-retry-pushback-ms"@) ==> pushback(code, fields, max) is None,
        code == Some(8int) && fields.contains_key("grpc-retry-pushback-ms"@) ==> {
            let value = fields["grpc-retry-pushback-ms"@][0];
            let hint = pushback(code, fields, max);
            &&& unsigned(value) is None ==> hint is None
            &&& unsigned(value) matches Some(n) ==> {
                &&& n > 0xffff_ffff_ffff_ffff ==> hint is None
                &&& n <= 0xffff_ffff_ffff_ffff ==> hint is Some && hint->0.nanos <= max.nanos
                &&& n <= 0xffff_ffff_ffff_ffff && n * 1_000_000 <= max.nanos ==> hint->0.nanos == n
                    * 1_000_000
                &&& n <= 0xffff_ffff_ffff_ffff && n * 1_000_000 >= max.nanos ==> hint->0.nanos
                    == max.nanos
            }
        },
{
    reveal_strlit("grpc-retry-pushback-ms");
    lower_case_names_are_kept("grpc-retry-pushback-ms"@);
}

/// Trailers are read for a pushback only if hints are recorded, the response had the status 200,
/// and its class is one of gRPC. Then the code of the class counts, whether it passed for a success
/// or for a failure.
pub proof fn trailers_are_read_for_grpc_only(
    eos: GrpcRetryPushbackClassifyEos,
    class: Class,
    code: Code,
    trailers: &HeaderMap<HeaderValue>,
)
    ensures
        eos.trailer_hint(class, None) is None,
        !eos.record ==> eos.trailer_hint(class, Some(trailers)) is None,
        !eos.is_ok_status ==> eos.trailer_hint(class, Some(trailers)) is None,
        !(class is Grpc) ==> eos.trailer_hint(class, Some(trailers)) is None,
        code != Code::ResourceExhausted ==> eos.trailer_hint(Class::Grpc(Ok(code)), Some(trailers))
            is None && eos.trailer_hint(Class::Grpc(Err(code)), Some(trailers)) is None,
        eos.record && eos.is_ok_status ==> {
            let hint = pushback(Some(8int), header_fields(*trailers), eos.max_duration);
            &&& eos.trailer_hint(Class::Grpc(Err(Code::ResourceExhausted)), Some(trailers)) == hint
            &&& eos.trailer_hint(Class::Grpc(Ok(Code::ResourceExhausted)), Some(trailers)) == hint
        },
{
}

/// A new hint takes the place of the old one. Without a new one the old one stays.
pub proof fn hints_are_replaced_by_hints_only(
    latest: Option<Hint>,
    duration: Duration,
    now: Instant,
)
    ensures
        updated(latest, None, now) == latest,
        updated(latest, Some(duration), now) matches Some(hint) && hint.duration == duration
            && hint.recorded_at == now,
{
}

} // verus!
