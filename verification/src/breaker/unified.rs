//! A breaker with two conditions: a run of failures, and a low success rate over a window.
//!
//! A run of failures is a strong signal at any sample size, so it trips at once. A low rate needs a
//! minimum of responses in the window. A rate-limit signal lowers the rate but is no failure, and
//! during probation it keeps requests shut out.

use crate::breaker::success_rate::{
    count_since, gap_clears_window, new_window_represents_nothing, reset_window_cannot_trip, sums,
    sums_count_live_responses, width_of, window_counts_exactly, Bucket, Sample, SuccessRateWindow,
    WindowView, BUCKETS,
};
use crate::breaker::{
    failing, floor_wait, floored_wait, healthy, trailing_failures,
    trailing_failures_are_all_failures, Action, Event, Phase, TripReason,
};
use crate::classify::{is_server_error, server_error, Class, Code};
use crate::client_policy::ExponentialBackoff;
use crate::time::{Duration, Instant};
use vstd::prelude::*;

verus! {

/// How a breaker is set up. A `max_failures` of zero turns one condition off, a `threshold` of
/// zero the other.
#[derive(Clone, Copy, Debug, PartialEq, Eq, Structural)]
pub struct UnifiedBreakerConfig {
    pub max_failures: usize,
    /// In hundredths of a percent.
    pub threshold: u32,
    pub window: Duration,
    pub backoff: ExponentialBackoff,
    pub min_requests: usize,
    pub respect_retry_after_hint: bool,
}

/// What is counted while requests pass. There is a window only if there is a threshold.
#[derive(Debug)]
pub struct OpenState {
    pub consecutive_failures: usize,
    pub success_rate: Option<SuccessRateWindow>,
}

pub struct OpenStateView {
    pub failures: nat,
    pub window: Option<WindowView>,
}

impl View for OpenState {
    type V = OpenStateView;

    open spec fn view(&self) -> OpenStateView {
        OpenStateView {
            failures: self.consecutive_failures as nat,
            window: match self.success_rate {
                Some(w) => Some(w@),
                None => None,
            },
        }
    }
}

/// An empty window.
pub open spec fn cold_window(window: Duration, now: Instant) -> WindowView {
    WindowView {
        slices: Seq::new(BUCKETS as nat, |age: int| Bucket::empty()),
        width: width_of(window),
        start: now.nanos as nat,
    }
}

impl OpenStateView {
    /// Nothing counted.
    pub open spec fn cold(active: bool, window: Duration, now: Instant) -> OpenStateView {
        OpenStateView {
            failures: 0,
            window: if active {
                Some(cold_window(window, now))
            } else {
                None
            },
        }
    }

    /// Whether a condition is met, and which. The run of failures is looked at first.
    pub open spec fn trip(self, config: UnifiedBreakerConfig) -> Option<TripReason> {
        if config.max_failures > 0 && self.failures >= config.max_failures {
            Some(TripReason::ConsecutiveFailures)
        } else if self.window is Some && self.window->0.trips(
            config.min_requests as nat,
            config.threshold as nat,
        ) {
            Some(TripReason::LowSuccessRate)
        } else {
            None
        }
    }

    /// The counts with one more response.
    pub open spec fn counted(
        self,
        config: UnifiedBreakerConfig,
        class: Class,
        now: Instant,
    ) -> OpenStateView {
        OpenStateView {
            failures: if config.max_failures == 0 {
                self.failures
            } else if class.success() {
                0
            } else if self.failures < usize::MAX {
                self.failures + 1
            } else {
                self.failures
            },
            window: match self.window {
                Some(w) => Some(w.recorded(class.success() && !class.rate_limited(), now)),
                None => None,
            },
        }
    }
}

impl OpenState {
    pub open spec fn wf(self) -> bool {
        self.success_rate is Some ==> self.success_rate->0.wf()
    }

    pub fn new(active: bool, window: Duration, now: Instant) -> (s: OpenState)
        ensures
            s.wf(),
            s@ == OpenStateView::cold(active, window, now),
    {
        if active {
            OpenState {
                consecutive_failures: 0,
                success_rate: Some(SuccessRateWindow::new(window, now)),
            }
        } else {
            OpenState { consecutive_failures: 0, success_rate: None }
        }
    }

    /// Forgets everything that was counted.
    pub fn reset(&mut self, now: Instant)
        requires
            old(self).wf(),
        ensures
            final(self).wf(),
            final(self)@.failures == 0,
            final(self)@.window == match old(self)@.window {
                Some(w) => Some(w.emptied(now)),
                None => None,
            },
    {
        self.consecutive_failures = 0;
        if let Some(window) = &mut self.success_rate {
            window.reset(now);
        }
    }

    /// Counts one response.
    fn count(&mut self, config: &UnifiedBreakerConfig, class: &Class, now: Instant)
        requires
            old(self).wf(),
        ensures
            final(self).wf(),
            final(self)@ == old(self)@.counted(*config, *class, now),
    {
        let is_configured_failure = !class.is_success();
        let degrades_success_rate = class.is_failure() || class.is_rate_limit_signal();
        if config.max_failures > 0 {
            if is_configured_failure {
                if self.consecutive_failures < usize::MAX {
                    self.consecutive_failures = self.consecutive_failures + 1;
                }
            } else {
                self.consecutive_failures = 0;
            }
        }
        if let Some(window) = &mut self.success_rate {
            window.record(!degrades_success_rate, now);
        }
    }
}

/// A breaker with both conditions.
#[derive(Debug)]
pub struct UnifiedBreaker {
    pub config: UnifiedBreakerConfig,
    pub phase: Phase,
    pub state: OpenState,
    /// The reason for the latest trip.
    pub tripped: Option<TripReason>,
}

pub struct UnifiedView {
    pub config: UnifiedBreakerConfig,
    pub phase: Phase,
    pub state: OpenStateView,
    pub tripped: Option<TripReason>,
}

impl View for UnifiedBreaker {
    type V = UnifiedView;

    open spec fn view(&self) -> UnifiedView {
        UnifiedView {
            config: self.config,
            phase: self.phase,
            state: self.state@,
            tripped: self.tripped,
        }
    }
}

/// Whether the response to a probe shows that the endpoint has recovered: it is neither a failure
/// nor a server error, and it does not ask for less traffic.
pub open spec fn recovered(class: Class) -> bool {
    &&& class.success()
    &&& !class.rate_limited()
    &&& (class matches Class::Http(Ok(status)) ==> !server_error(status))
}

impl UnifiedView {
    pub open spec fn stay(self) -> (UnifiedView, Action) {
        (self, Action::Listen)
    }

    /// What an event does.
    pub open spec fn next(self, event: Event) -> (UnifiedView, Action) {
        match (self.phase, event) {
            (Phase::Stopped, _) => (self, Action::Stop),
            (_, Event::GateLost) => (UnifiedView { phase: Phase::Stopped, ..self }, Action::Stop),
            (_, Event::ResponsesClosed) => (
                UnifiedView { phase: Phase::Stopped, ..self },
                Action::Stop,
            ),
            (Phase::Open, Event::Response(class, now)) => {
                let state = self.state.counted(self.config, class, now);
                match state.trip(self.config) {
                    Some(reason) => (
                        UnifiedView { phase: Phase::Shut, state, tripped: Some(reason), ..self },
                        Action::ShutGate { restart_backoff: true },
                    ),
                    None => (UnifiedView { state, ..self }, Action::Listen),
                }
            },
            (Phase::Shut, Event::Backoff(delay, hint)) => (
                UnifiedView { phase: Phase::Waiting, ..self },
                Action::Wait(
                    if self.config.respect_retry_after_hint {
                        floored_wait(delay, hint)
                    } else {
                        delay
                    },
                ),
            ),
            (Phase::Waiting, Event::WaitElapsed) => (
                UnifiedView { phase: Phase::Probation, ..self },
                Action::Probe { permits: 1, drain: true, deadline: Some(self.config.backoff.max) },
            ),
            (Phase::Probation, Event::Response(class, now)) => if recovered(class) {
                (
                    UnifiedView {
                        phase: Phase::Open,
                        state: OpenStateView {
                            failures: 0,
                            window: match self.state.window {
                                Some(w) => Some(w.emptied(now)),
                                None => None,
                            },
                        },
                        ..self
                    },
                    Action::OpenGate,
                )
            } else {
                (
                    UnifiedView { phase: Phase::Shut, ..self },
                    Action::ShutGate { restart_backoff: false },
                )
            },
            (Phase::Probation, Event::ProbeTimedOut) => (
                UnifiedView { phase: Phase::Shut, ..self },
                Action::ShutGate { restart_backoff: false },
            ),
            _ => self.stay(),
        }
    }

    /// While requests pass no condition is met, and there is a window exactly if there is a
    /// threshold.
    pub open spec fn wf(self) -> bool {
        &&& self.state.window is Some <==> self.config.threshold > 0
        &&& self.phase == Phase::Open ==> self.state.trip(self.config) is None
    }
}

impl UnifiedBreaker {
    pub open spec fn wf(self) -> bool {
        self@.wf() && self.state.wf()
    }

    /// A breaker that has seen no responses.
    pub open spec fn started(config: UnifiedBreakerConfig, now: Instant) -> UnifiedView {
        UnifiedView {
            config,
            phase: Phase::Open,
            state: OpenStateView::cold(config.threshold > 0, config.window, now),
            tripped: None,
        }
    }

    pub fn new(config: UnifiedBreakerConfig, now: Instant) -> (b: UnifiedBreaker)
        ensures
            b.wf(),
            b@ == UnifiedBreaker::started(config, now),
    {
        let active = config.threshold > 0;
        let b = UnifiedBreaker {
            config,
            phase: Phase::Open,
            state: OpenState::new(active, config.window, now),
            tripped: None,
        };
        proof {
            let w = cold_window(config.window, now);
            reset_window_cannot_trip(w, now, config.min_requests as nat, config.threshold as nat);
            assert(w.emptied(now) == w);
        }
        b
    }

    /// Whether the counts meet a condition, and which.
    pub fn should_trip(&self) -> (r: Option<TripReason>)
        requires
            self.state.wf(),
        ensures
            r == self@.state.trip(self.config),
    {
        if self.config.max_failures == 0 {
        } else if self.state.consecutive_failures >= self.config.max_failures {
            return Some(TripReason::ConsecutiveFailures);
        }
        if let Some(window) = &self.state.success_rate {
            if window.should_trip(self.config.min_requests, self.config.threshold) {
                return Some(TripReason::LowSuccessRate);
            }
        }
        None
    }

    /// Whether the response to a probe shows that the endpoint has recovered.
    pub fn is_probe_success(&self, class: &Class) -> (b: bool)
        ensures
            b == recovered(*class),
    {
        if class.is_rate_limit_signal() {
            return false;
        }
        match class {
            Class::Http(Ok(status)) => !is_server_error(*status),
            Class::Http(Err(_)) => false,
            Class::Grpc(Ok(_)) => true,
            Class::Grpc(Err(_)) => false,
            _ => class.is_success(),
        }
    }

    /// Takes note of an event and says what to do about it.
    pub fn step(&mut self, event: Event) -> (action: Action)
        requires
            old(self).wf(),
        ensures
            final(self).wf(),
            (final(self)@, action) == old(self)@.next(event),
    {
        match (self.phase, event) {
            (Phase::Stopped, _) => Action::Stop,
            (_, Event::GateLost) => {
                self.phase = Phase::Stopped;
                Action::Stop
            },
            (_, Event::ResponsesClosed) => {
                self.phase = Phase::Stopped;
                Action::Stop
            },
            (Phase::Open, Event::Response(class, now)) => {
                let config = self.config;
                self.state.count(&config, &class, now);
                match self.should_trip() {
                    Some(reason) => {
                        self.tripped = Some(reason);
                        self.phase = Phase::Shut;
                        Action::ShutGate { restart_backoff: true }
                    },
                    None => Action::Listen,
                }
            },
            (Phase::Shut, Event::Backoff(delay, hint)) => {
                self.phase = Phase::Waiting;
                if self.config.respect_retry_after_hint {
                    Action::Wait(floor_wait(delay, hint))
                } else {
                    Action::Wait(delay)
                }
            },
            (Phase::Waiting, Event::WaitElapsed) => {
                self.phase = Phase::Probation;
                Action::Probe { permits: 1, drain: true, deadline: Some(self.config.backoff.max) }
            },
            (Phase::Probation, Event::Response(class, now)) => {
                if self.is_probe_success(&class) {
                    self.state.reset(now);
                    self.phase = Phase::Open;
                    proof {
                        if old(self)@.state.window is Some {
                            reset_window_cannot_trip(
                                old(self)@.state.window->0,
                                now,
                                self.config.min_requests as nat,
                                self.config.threshold as nat,
                            );
                        }
                    }
                    Action::OpenGate
                } else {
                    self.phase = Phase::Shut;
                    Action::ShutGate { restart_backoff: false }
                }
            },
            (Phase::Probation, Event::ProbeTimedOut) => {
                self.phase = Phase::Shut;
                Action::ShutGate { restart_backoff: false }
            },
            _ => Action::Listen,
        }
    }
}

/// The breaker after a run of responses.
pub open spec fn after_responses(b: UnifiedView, rsps: Seq<(Class, Instant)>) -> UnifiedView
    decreases rsps.len(),
{
    if rsps.len() == 0 {
        b
    } else {
        after_responses(b, rsps.drop_last()).next(
            Event::Response(rsps.last().0, rsps.last().1),
        ).0
    }
}

/// With both conditions off, no run of responses trips the breaker.
pub proof fn disabled_breaker_never_trips(b: UnifiedView, rsps: Seq<(Class, Instant)>)
    requires
        b.wf(),
        b.phase == Phase::Open,
        b.config.max_failures == 0,
        b.config.threshold == 0,
    ensures
        after_responses(b, rsps) == b,
    decreases rsps.len(),
{
    if rsps.len() > 0 {
        disabled_breaker_never_trips(b, rsps.drop_last());
    }
}

/// A run of failures as long as the ceiling trips the breaker, whatever came before it and however
/// few responses were seen.
pub proof fn run_of_failures_trips(b: UnifiedView, rsps: Seq<(Class, Instant)>)
    requires
        b.wf(),
        b.phase == Phase::Open,
        b.config.max_failures > 0,
        rsps.len() >= b.config.max_failures,
        forall|i: int| 0 <= i < rsps.len() ==> !(#[trigger] rsps[i]).0.success(),
    ensures
        after_responses(b, rsps).phase == Phase::Shut,
        after_responses(b, rsps).tripped is Some,
{
    lemma_failures_add_up(b, rsps);
}

proof fn lemma_failures_add_up(b: UnifiedView, rsps: Seq<(Class, Instant)>)
    requires
        b.wf(),
        b.phase == Phase::Open,
        b.config.max_failures > 0,
        forall|i: int| 0 <= i < rsps.len() ==> !(#[trigger] rsps[i]).0.success(),
    ensures
        ({
            let a = after_responses(b, rsps);
            &&& a.config == b.config
            &&& a.phase == Phase::Shut && a.tripped is Some || a.phase == Phase::Open
                && a.state.failures == b.state.failures + rsps.len() && a.state.failures
                < a.config.max_failures
        }),
    decreases rsps.len(),
{
    if rsps.len() > 0 {
        let rest = rsps.drop_last();
        assert forall|i: int| 0 <= i < rest.len() implies !(#[trigger] rest[i]).0.success() by {
            assert(rest[i] == rsps[i]);
        }
        lemma_failures_add_up(b, rest);
        assert(rsps.last() == rsps[rsps.len() - 1]);
    }
}

/// A rate-limit signal ends a run of failures and never trips the breaker for one.
pub proof fn rate_limit_is_no_failure(b: UnifiedView, class: Class, now: Instant)
    requires
        b.wf(),
        b.phase == Phase::Open,
        class.rate_limited(),
    ensures
        b.config.max_failures > 0 ==> b.next(Event::Response(class, now)).0.state.failures == 0,
        b.next(Event::Response(class, now)).0.phase == Phase::Shut ==> b.next(
            Event::Response(class, now),
        ).0.tripped == Some(TripReason::LowSuccessRate),
{
}

/// A rate-limit signal lowers the success rate: it is counted in the window as no success.
pub proof fn rate_limit_lowers_success_rate(
    s: OpenStateView,
    config: UnifiedBreakerConfig,
    class: Class,
    now: Instant,
)
    requires
        s.window is Some,
        class.rate_limited(),
    ensures
        s.counted(config, class, now).window == Some(s.window->0.recorded(false, now)),
{
}

/// A response that meets both conditions at once is charged to the run of failures.
pub proof fn run_of_failures_is_charged_first(s: OpenStateView, config: UnifiedBreakerConfig)
    requires
        config.max_failures > 0,
        s.failures >= config.max_failures,
    ensures
        s.trip(config) == Some(TripReason::ConsecutiveFailures),
{
}

/// The breaker cannot trip on its success rate before the window holds `min_requests` responses,
/// nor on an empty window.
pub proof fn cold_start_is_protected(s: OpenStateView, config: UnifiedBreakerConfig)
    requires
        s.window is Some,
        sums(s.window->0.slices).1 < config.min_requests || sums(s.window->0.slices).1 == 0,
    ensures
        s.trip(config) != Some(TripReason::LowSuccessRate),
{
}

/// Requests pass again only on the response to a probe, and only if that shows recovery: neither
/// a failure, nor a server error, nor a rate-limit signal. A response that was queued while
/// requests were shut out changes nothing.
pub proof fn only_recovered_probe_reopens(b: UnifiedView, event: Event)
    requires
        b.phase != Phase::Open,
        b.next(event).0.phase == Phase::Open,
    ensures
        b.phase == Phase::Probation,
        event matches Event::Response(class, _) && recovered(class) && class.success()
            && !class.rate_limited(),
{
}

/// A reopened breaker is cold: no failures, and a window without responses that cannot trip.
pub proof fn reopened_breaker_is_cold(b: UnifiedView, event: Event)
    requires
        b.wf(),
        b.phase != Phase::Open,
        b.next(event).0.phase == Phase::Open,
    ensures
        b.next(event).0.state.failures == 0,
        b.next(event).0.state.window matches Some(w) ==> sums(w.slices) == (0nat, 0nat),
        b.next(event).0.state.trip(b.config) is None,
{
    if let Event::Response(_, now) = event {
        if b.state.window is Some {
            reset_window_cannot_trip(
                b.state.window->0,
                now,
                b.config.min_requests as nat,
                b.config.threshold as nat,
            );
        }
    }
}

/// Each trip starts the backoff schedule over, and a probe that failed or was not answered goes on
/// with the one in use.
pub proof fn backoff_restarts_on_trip(b: UnifiedView, event: Event)
    requires
        b.wf(),
    ensures
        b.next(event).1 matches Action::ShutGate { restart_backoff } ==> (restart_backoff
            <==> b.phase == Phase::Open),
{
}

/// A probe lets through a single request, does not count what was queued before it, and is bounded
/// by the ceiling of the backoff schedule; if it is not answered by then, requests are shut out
/// again.
pub proof fn probe_is_single_and_bounded(b: UnifiedView, event: Event)
    ensures
        b.next(event).1 matches Action::Probe { permits, drain, deadline } ==> permits == 1 && drain
            && deadline == Some(b.config.backoff.max),
        b.phase == Phase::Probation && event is ProbeTimedOut ==> b.next(event).0.phase
            == Phase::Shut,
{
}

/// A wait is never shorter than the delay of the schedule, and without leave to use hints it is
/// that delay.
pub proof fn wait_honors_schedule(b: UnifiedView, delay: Duration, hint: Option<Duration>)
    requires
        b.phase == Phase::Shut,
    ensures
        b.next(Event::Backoff(delay, hint)).1 matches Action::Wait(d) && d.nanos >= delay.nanos && (
        !b.config.respect_retry_after_hint ==> d == delay),
{
}

/// After a quiet gap as long as the window, the first response cannot trip the breaker on its
/// success rate unless one response is enough to: the cold start protects it again.
pub proof fn idle_gap_reengages_cold_start(
    s: OpenStateView,
    config: UnifiedBreakerConfig,
    class: Class,
    now: Instant,
)
    requires
        s.window is Some,
        s.window->0.slices.len() == BUCKETS,
        s.window->0.width > 0,
        now.nanos >= s.window->0.start + BUCKETS * s.window->0.width,
        config.min_requests >= 2,
    ensures
        s.counted(config, class, now).trip(config) != Some(TripReason::LowSuccessRate),
{
    gap_clears_window(s.window->0, class.success() && !class.rate_limited(), now);
}

/// Whatever it is doing, a breaker stops when there are no more responses or no more requests, and
/// then stays stopped.
pub proof fn closed_channel_stops_breaker(b: UnifiedView, event: Event)
    ensures
        b.next(Event::ResponsesClosed).0.phase == Phase::Stopped,
        b.next(Event::GateLost).0.phase == Phase::Stopped,
        b.phase == Phase::Stopped ==> b.next(event) == (b, Action::Stop),
{
}

/// The response to a probe decides, by its status or code alone. Whatever the policy in force let
/// pass opens the breaker, be it a 404 or any gRPC code, but for a rate-limit signal (429,
/// RESOURCE_EXHAUSTED) and a server error (500 to 599). Those, failures and no response at all
/// shut it again.
pub proof fn probe_decides(b: UnifiedView, class: Class, status: u16, code: Code, now: Instant)
    requires
        b.phase == Phase::Probation,
    ensures
        status != 429 && (status < 500 || status > 599) ==> {
            let (next, action) = b.next(Event::Response(Class::Http(Ok(status)), now));
            next.phase == Phase::Open && action is OpenGate
        },
        status == 429 || 500 <= status <= 599 ==> {
            let (next, action) = b.next(Event::Response(Class::Http(Ok(status)), now));
            next.phase == Phase::Shut && action == Action::ShutGate { restart_backoff: false }
        },
        code != Code::ResourceExhausted ==> {
            let (next, action) = b.next(Event::Response(Class::Grpc(Ok(code)), now));
            next.phase == Phase::Open && action is OpenGate
        },
        code == Code::ResourceExhausted ==> {
            let (next, action) = b.next(Event::Response(Class::Grpc(Ok(code)), now));
            next.phase == Phase::Shut && action == Action::ShutGate { restart_backoff: false }
        },
        failing(class) ==> {
            let (next, action) = b.next(Event::Response(class, now));
            next.phase == Phase::Shut && action == Action::ShutGate { restart_backoff: false }
        },
        recovered(Class::Http(Ok(status))) <==> status != 429 && (status < 500 || status > 599),
        recovered(Class::Grpc(Ok(code))) <==> code != Code::ResourceExhausted,
        failing(class) ==> !recovered(class),
{
}

/// A breaker that has tripped goes its way: it asks for a delay, waits for it, or longer if it has
/// leave to use hints, and lets one request through, whose response is waited for no longer than
/// the ceiling of the schedule. Responses do not matter until then, and how the breaker is set up
/// never changes.
pub proof fn tripped_breaker_waits_and_probes(
    b: UnifiedView,
    class: Class,
    now: Instant,
    delay: Duration,
    hint: Option<Duration>,
    event: Event,
)
    ensures
        b.phase == Phase::Shut || b.phase == Phase::Waiting ==> b.next(Event::Response(class, now))
            == (b, Action::Listen),
        b.phase == Phase::Shut ==> {
            let (next, action) = b.next(Event::Backoff(delay, hint));
            &&& next.phase == Phase::Waiting
            &&& next.state == b.state
            &&& action matches Action::Wait(d) && d.nanos >= delay.nanos && (d == delay
                || b.config.respect_retry_after_hint && hint == Some(d)) && (
            b.config.respect_retry_after_hint && hint is Some ==> d.nanos >= hint->0.nanos)
        },
        b.phase == Phase::Waiting ==> {
            let (next, action) = b.next(Event::WaitElapsed);
            &&& next.phase == Phase::Probation
            &&& action == Action::Probe {
                permits: 1,
                drain: true,
                deadline: Some(b.config.backoff.max),
            }
        },
        b.phase == Phase::Probation ==> {
            let (next, action) = b.next(Event::ProbeTimedOut);
            next.phase == Phase::Shut && action == Action::ShutGate { restart_backoff: false }
        },
        b.next(event).0.config == b.config,
{
}

/// The responses of a history as the window counts them.
pub open spec fn samples(rsps: Seq<(Class, Instant)>) -> Seq<Sample> {
    rsps.map_values(
        |r: (Class, Instant)| Sample { at: r.1.nanos as nat, success: healthy(r.0) },
    )
}

/// Whether the times of a history are in order, and none is before `origin`.
pub open spec fn in_order(rsps: Seq<(Class, Instant)>, origin: nat) -> bool {
    &&& forall|i: int| 0 <= i < rsps.len() ==> (#[trigger] rsps[i]).1.nanos >= origin
    &&& forall|i: int, j: int|
        0 <= i <= j < rsps.len() ==> (#[trigger] rsps[i]).1.nanos <= (#[trigger] rsps[j]).1.nanos
}

/// Whether a breaker is open and has counted nothing since `origin`.
pub open spec fn fresh(b: UnifiedView, origin: nat) -> bool {
    &&& b.wf()
    &&& b.phase == Phase::Open
    &&& b.state.failures == 0
    &&& b.state.window matches Some(w) ==> w.represents(Seq::empty(), origin) && w.start == origin
}

/// A new breaker and one that was reopened have counted nothing.
pub proof fn started_and_reopened_breakers_are_fresh(
    config: UnifiedBreakerConfig,
    b: UnifiedView,
    event: Event,
    now: Instant,
)
    requires
        b.wf(),
        b.state.window matches Some(w) ==> w.width > 0,
    ensures
        fresh(UnifiedBreaker::started(config, now), now.nanos as nat),
        event matches Event::Response(_, at) ==> b.phase == Phase::Probation && b.next(
            event,
        ).0.phase == Phase::Open ==> fresh(b.next(event).0, at.nanos as nat),
{
    let w = cold_window(config.window, now);
    assert(w.emptied(now) == w);
    new_window_represents_nothing(w, now);
    reset_window_cannot_trip(w, now, config.min_requests as nat, config.threshold as nat);
    if let Event::Response(_, at) = event {
        if b.state.window is Some {
            new_window_represents_nothing(b.state.window->0, at);
            reset_window_cannot_trip(
                b.state.window->0,
                at,
                b.config.min_requests as nat,
                b.config.threshold as nat,
            );
        }
    }
}

/// A breaker counts what it saw: as long as it lets requests pass, its count is the number of
/// failures behind the last response that was none, and its window holds exactly the responses of
/// its history, of which only healthy ones are successes.
pub proof fn breaker_counts_its_history(b: UnifiedView, origin: nat, rsps: Seq<(Class, Instant)>)
    requires
        fresh(b, origin),
        in_order(rsps, origin),
        rsps.len() < u32::MAX,
    ensures
        ({
            let a = after_responses(b, rsps);
            &&& a.config == b.config
            &&& a.phase == Phase::Open || a.phase == Phase::Shut
            &&& a.phase == Phase::Open && b.config.max_failures > 0 ==> a.state.failures
                == trailing_failures(rsps)
            &&& a.phase == Phase::Open ==> (a.state.window is Some <==> b.state.window is Some)
            &&& a.phase == Phase::Open ==> (a.state.window matches Some(w) ==> w.represents(
                samples(rsps),
                origin,
            ) && w.width == b.state.window->0.width && (if rsps.len() == 0 {
                w.start == origin
            } else {
                w.start <= rsps.last().1.nanos
            }))
        }),
    decreases rsps.len(),
{
    if rsps.len() == 0 {
        assert(samples(rsps) =~= Seq::<Sample>::empty());
    } else {
        let rest = rsps.drop_last();
        assert forall|i: int| 0 <= i < rest.len() implies (#[trigger] rest[i]).1.nanos >= origin by {
            assert(rest[i] == rsps[i]);
        }
        assert forall|i: int, j: int| 0 <= i <= j < rest.len() implies (
        #[trigger] rest[i]).1.nanos <= (#[trigger] rest[j]).1.nanos by {
            assert(rest[i] == rsps[i] && rest[j] == rsps[j]);
        }
        breaker_counts_its_history(b, origin, rest);
        let before = after_responses(b, rest);
        let (class, now) = rsps.last();
        assert(rsps.last() == rsps[rsps.len() - 1]);
        if rest.len() > 0 {
            assert(rest.last() == rsps[rsps.len() - 2]);
        }
        trailing_failures_are_all_failures(rest);
        assert(samples(rsps) =~= samples(rest).push(
            Sample { at: now.nanos as nat, success: healthy(class) },
        ));
        if before.phase == Phase::Open {
            if before.state.window is Some {
                let w = before.state.window->0;
                window_counts_exactly(w, samples(rest), origin, healthy(class), now);
                lemma_start_not_after(w, now);
            }
        }
    }
}

proof fn lemma_start_not_after(w: WindowView, now: Instant)
    requires
        w.width > 0,
        w.start <= now.nanos,
    ensures
        w.rolled(now).start <= now.nanos < w.rolled(now).start + w.width,
{
    let gap = now.nanos - w.start;
    let width = w.width as int;
    let steps = w.steps(now) as int;
    vstd::arithmetic::div_mod::lemma_fundamental_div_mod(gap, width);
    vstd::arithmetic::div_mod::lemma_mod_bound(gap, width);
    assert(w.start + steps * width <= now.nanos < w.start + steps * width + width)
        by (nonlinear_arith)
        requires
            gap == width * steps + gap % width,
            0 <= gap % width < width,
            gap == now.nanos - w.start,
    ;
}

/// When a breaker trips: exactly when the responses that it saw end in a run of failures as long as
/// the ceiling, or when, of the responses of the last ten slices, there are enough and fewer than
/// the threshold in ten thousand are healthy. A run of failures is what is charged if there is one.
/// `start` is where the present slice begins, so the slices are those since `start` less nine
/// widths.
pub proof fn breaker_trips_exactly_when(
    b: UnifiedView,
    origin: nat,
    rsps: Seq<(Class, Instant)>,
    class: Class,
    now: Instant,
)
    requires
        fresh(b, origin),
        in_order(rsps.push((class, now)), origin),
        rsps.len() + 1 < u32::MAX,
        after_responses(b, rsps).phase == Phase::Open,
    ensures
        ({
            let all = rsps.push((class, now));
            let (next, action) = after_responses(b, rsps).next(Event::Response(class, now));
            let run = b.config.max_failures > 0 && trailing_failures(all) >= b.config.max_failures;
            let low = b.state.window is Some && {
                let w = next.state.window->0;
                let (successes, total) = count_since(samples(all), w.start - 9 * w.width);
                &&& w.start <= now.nanos < w.start + w.width
                &&& total >= 1
                &&& total >= b.config.min_requests
                &&& successes * 10_000 < b.config.threshold * total
            };
            &&& run || low <==> next.phase == Phase::Shut
            &&& run || low <==> action == Action::ShutGate { restart_backoff: true }
            &&& !(run || low) ==> next.phase == Phase::Open && action is Listen
            &&& run ==> next.tripped == Some(TripReason::ConsecutiveFailures)
            &&& low && !run ==> next.tripped == Some(TripReason::LowSuccessRate)
        }),
{
    let all = rsps.push((class, now));
    assert(all.drop_last() =~= rsps);
    assert forall|i: int| 0 <= i < rsps.len() implies (#[trigger] rsps[i]).1.nanos >= origin by {
        assert(all[i] == rsps[i]);
    }
    assert forall|i: int, j: int| 0 <= i <= j < rsps.len() implies (#[trigger] rsps[i]).1.nanos <= (
    #[trigger] rsps[j]).1.nanos by {
        assert(all[i] == rsps[i] && all[j] == rsps[j]);
    }
    assert(all[rsps.len() as int] == (class, now));
    breaker_counts_its_history(b, origin, rsps);
    trailing_failures_are_all_failures(rsps);
    let before = after_responses(b, rsps);
    let next = before.next(Event::Response(class, now)).0;
    assert(samples(all) =~= samples(rsps).push(
        Sample { at: now.nanos as nat, success: healthy(class) },
    ));
    if rsps.len() > 0 {
        assert(rsps.last() == all[rsps.len() - 1]);
    }
    if before.state.window is Some {
        let w = before.state.window->0;
        window_counts_exactly(w, samples(rsps), origin, healthy(class), now);
        lemma_start_not_after(w, now);
        sums_count_live_responses(next.state.window->0, samples(all), origin);
    }
}

/// A breaker is done once requests or responses can come no more, whatever its phase, and stays so.
/// Events that its phase does not wait for change nothing.
pub proof fn breaker_ends_for_good(
    b: UnifiedView,
    event: Event,
    delay: Duration,
    hint: Option<Duration>,
)
    ensures
        b.next(Event::GateLost).0.phase == Phase::Stopped && b.next(Event::GateLost).1 is Stop,
        b.next(Event::ResponsesClosed).0.phase == Phase::Stopped && b.next(Event::ResponsesClosed).1
            is Stop,
        b.phase == Phase::Stopped ==> b.next(event).0 == b && b.next(event).1 is Stop,
        b.phase != Phase::Shut && b.phase != Phase::Stopped ==> b.next(Event::Backoff(delay, hint))
            == (b, Action::Listen),
        b.phase != Phase::Waiting && b.phase != Phase::Stopped ==> b.next(Event::WaitElapsed) == (
            b,
            Action::Listen,
        ),
        b.phase != Phase::Probation && b.phase != Phase::Stopped ==> b.next(Event::ProbeTimedOut) == (
            b,
            Action::Listen,
        ),
{
}

/// A breaker that has seen nothing counts a run of failures and, if it has a threshold, the
/// responses of a window that begins when it does.
pub proof fn breakers_start_cold(config: UnifiedBreakerConfig, now: Instant)
    ensures
        ({
            let b = UnifiedBreaker::started(config, now);
            &&& b.config == config
            &&& b.phase == Phase::Open
            &&& b.tripped is None
            &&& b.state.failures == 0
            &&& b.state.window is Some <==> config.threshold >= 1
            &&& b.state.window matches Some(w) ==> {
                &&& w.start == now.nanos
                &&& w.slices.len() == 10
                &&& forall|age: int|
                    0 <= age < 10 ==> (#[trigger] w.slices[age]).total == 0
                        && w.slices[age].successes == 0
                &&& config.window.nanos >= 10_000_000 ==> w.width * 10 <= config.window.nanos
                    < w.width * 10 + 10
                &&& config.window.nanos <= 10_000_000 ==> w.width == 1_000_000
            }
        }),
{
}

} // verus!
