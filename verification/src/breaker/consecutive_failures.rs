//! A breaker that trips after a run of failures and judges its probe by the class alone.

use crate::breaker::{
    failing, floor_wait, floored_wait, trailing_failures, trailing_failures_are_all_failures, Action,
    Event, Phase,
};
use crate::classify::Class;
use crate::client_policy;
use crate::time::{Duration, Instant};
use vstd::prelude::*;

verus! {

/// Trips after `max_failures` failures in a row, none if that is zero.
#[derive(Debug)]
pub struct ConsecutiveFailures {
    pub policy: client_policy::ConsecutiveFailures,
    pub phase: Phase,
    pub failures: usize,
}

/// The phase, the failures in a row, and what is asked of the caller after an event.
pub struct Step {
    pub phase: Phase,
    pub failures: nat,
    pub action: Action,
}

impl ConsecutiveFailures {
    /// While requests pass, the run of failures is shorter than the one that trips.
    pub open spec fn wf(self) -> bool {
        self.phase == Phase::Open && self.policy.max_failures > 0 ==> self.failures
            < self.policy.max_failures
    }

    /// A breaker of the given policy that has seen no responses.
    pub open spec fn started(self, policy: client_policy::ConsecutiveFailures) -> bool {
        &&& self.policy == policy
        &&& self.phase == Phase::Open
        &&& self.failures == 0
    }

    pub fn new(policy: client_policy::ConsecutiveFailures) -> (b: ConsecutiveFailures)
        ensures
            b.wf(),
            b.started(policy),
    {
        ConsecutiveFailures { policy, phase: Phase::Open, failures: 0 }
    }

    pub open spec fn stay(self) -> Step {
        Step { phase: self.phase, failures: self.failures as nat, action: Action::Listen }
    }

    /// What an event does.
    pub open spec fn next(self, event: Event) -> Step {
        match (self.phase, event) {
            (Phase::Stopped, _) => Step { action: Action::Stop, ..self.stay() },
            (_, Event::GateLost) => Step {
                phase: Phase::Stopped,
                action: Action::Stop,
                ..self.stay()
            },
            // Responses do not matter while requests are shut out, nor does it that there are no
            // more.
            (Phase::Open, Event::ResponsesClosed) => Step {
                phase: Phase::Stopped,
                action: Action::Stop,
                ..self.stay()
            },
            (Phase::Probation, Event::ResponsesClosed) => Step {
                phase: Phase::Stopped,
                action: Action::Stop,
                ..self.stay()
            },
            (Phase::Open, Event::Response(class, _)) => if class.success() {
                Step { failures: 0, ..self.stay() }
            } else if self.failures + 1 == self.policy.max_failures {
                Step {
                    phase: Phase::Shut,
                    failures: 0,
                    action: Action::ShutGate { restart_backoff: true },
                }
            } else if self.failures < usize::MAX {
                Step { failures: (self.failures + 1) as nat, ..self.stay() }
            } else {
                self.stay()
            },
            (Phase::Shut, Event::Backoff(delay, hint)) => Step {
                phase: Phase::Waiting,
                action: Action::Wait(
                    if self.policy.respect_retry_after_hint {
                        floored_wait(delay, hint)
                    } else {
                        delay
                    },
                ),
                ..self.stay()
            },
            (Phase::Waiting, Event::WaitElapsed) => Step {
                phase: Phase::Probation,
                action: Action::Probe { permits: 1, drain: false, deadline: None },
                ..self.stay()
            },
            (Phase::Probation, Event::Response(class, _)) => if class.success() {
                Step { phase: Phase::Open, failures: 0, action: Action::OpenGate }
            } else {
                Step {
                    phase: Phase::Shut,
                    failures: 0,
                    action: Action::ShutGate { restart_backoff: false },
                }
            },
            _ => self.stay(),
        }
    }

    /// Takes note of an event and says what to do about it.
    pub fn step(&mut self, event: Event) -> (action: Action)
        requires
            old(self).wf(),
        ensures
            final(self).wf(),
            final(self).policy == old(self).policy,
            (Step { phase: final(self).phase, failures: final(self).failures as nat, action })
                == old(self).next(event),
    {
        match (self.phase, event) {
            (Phase::Stopped, _) => Action::Stop,
            (_, Event::GateLost) => {
                self.phase = Phase::Stopped;
                Action::Stop
            },
            (Phase::Open, Event::ResponsesClosed) => {
                self.phase = Phase::Stopped;
                Action::Stop
            },
            (Phase::Probation, Event::ResponsesClosed) => {
                self.phase = Phase::Stopped;
                Action::Stop
            },
            (Phase::Open, Event::Response(class, _)) => {
                if class.is_success() {
                    self.failures = 0;
                    Action::Listen
                } else if self.failures < usize::MAX {
                    if self.failures + 1 == self.policy.max_failures {
                        self.failures = 0;
                        self.phase = Phase::Shut;
                        Action::ShutGate { restart_backoff: true }
                    } else {
                        self.failures = self.failures + 1;
                        Action::Listen
                    }
                } else {
                    Action::Listen
                }
            },
            (Phase::Shut, Event::Backoff(delay, hint)) => {
                self.phase = Phase::Waiting;
                if self.policy.respect_retry_after_hint {
                    Action::Wait(floor_wait(delay, hint))
                } else {
                    Action::Wait(delay)
                }
            },
            (Phase::Waiting, Event::WaitElapsed) => {
                self.phase = Phase::Probation;
                Action::Probe { permits: 1, drain: false, deadline: None }
            },
            (Phase::Probation, Event::Response(class, _)) => {
                self.failures = 0;
                if class.is_success() {
                    self.phase = Phase::Open;
                    Action::OpenGate
                } else {
                    self.phase = Phase::Shut;
                    Action::ShutGate { restart_backoff: false }
                }
            },
            _ => Action::Listen,
        }
    }
}

/// The breaker after a run of responses.
pub open spec fn after_responses(b: ConsecutiveFailures, rsps: Seq<(Class, Instant)>) -> Step
    decreases rsps.len(),
{
    if rsps.len() == 0 {
        b.stay()
    } else {
        let s = after_responses(b, rsps.drop_last());
        (ConsecutiveFailures {
            policy: b.policy,
            phase: s.phase,
            failures: s.failures as usize,
        }).next(Event::Response(rsps.last().0, rsps.last().1))
    }
}

/// A run of failures as long as the ceiling trips the breaker, whatever came before it.
pub proof fn run_of_failures_trips(b: ConsecutiveFailures, rsps: Seq<(Class, Instant)>)
    requires
        b.wf(),
        b.phase == Phase::Open,
        b.policy.max_failures > 0,
        rsps.len() >= b.policy.max_failures,
        forall|i: int| 0 <= i < rsps.len() ==> !(#[trigger] rsps[i]).0.success(),
    ensures
        after_responses(b, rsps).phase == Phase::Shut,
{
    lemma_failures_add_up(b, rsps);
}

proof fn lemma_failures_add_up(b: ConsecutiveFailures, rsps: Seq<(Class, Instant)>)
    requires
        b.wf(),
        b.phase == Phase::Open,
        b.policy.max_failures > 0,
        forall|i: int| 0 <= i < rsps.len() ==> !(#[trigger] rsps[i]).0.success(),
    ensures
        ({
            let s = after_responses(b, rsps);
            s.phase == Phase::Shut || s.phase == Phase::Open && s.failures == b.failures
                + rsps.len() && s.failures < b.policy.max_failures
        }),
    decreases rsps.len(),
{
    if rsps.len() > 0 {
        let rest = rsps.drop_last();
        assert forall|i: int| 0 <= i < rest.len() implies !(#[trigger] rest[i]).0.success() by {
            assert(rest[i] == rsps[i]);
        }
        lemma_failures_add_up(b, rest);
        assert(rsps.last() == rsps[rsps.len() - 1]);
    }
}

/// A breaker with a ceiling of zero never trips.
pub proof fn zero_ceiling_never_trips(b: ConsecutiveFailures, event: Event)
    requires
        b.policy.max_failures == 0,
        b.phase == Phase::Open,
    ensures
        b.next(event).phase is Open || b.next(event).phase is Stopped,
{
}

/// The probe is lenient: any class that counts as a success lets requests pass again, a rate-limit
/// signal too.
pub proof fn lenient_probe_reopens(b: ConsecutiveFailures, class: Class, now: Instant)
    requires
        b.phase == Phase::Probation,
        class.rate_limited(),
    ensures
        b.next(Event::Response(class, now)).phase is Open,
        b.next(Event::Response(class, now)).action is OpenGate,
{
}

/// Without leave to use hints, a breaker waits exactly as long as its schedule says.
pub proof fn hints_need_leave(b: ConsecutiveFailures, delay: Duration, hint: Option<Duration>)
    requires
        b.phase == Phase::Shut,
        !b.policy.respect_retry_after_hint,
    ensures
        b.next(Event::Backoff(delay, hint)).action == Action::Wait(delay),
{
}

/// Requests pass again only on a successful response to a probe.
pub proof fn only_successful_probe_reopens(b: ConsecutiveFailures, event: Event)
    requires
        b.phase != Phase::Open,
        b.next(event).phase == Phase::Open,
    ensures
        b.phase == Phase::Probation,
        event matches Event::Response(class, _) && class.success(),
{
}

/// A breaker counts the failures behind the last success: as long as it lets requests pass, that is
/// its count; and it lets them pass exactly as long as no run of failures, at any point of the
/// history, was as long as the ceiling.
pub proof fn run_is_counted_from_last_success(b: ConsecutiveFailures, rsps: Seq<(Class, Instant)>)
    requires
        b.wf(),
        b.phase == Phase::Open,
        b.failures == 0,
        rsps.len() < usize::MAX,
    ensures
        ({
            let s = after_responses(b, rsps);
            &&& s.phase == Phase::Open ==> s.failures == trailing_failures(rsps)
            &&& s.phase == Phase::Open <==> {
                ||| b.policy.max_failures == 0
                ||| forall|n: int|
                    0 <= n <= rsps.len() ==> #[trigger] trailing_failures(rsps.take(n))
                        < b.policy.max_failures
            }
            &&& s.phase == Phase::Open || s.phase == Phase::Shut
        }),
    decreases rsps.len(),
{
    let max = b.policy.max_failures;
    if rsps.len() == 0 {
        assert forall|n: int| 0 <= n <= rsps.len() && max > 0 implies #[trigger] trailing_failures(
            rsps.take(n),
        ) < max by {
            assert(rsps.take(n) =~= rsps);
        }
    } else {
        let rest = rsps.drop_last();
        run_is_counted_from_last_success(b, rest);
        let before = after_responses(b, rest);
        let s = after_responses(b, rsps);
        trailing_failures_are_all_failures(rest);
        trailing_failures_are_all_failures(rsps);
        assert(rsps.take(rsps.len() as int) =~= rsps);
        assert forall|n: int| 0 <= n < rsps.len() implies #[trigger] rsps.take(n) == rest.take(
            n,
        ) by {
            assert(rsps.take(n) =~= rest.take(n));
        }
        let all = forall|n: int|
            0 <= n <= rsps.len() ==> #[trigger] trailing_failures(rsps.take(n)) < max;
        let all_rest = forall|n: int|
            0 <= n <= rest.len() ==> #[trigger] trailing_failures(rest.take(n)) < max;
        assert(all ==> trailing_failures(rsps.take(rsps.len() as int)) < max);
        assert(all ==> all_rest) by {
            if all {
                assert forall|n: int| 0 <= n <= rest.len() implies #[trigger] trailing_failures(
                    rest.take(n),
                ) < max by {
                    assert(trailing_failures(rsps.take(n)) < max);
                }
            }
        }
        assert(all_rest && trailing_failures(rsps) < max ==> all) by {
            if all_rest && trailing_failures(rsps) < max {
                assert forall|n: int| 0 <= n <= rsps.len() implies #[trigger] trailing_failures(
                    rsps.take(n),
                ) < max by {
                    if n < rsps.len() {
                        assert(trailing_failures(rest.take(n)) < max);
                    }
                }
            }
        }
        if before.phase == Phase::Open && max > 0 {
            assert(trailing_failures(rest.take(rest.len() as int)) < max);
            assert(rest.take(rest.len() as int) =~= rest);
        }
    }
}

/// The response to a probe decides: any status or code that the policy in force let pass opens the
/// breaker and starts the count over, anything else shuts it again.
pub proof fn probe_decides(b: ConsecutiveFailures, class: Class, now: Instant)
    requires
        b.phase == Phase::Probation,
    ensures
        ({
            let s = b.next(Event::Response(class, now));
            if failing(class) {
                s.phase == Phase::Shut && s.action == Action::ShutGate { restart_backoff: false }
            } else {
                s.phase == Phase::Open && s.action is OpenGate && s.failures == 0
            }
        }),
{
}

/// A breaker that has tripped goes its way: it asks for a delay, waits for it, or longer if it has
/// leave to use hints, and lets one request through. Responses do not matter until then.
pub proof fn tripped_breaker_waits_and_probes(
    b: ConsecutiveFailures,
    class: Class,
    now: Instant,
    delay: Duration,
    hint: Option<Duration>,
)
    ensures
        b.phase == Phase::Shut || b.phase == Phase::Waiting ==> b.next(Event::Response(class, now))
            == b.stay(),
        b.phase == Phase::Shut ==> {
            let s = b.next(Event::Backoff(delay, hint));
            &&& s.phase == Phase::Waiting
            &&& s.action matches Action::Wait(d) && d.nanos >= delay.nanos && (d == delay
                || b.policy.respect_retry_after_hint && hint == Some(d)) && (
            b.policy.respect_retry_after_hint && hint is Some ==> d.nanos >= hint->0.nanos)
        },
        b.phase == Phase::Waiting ==> {
            let s = b.next(Event::WaitElapsed);
            &&& s.phase == Phase::Probation
            &&& s.action matches Action::Probe { permits, .. } && permits == 1
        },
        b.phase != Phase::Stopped ==> b.next(Event::GateLost).phase == Phase::Stopped,
        b.phase == Phase::Open || b.phase == Phase::Probation ==> b.next(
            Event::ResponsesClosed,
        ).phase == Phase::Stopped,
        b.stay().phase == b.phase && b.stay().failures == b.failures,
{
}

/// A breaker that is open does one of two things with a response: it goes on, or it shuts and asks
/// for a schedule of delays that starts over. It goes on after every response that is no failure.
pub proof fn open_breaker_goes_on_or_shuts(b: ConsecutiveFailures, class: Class, now: Instant)
    requires
        b.phase == Phase::Open,
    ensures
        ({
            let s = b.next(Event::Response(class, now));
            &&& s.phase == Phase::Open ==> s.action is Listen
            &&& s.phase == Phase::Shut ==> s.action == Action::ShutGate { restart_backoff: true }
            &&& s.phase == Phase::Open || s.phase == Phase::Shut
            &&& !failing(class) ==> s.phase == Phase::Open && s.failures == 0
            &&& failing(class) && s.phase == Phase::Open && b.failures < usize::MAX ==> s.failures
                == b.failures + 1
            &&& failing(class) ==> (s.phase == Phase::Shut <==> b.failures + 1
                == b.policy.max_failures)
        }),
{
}

/// A breaker is done once requests can come no more. That responses can come no more ends it only
/// while it waits for one. A breaker that is done stays so. Events that its phase does not wait for
/// change nothing.
pub proof fn breaker_ends_for_good(
    b: ConsecutiveFailures,
    event: Event,
    delay: Duration,
    hint: Option<Duration>,
)
    ensures
        b.next(Event::GateLost).phase == Phase::Stopped && b.next(Event::GateLost).action is Stop,
        b.phase == Phase::Stopped ==> b.next(event).phase == Phase::Stopped && b.next(event).action
            is Stop,
        b.phase == Phase::Open || b.phase == Phase::Probation ==> b.next(
            Event::ResponsesClosed,
        ).action is Stop,
        b.phase == Phase::Shut || b.phase == Phase::Waiting ==> {
            let s = b.next(Event::ResponsesClosed);
            s.phase == b.phase && s.action is Listen
        },
        b.phase != Phase::Shut && b.phase != Phase::Stopped ==> {
            let s = b.next(Event::Backoff(delay, hint));
            s.phase == b.phase && s.failures == b.failures && s.action is Listen
        },
        b.phase != Phase::Waiting && b.phase != Phase::Stopped ==> {
            let s = b.next(Event::WaitElapsed);
            s.phase == b.phase && s.failures == b.failures && s.action is Listen
        },
        b.phase != Phase::Stopped ==> {
            let s = b.next(Event::ProbeTimedOut);
            s.phase == b.phase && s.failures == b.failures && s.action is Listen
        },
{
}

} // verus!
