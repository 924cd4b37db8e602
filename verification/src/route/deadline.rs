//! Deadlines of HTTP streams.
//!
//! The caller owns the timers and the streams. It reports what is ready and what time it is, and
//! learns whether the stream goes on or has timed out.

use crate::client_policy::Timeouts;
use crate::time::{Duration, Instant};
use vstd::prelude::*;

verus! {

/// The deadlines of one stream.
#[derive(Clone, Copy, Debug)]
pub struct StreamTimeouts {
    /// The time between the end of the request and the head of the response.
    pub response_headers: Option<Duration>,
    /// The time between the end of the request, or the head of the response if that comes first,
    /// and the end of the response.
    pub response_end: Option<Duration>,
    /// The time without any progress.
    pub idle: Option<Duration>,
    /// The time of the stream as a whole.
    pub limit: Option<StreamLifetime>,
}

impl Default for StreamTimeouts {
    fn default() -> (t: StreamTimeouts)
        ensures
            t == (StreamTimeouts {
                response_headers: None,
                response_end: None,
                idle: None,
                limit: None,
            }),
    {
        StreamTimeouts { response_headers: None, response_end: None, idle: None, limit: None }
    }
}

/// The end of a stream, and the span that it was derived from.
#[derive(Clone, Copy, Debug, PartialEq, Eq, Structural)]
pub struct StreamLifetime {
    pub deadline: Instant,
    pub lifetime: Duration,
}

impl StreamLifetime {
    pub open spec fn starting(now: Instant, lifetime: Duration) -> StreamLifetime {
        StreamLifetime { deadline: now.later(lifetime), lifetime }
    }

    /// A lifetime that begins at `now`.
    pub fn new(now: Instant, lifetime: Duration) -> (l: StreamLifetime)
        ensures
            l == StreamLifetime::starting(now, lifetime),
    {
        StreamLifetime { deadline: now.after(lifetime), lifetime }
    }
}

/// Why a stream timed out, with the span that was exceeded.
#[derive(Clone, Copy, Debug, PartialEq, Eq, Structural)]
pub enum StreamTimeoutError {
    ResponseHeaders(Duration),
    ResponseStream(Duration),
    Lifetime(Duration),
    Idle(Duration),
}

/// A stack whose services set the deadlines of requests.
#[derive(Clone, Debug)]
pub struct NewSetStreamTimeoutsExtension<N> {
    pub inner: N,
}

/// A service that sets the deadlines of requests.
#[derive(Clone, Debug)]
pub struct SetStreamTimeoutsExtension<S> {
    pub inner: S,
    pub timeouts: Timeouts,
}

impl<N> NewSetStreamTimeoutsExtension<N> {
    pub fn new_service<S>(&self, timeouts: Timeouts, inner: S) -> (s: SetStreamTimeoutsExtension<S>)
        ensures
            s.inner == inner,
            s.timeouts == timeouts,
    {
        SetStreamTimeoutsExtension { inner, timeouts }
    }
}

impl<S> SetStreamTimeoutsExtension<S> {
    /// The deadlines of a request that begins at `now`.
    pub fn stream_timeouts(&self, now: Instant) -> (t: StreamTimeouts)
        ensures
            t == (StreamTimeouts {
                response_headers: self.timeouts.response,
                response_end: self.timeouts.response,
                idle: self.timeouts.idle,
                limit: match self.timeouts.request {
                    Some(lifetime) => Some(StreamLifetime::starting(now, lifetime)),
                    None => None,
                },
            }),
            t.limit is Some <==> self.timeouts.request is Some,
            self.timeouts.request matches Some(span) ==> t.limit->0.deadline == now.later(span)
                && t.limit->0.lifetime == span,
    {
        let limit = match self.timeouts.request {
            Some(lifetime) => Some(StreamLifetime::new(now, lifetime)),
            None => None,
        };
        StreamTimeouts {
            response_headers: self.timeouts.response,
            response_end: self.timeouts.response,
            idle: self.timeouts.idle,
            limit,
        }
    }
}

/// A service that enforces the deadlines of requests.
#[derive(Clone, Debug)]
pub struct EnforceTimeouts<S> {
    pub inner: S,
}

/// The timer of an idle stream. The time of the latest progress is shared by the request and the
/// response of the stream, so it is kept apart.
#[derive(Clone, Copy, Debug, PartialEq, Eq, Structural)]
pub struct Idle {
    pub sleep_until: Instant,
    pub timeout: Duration,
}

impl Idle {
    /// Notes progress at `now`.
    pub fn reset(&mut self, last_update: &mut Instant, now: Instant)
        ensures
            *final(self) == (Idle {
                sleep_until: now.later(old(self).timeout),
                timeout: old(self).timeout,
            }),
            *final(last_update) == now,
    {
        self.sleep_until = now.after(self.timeout);
        *last_update = now;
    }

    /// Whether the timer has run out at `now` and there was no progress for the whole span.
    pub open spec fn expired(self, last_update: Instant, now: Instant) -> bool {
        &&& self.sleep_until.nanos <= now.nanos
        &&& last_update.later(self.timeout).nanos <= now.nanos
    }

    /// The timer after a check at `now`: if it ran out but there was progress since it was set, it
    /// is set anew.
    pub open spec fn checked(self, last_update: Instant, now: Instant) -> Idle {
        if self.sleep_until.nanos <= now.nanos && !self.expired(last_update, now) {
            Idle { sleep_until: last_update.later(self.timeout), timeout: self.timeout }
        } else {
            self
        }
    }

    /// Checks the timer.
    pub fn poll_idle(&mut self, last_update: Instant, now: Instant) -> (r: Option<
        StreamTimeoutError,
    >)
        ensures
            r == if old(self).expired(last_update, now) {
                Some(StreamTimeoutError::Idle(old(self).timeout))
            } else {
                None
            },
            *final(self) == old(self).checked(last_update, now),
    {
        if self.sleep_until.nanos > now.nanos {
            return None;
        }
        let expiry = last_update.after(self.timeout);
        if expiry.nanos <= now.nanos {
            return Some(StreamTimeoutError::Idle(self.timeout));
        }
        self.sleep_until = expiry;
        None
    }
}

/// The deadline of one half of a stream, and the error that exceeding it stands for.
#[derive(Clone, Copy, Debug)]
pub struct Deadline {
    pub at: Option<Instant>,
    pub error: Option<StreamTimeoutError>,
}

impl Deadline {
    /// There is an error exactly if there is a deadline.
    pub open spec fn wf(self) -> bool {
        self.at is Some <==> self.error is Some
    }

    /// The deadline that a limit on the whole stream sets.
    pub open spec fn of_limit(limit: Option<StreamLifetime>) -> Deadline {
        match limit {
            Some(l) => Deadline {
                at: Some(l.deadline),
                error: Some(StreamTimeoutError::Lifetime(l.lifetime)),
            },
            None => Deadline { at: None, error: None },
        }
    }

    pub fn from_limit(limit: Option<StreamLifetime>) -> (d: Deadline)
        ensures
            d == Deadline::of_limit(limit),
            d.wf(),
    {
        match limit {
            Some(l) => Deadline {
                at: Some(l.deadline),
                error: Some(StreamTimeoutError::Lifetime(l.lifetime)),
            },
            None => Deadline { at: None, error: None },
        }
    }

    pub open spec fn passed(self, now: Instant) -> bool {
        self.at is Some && self.at->0.nanos <= now.nanos
    }

    /// The earlier of this deadline and another. Of two at the same time this one stays.
    pub open spec fn or_sooner(self, at: Instant, error: StreamTimeoutError) -> Deadline {
        if self.at is Some && self.at->0.nanos <= at.nanos {
            self
        } else {
            Deadline { at: Some(at), error: Some(error) }
        }
    }

    pub fn sooner(self, at: Instant, error: StreamTimeoutError) -> (d: Deadline)
        requires
            self.wf(),
        ensures
            d == self.or_sooner(at, error),
            d.wf(),
    {
        match self.at {
            Some(deadline) => if at.nanos < deadline.nanos {
                Deadline { at: Some(at), error: Some(error) }
            } else {
                self
            },
            None => Deadline { at: Some(at), error: Some(error) },
        }
    }
}

/// The body of a request or a response.
#[derive(Clone, Copy, Debug)]
pub struct StreamBody {
    pub deadline: Deadline,
    pub idle: Option<Idle>,
    /// For a request, whether its end is still to be reported.
    pub flush_pending: bool,
}

/// What comes of polling a body.
#[derive(Clone, Copy, Debug)]
pub enum BodyPoll {
    /// Hand on what the inner body gave. If `flushed`, report that the request has ended.
    Ready { flushed: bool },
    TimedOut(StreamTimeoutError),
    Pending,
}

/// What comes of polling for a timeout: the deadline comes first, then the timer.
pub open spec fn body_timeout(
    body: StreamBody,
    last_update: Instant,
    now: Instant,
) -> Option<StreamTimeoutError> {
    if body.deadline.passed(now) {
        body.deadline.error
    } else if body.idle is Some && body.idle->0.expired(last_update, now) {
        Some(StreamTimeoutError::Idle(body.idle->0.timeout))
    } else {
        None
    }
}

/// The body after it was polled for a timeout. A deadline that has passed is gone, and the timer
/// is looked at only where the deadline has not passed.
pub open spec fn timeout_checked(body: StreamBody, last_update: Instant, now: Instant) -> StreamBody {
    if body.deadline.passed(now) {
        StreamBody { deadline: Deadline { at: None, error: None }, ..body }
    } else {
        StreamBody {
            idle: match body.idle {
                Some(idle) => Some(idle.checked(last_update, now)),
                None => None,
            },
            ..body
        }
    }
}

/// The timer of a body after progress at `now`.
pub open spec fn progressed(idle: Option<Idle>, now: Instant) -> Option<Idle> {
    match idle {
        Some(idle) => Some(Idle { sleep_until: now.later(idle.timeout), timeout: idle.timeout }),
        None => None,
    }
}

impl StreamBody {
    pub open spec fn wf(self) -> bool {
        self.deadline.wf()
    }

    /// Checks the deadline, then the timer. A deadline that has passed is reported once.
    pub fn poll_body_timeout(&mut self, last_update: Instant, now: Instant) -> (r: Option<
        StreamTimeoutError,
    >)
        requires
            old(self).wf(),
        ensures
            final(self).wf(),
            r == body_timeout(*old(self), last_update, now),
            *final(self) == timeout_checked(*old(self), last_update, now),
    {
        if let Some(d) = self.deadline.at {
            if d.nanos <= now.nanos {
                let error = self.deadline.error;
                self.deadline = Deadline { at: None, error: None };
                return error;
            }
        }
        if let Some(idle) = &mut self.idle {
            return idle.poll_idle(last_update, now);
        }
        None
    }

    fn progress(&mut self, last_update: &mut Instant, now: Instant)
        ensures
            final(self).deadline == old(self).deadline,
            final(self).flush_pending == old(self).flush_pending,
            final(self).idle == progressed(old(self).idle, now),
            *final(last_update) == if old(self).idle is Some {
                now
            } else {
                *old(last_update)
            },
    {
        if let Some(idle) = &mut self.idle {
            idle.reset(last_update, now);
        }
    }

    /// Polls for data. `ready` says whether the inner body has some, or has ended or failed.
    pub fn poll_data(&mut self, ready: bool, last_update: &mut Instant, now: Instant) -> (r:
        BodyPoll)
        requires
            old(self).wf(),
        ensures
            final(self).wf(),
            r == if ready {
                BodyPoll::Ready { flushed: false }
            } else {
                match body_timeout(*old(self), *old(last_update), now) {
                    Some(e) => BodyPoll::TimedOut(e),
                    None => BodyPoll::Pending,
                }
            },
            *final(self) == if ready {
                StreamBody { idle: progressed(old(self).idle, now), ..*old(self) }
            } else {
                timeout_checked(*old(self), *old(last_update), now)
            },
            *final(last_update) == if ready && old(self).idle is Some {
                now
            } else {
                *old(last_update)
            },
            r is Ready <==> ready,
            r is Pending ==> (old(self).deadline.at matches Some(at) ==> now.nanos < at.nanos),
            old(self).deadline.at matches Some(at) ==> (!ready && at.nanos <= now.nanos ==> r
                is TimedOut),
    {
        if ready {
            self.progress(last_update, now);
            return BodyPoll::Ready { flushed: false };
        }
        match self.poll_body_timeout(*last_update, now) {
            Some(e) => BodyPoll::TimedOut(e),
            None => BodyPoll::Pending,
        }
    }

    /// Polls for trailers, which end the body. The end of a request is reported once.
    pub fn poll_trailers(&mut self, ready: bool, last_update: &mut Instant, now: Instant) -> (r:
        BodyPoll)
        requires
            old(self).wf(),
        ensures
            final(self).wf(),
            r == if ready {
                BodyPoll::Ready { flushed: old(self).flush_pending }
            } else {
                match body_timeout(*old(self), *old(last_update), now) {
                    Some(e) => BodyPoll::TimedOut(e),
                    None => BodyPoll::Pending,
                }
            },
            *final(self) == if ready {
                StreamBody {
                    idle: progressed(old(self).idle, now),
                    flush_pending: false,
                    ..*old(self)
                }
            } else {
                timeout_checked(*old(self), *old(last_update), now)
            },
            *final(last_update) == if ready && old(self).idle is Some {
                now
            } else {
                *old(last_update)
            },
            r is Ready <==> ready,
            ready ==> !final(self).flush_pending && (r->flushed <==> old(self).flush_pending),
            r is Pending ==> (old(self).deadline.at matches Some(at) ==> now.nanos < at.nanos),
            old(self).deadline.at matches Some(at) ==> (!ready && at.nanos <= now.nanos ==> r
                is TimedOut),
    {
        if ready {
            self.progress(last_update, now);
            let flushed = self.flush_pending;
            self.flush_pending = false;
            return BodyPoll::Ready { flushed };
        }
        match self.poll_body_timeout(*last_update, now) {
            Some(e) => BodyPoll::TimedOut(e),
            None => BodyPoll::Pending,
        }
    }
}

/// What is known of the end of the request.
#[derive(Clone, Copy, Debug)]
pub enum Flush {
    Pending,
    At(Instant),
    /// The request was dropped before its end.
    Dropped,
}

/// A response that is waited for.
#[derive(Clone, Copy, Debug)]
pub struct ResponseFuture {
    pub deadline: Deadline,
    pub flush_pending: bool,
    pub request_flushed_at: Option<Instant>,
    pub idle: Option<Duration>,
    pub timeouts: StreamTimeouts,
}

/// What comes of polling for a response.
#[derive(Debug)]
pub enum ResponsePoll<R, E> {
    Pending,
    Ready(R, StreamBody),
    Failed(E),
    TimedOut(StreamTimeoutError),
}

/// The deadline of a response body: the earlier of the end that counts from `start` and the end of
/// the stream as a whole, which wins when both are at the same time.
pub open spec fn body_deadline(timeouts: StreamTimeouts, start: Instant) -> Deadline {
    let limit = Deadline::of_limit(timeouts.limit);
    match timeouts.response_end {
        Some(eos) => limit.or_sooner(start.later(eos), StreamTimeoutError::ResponseStream(eos)),
        None => limit,
    }
}

impl<S> EnforceTimeouts<S> {
    /// The request body and the awaited response of a request with the given deadlines, none if it
    /// has none. An idle stream is timed from `now`.
    pub fn call(&self, timeouts: Option<StreamTimeouts>, now: Instant) -> (r: (
        StreamBody,
        ResponseFuture,
    ))
        ensures
            ({
                let t = match timeouts {
                    Some(t) => t,
                    None => StreamTimeouts {
                        response_headers: None,
                        response_end: None,
                        idle: None,
                        limit: None,
                    },
                };
                &&& r.0 == (StreamBody {
                    deadline: Deadline::of_limit(t.limit),
                    idle: match t.idle {
                        Some(timeout) => Some(
                            Idle { sleep_until: now.later(timeout), timeout },
                        ),
                        None => None,
                    },
                    flush_pending: true,
                })
                &&& r.1 == (ResponseFuture {
                    deadline: Deadline::of_limit(t.limit),
                    flush_pending: true,
                    request_flushed_at: None,
                    idle: t.idle,
                    timeouts: t,
                })
            }),
            r.0.wf(),
            r.1.wf(),
            timeouts is None ==> r.0.deadline.at is None && r.0.idle is None && r.1.deadline.at
                is None,
            timeouts matches Some(t) ==> {
                &&& r.0.deadline.at is Some <==> t.limit is Some
                &&& r.1.deadline.at is Some <==> t.limit is Some
                &&& t.limit matches Some(l) ==> r.0.deadline.at == Some(l.deadline)
                    && r.1.deadline.at == Some(l.deadline)
                &&& r.0.idle is Some <==> t.idle is Some
                &&& t.idle matches Some(span) ==> r.0.idle->0.sleep_until == now.later(span)
            },
    {
        let timeouts = match timeouts {
            Some(t) => t,
            None => StreamTimeouts::default(),
        };
        let idle = match timeouts.idle {
            Some(timeout) => Some(Idle { sleep_until: now.after(timeout), timeout }),
            None => None,
        };
        let deadline = Deadline::from_limit(timeouts.limit);
        (
            StreamBody { deadline, idle, flush_pending: true },
            ResponseFuture {
                deadline,
                flush_pending: true,
                request_flushed_at: None,
                idle: timeouts.idle,
                timeouts,
            },
        )
    }
}

impl ResponseFuture {
    pub open spec fn wf(self) -> bool {
        self.deadline.wf()
    }

    /// Once the request has ended, the head of the response is due within its own span. That takes
    /// effect if it is earlier than the deadline in force.
    pub open spec fn flushed(self, flush: Flush) -> ResponseFuture {
        match flush {
            Flush::At(at) if self.flush_pending => ResponseFuture {
                flush_pending: false,
                request_flushed_at: Some(at),
                deadline: match self.timeouts.response_headers {
                    Some(t) => self.deadline.or_sooner(
                        at.later(t),
                        StreamTimeoutError::ResponseHeaders(t),
                    ),
                    None => self.deadline,
                },
                ..self
            },
            Flush::Dropped if self.flush_pending => ResponseFuture {
                flush_pending: false,
                ..self
            },
            _ => self,
        }
    }

    /// Polls for the response. `inner` is what the inner service gave, if anything.
    pub fn poll<R, E>(&mut self, flush: Flush, inner: Option<Result<R, E>>, now: Instant) -> (r:
        ResponsePoll<R, E>)
        requires
            old(self).wf(),
        ensures
            final(self).wf(),
            ({
                let f = old(self).flushed(flush);
                &&& match inner {
                    Some(Ok(rsp)) => r == ResponsePoll::<R, E>::Ready(
                        rsp,
                        StreamBody {
                            deadline: body_deadline(
                                f.timeouts,
                                match f.request_flushed_at {
                                    Some(at) => at,
                                    None => now,
                                },
                            ),
                            idle: match f.idle {
                                Some(timeout) => Some(
                                    Idle { sleep_until: now.later(timeout), timeout },
                                ),
                                None => None,
                            },
                            flush_pending: false,
                        },
                    ),
                    Some(Err(e)) => r == ResponsePoll::<R, E>::Failed(e),
                    None => if f.deadline.passed(now) {
                        r == ResponsePoll::<R, E>::TimedOut(f.deadline.error->0)
                    } else {
                        r == ResponsePoll::<R, E>::Pending
                    },
                }
                &&& *final(self) == if inner matches Some(Ok(_)) {
                    ResponseFuture { idle: None, ..f }
                } else {
                    f
                }
            }),
            inner matches Some(Ok(_)) ==> {
                let start = if flush is At && old(self).flush_pending {
                    flush->At_0
                } else if old(self).request_flushed_at is Some {
                    old(self).request_flushed_at->0
                } else {
                    now
                };
                let timeouts = old(self).timeouts;
                &&& r is Ready
                &&& timeouts.response_end matches Some(span) ==> r->Ready_1.deadline.at is Some
                    && r->Ready_1.deadline.at->0.nanos <= start.later(span).nanos
                &&& timeouts.limit matches Some(l) ==> r->Ready_1.deadline.at is Some
                    && r->Ready_1.deadline.at->0.nanos <= l.deadline.nanos
                &&& r->Ready_1.deadline.at matches Some(at) ==> {
                    ||| timeouts.response_end matches Some(span) && at == start.later(span)
                    ||| timeouts.limit matches Some(l) && at == l.deadline
                }
                &&& r->Ready_1.idle is Some <==> old(self).idle is Some
                &&& old(self).idle matches Some(span) ==> r->Ready_1.idle->0.sleep_until
                    == now.later(span)
            },
            inner is None && r is Pending ==> (old(self).deadline.at matches Some(at) ==> now.nanos
                < at.nanos),
            inner is None && r is Pending && flush is At && old(self).flush_pending ==> (
            old(self).timeouts.response_headers matches Some(span) ==> now.nanos < flush->At_0.later(
                span,
            ).nanos),
    {
        if self.flush_pending {
            match flush {
                Flush::At(at) => {
                    self.flush_pending = false;
                    self.request_flushed_at = Some(at);
                    if let Some(timeout) = self.timeouts.response_headers {
                        let headers_by = at.after(timeout);
                        self.deadline =
                        self.deadline.sooner(
                            headers_by,
                            StreamTimeoutError::ResponseHeaders(timeout),
                        );
                    }
                },
                Flush::Dropped => {
                    self.flush_pending = false;
                },
                Flush::Pending => {},
            }
        }
        let rsp = match inner {
            Some(Ok(rsp)) => rsp,
            Some(Err(e)) => {
                return ResponsePoll::Failed(e);
            },
            None => {
                if let Some(deadline) = self.deadline.at {
                    if deadline.nanos <= now.nanos {
                        if let Some(error) = self.deadline.error {
                            return ResponsePoll::TimedOut(error);
                        }
                    }
                }
                return ResponsePoll::Pending;
            },
        };
        let start = match self.request_flushed_at {
            Some(at) => at,
            None => now,
        };
        let limit = Deadline::from_limit(self.timeouts.limit);
        let deadline = match self.timeouts.response_end {
            Some(eos) => limit.sooner(start.after(eos), StreamTimeoutError::ResponseStream(eos)),
            None => limit,
        };
        let idle = match self.idle {
            Some(timeout) => Some(Idle { sleep_until: now.after(timeout), timeout }),
            None => None,
        };
        self.idle = None;
        ResponsePoll::Ready(rsp, StreamBody { deadline, idle, flush_pending: false })
    }
}

/// The limit on the whole stream is never extended: however the request ends, no response and no
/// response body outlives it.
pub proof fn lifetime_is_never_extended(
    timeouts: StreamTimeouts,
    start: Instant,
    f: ResponseFuture,
    flush: Flush,
)
    requires
        timeouts.limit is Some,
        f.wf(),
        f.deadline.at is Some,
    ensures
        body_deadline(timeouts, start).at is Some,
        body_deadline(timeouts, start).at->0.nanos <= timeouts.limit->0.deadline.nanos,
        f.flushed(flush).deadline.at is Some,
        f.flushed(flush).deadline.at->0.nanos <= f.deadline.at->0.nanos,
{
}

/// A stream that makes progress more often than its idle span never times out for idleness.
pub proof fn progress_keeps_stream_alive(idle: Idle, last_update: Instant, now: Instant)
    requires
        now.nanos < last_update.later(idle.timeout).nanos,
    ensures
        !idle.expired(last_update, now),
{
}

/// The end of a request is reported at most once: after it was reported there is nothing pending.
pub proof fn flush_is_seen_once(f: ResponseFuture, first: Flush, second: Flush)
    requires
        !(first is Pending),
    ensures
        f.flushed(first).flushed(second) == f.flushed(first),
{
}

/// A response body ends in time for both of the deadlines that may be set for it: that which
/// counts from `start` and that of the whole stream. It is given no less time than the earlier of
/// the two, and the error names the one that it is held to, with its span.
pub proof fn body_is_held_to_both_deadlines(timeouts: StreamTimeouts, start: Instant)
    ensures
        ({
            let d = body_deadline(timeouts, start);
            &&& d.wf()
            &&& d.at is None <==> timeouts.response_end is None && timeouts.limit is None
            &&& timeouts.response_end matches Some(span) ==> d.at->0.nanos <= start.later(span).nanos
            &&& timeouts.limit matches Some(l) ==> d.at->0.nanos <= l.deadline.nanos
            &&& d.at is Some ==> {
                ||| timeouts.response_end matches Some(span) && d.at == Some(start.later(span))
                    && d.error == Some(StreamTimeoutError::ResponseStream(span))
                ||| timeouts.limit matches Some(l) && d.at == Some(l.deadline) && d.error == Some(
                    StreamTimeoutError::Lifetime(l.lifetime),
                )
            }
            &&& timeouts.limit matches Some(l) ==> (timeouts.response_end matches Some(span) ==> (
            l.deadline == start.later(span) ==> d.error == Some(
                StreamTimeoutError::Lifetime(l.lifetime),
            )))
        }),
{
}

/// Once a request has ended, the head of its response is due within the span for it, and no later
/// than it was due before. The error names the deadline that holds.
pub proof fn head_is_held_to_both_deadlines(f: ResponseFuture, at: Instant)
    requires
        f.wf(),
        f.flush_pending,
    ensures
        ({
            let after = f.flushed(Flush::At(at));
            let d = after.deadline;
            &&& after.request_flushed_at == Some(at)
            &&& !after.flush_pending
            &&& after.idle == f.idle
            &&& after.timeouts == f.timeouts
            &&& d.wf()
            &&& f.timeouts.response_headers is None ==> d == f.deadline
            &&& f.timeouts.response_headers matches Some(span) ==> d.at is Some && d.at->0.nanos
                <= at.later(span).nanos
            &&& f.deadline.at matches Some(due) ==> d.at is Some && d.at->0.nanos <= due.nanos
            &&& d.at is Some ==> d == f.deadline || (f.timeouts.response_headers matches Some(span)
                && d.at == Some(at.later(span)) && d.error == Some(
                StreamTimeoutError::ResponseHeaders(span),
            ))
        }),
        f.flushed(Flush::Dropped).deadline == f.deadline,
        f.flushed(Flush::Dropped).request_flushed_at == f.request_flushed_at,
        f.flushed(Flush::Pending) == f,
{
}

/// A deadline has passed from its own moment on, never before, and not at all if there is none.
pub proof fn deadlines_pass_at_their_moment(at: Instant, error: Option<StreamTimeoutError>, now: Instant)
    ensures
        (Deadline { at: Some(at), error }).passed(now) <==> now.nanos >= at.nanos,
        !(Deadline { at: None, error }).passed(now),
{
}

/// A stream without progress for the whole of its idle span times out once its timer has run out;
/// a timer that runs out early is set to the end of the span, and any other is left alone.
pub proof fn idle_streams_time_out(idle: Idle, last_update: Instant, now: Instant)
    ensures
        idle.sleep_until.nanos <= now.nanos && last_update.later(idle.timeout).nanos <= now.nanos
            ==> idle.expired(last_update, now) && idle.checked(last_update, now) == idle,
        idle.sleep_until.nanos > now.nanos ==> !idle.expired(last_update, now) && idle.checked(
            last_update,
            now,
        ) == idle,
        last_update.later(idle.timeout).nanos > now.nanos ==> !idle.expired(last_update, now),
        idle.sleep_until.nanos <= now.nanos && last_update.later(idle.timeout).nanos > now.nanos
            ==> idle.checked(last_update, now).sleep_until == last_update.later(idle.timeout),
        idle.checked(last_update, now).timeout == idle.timeout,
        progressed(Some(idle), now) matches Some(next) && next.sleep_until == now.later(idle.timeout)
            && next.timeout == idle.timeout,
        progressed(None, now) is None,
{
}

/// A body times out exactly if its deadline has passed or it was idle for too long. If both hold,
/// the deadline is what is reported. It is reported once: at the next poll it is gone, and the
/// timer is left to what it was.
pub proof fn deadline_comes_before_idleness(body: StreamBody, last_update: Instant, now: Instant)
    requires
        body.wf(),
    ensures
        body.deadline.at matches Some(at) ==> (at.nanos <= now.nanos ==> body_timeout(
            body,
            last_update,
            now,
        ) == body.deadline.error && timeout_checked(body, last_update, now).deadline.at is None
            && timeout_checked(body, last_update, now).idle == body.idle),
        (body.deadline.at matches Some(at) ==> now.nanos < at.nanos) ==> {
            &&& timeout_checked(body, last_update, now).deadline == body.deadline
            &&& body.idle matches Some(idle) ==> (idle.sleep_until.nanos <= now.nanos
                && last_update.later(idle.timeout).nanos <= now.nanos ==> body_timeout(
                body,
                last_update,
                now,
            ) == Some(StreamTimeoutError::Idle(idle.timeout)))
            &&& (body.idle matches Some(idle) ==> idle.sleep_until.nanos > now.nanos
                || last_update.later(idle.timeout).nanos > now.nanos) ==> body_timeout(
                body,
                last_update,
                now,
            ) is None
        },
        timeout_checked(body, last_update, now).flush_pending == body.flush_pending,
{
}

/// A limit on the stream sets a deadline at its end, which counts from its start.
pub proof fn limits_set_deadlines(now: Instant, lifetime: Duration)
    ensures
        Deadline::of_limit(None).at is None,
        Deadline::of_limit(None).error is None,
        Deadline::of_limit(Some(StreamLifetime::starting(now, lifetime))).at == Some(
            now.later(lifetime),
        ),
        Deadline::of_limit(Some(StreamLifetime::starting(now, lifetime))).error == Some(
            StreamTimeoutError::Lifetime(lifetime),
        ),
{
}

} // verus!
