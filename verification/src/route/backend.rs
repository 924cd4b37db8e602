//! Counting the requests that reach a backend of a route, and following changes of routes.

use vstd::prelude::*;

verus! {

/// The number of requests so far. All services that are built for the same labels, and all copies
/// of them, count into the same number, so it is kept apart from them and cannot be copied.
#[derive(Debug, PartialEq, Eq, Structural)]
pub struct RequestCount(pub u64);

/// A stack whose services count requests, each into the number that `extract` gives for it.
#[derive(Clone, Debug)]
pub struct NewCountRequests<X, N> {
    pub inner: N,
    pub extract: X,
}

/// A service that counts requests.
#[derive(Clone, Debug)]
pub struct CountRequests<S> {
    pub inner: S,
}

impl<X, N> NewCountRequests<X, N> {
    pub fn new(extract: X, inner: N) -> (s: NewCountRequests<X, N>)
        ensures
            s.extract == extract,
            s.inner == inner,
    {
        NewCountRequests { extract, inner }
    }

    pub fn new_service<S>(&self, inner: S) -> (s: CountRequests<S>)
        ensures
            s.inner == inner,
    {
        CountRequests { inner }
    }
}

impl<S> CountRequests<S> {
    /// Counts a request into the number of the service. It starts over behind its largest value.
    pub fn call(&self, requests: &mut RequestCount)
        ensures
            final(requests).0 == if old(requests).0 == u64::MAX {
                0
            } else {
                old(requests).0 + 1
            },
    {
        *requests = RequestCount(requests.0.wrapping_add(1));
    }
}

/// What the durations of requests are recorded under.
#[derive(Debug)]
pub struct RecordParams<T, M> {
    pub labeler: T,
    pub metric: M,
}

/// Gives the metric that durations are recorded in.
#[derive(Clone, Debug)]
pub struct ExtractRecordDurationParams<M>(pub M);

impl<M> ExtractRecordDurationParams<M> {
    pub fn extract_param<T>(self, target: T) -> (p: RecordParams<T, M>)
        ensures
            p.labeler == target,
            p.metric == self.0,
    {
        RecordParams { labeler: target, metric: self.0 }
    }
}

/// What happens to routes that are made from something that changes.
#[derive(Debug)]
pub enum RouteEvent<R> {
    /// Nobody uses the routes any more.
    Unused,
    /// The source changed, and these routes were made of it, if any could be.
    Changed(Option<R>),
    /// The source changes no more.
    SourceClosed,
}

/// What is done about it.
#[derive(Debug)]
pub enum RouteAction<R> {
    Send(R),
    /// Stay with the routes as they are.
    Keep,
    Stop,
}

/// Decides how routes follow their source. A change of which no routes can be made leaves the
/// former routes in force.
pub fn follow_routes<R>(event: RouteEvent<R>) -> (a: RouteAction<R>)
    ensures
        match event {
            RouteEvent::Changed(Some(routes)) => a == RouteAction::Send(routes),
            RouteEvent::Changed(None) => a is Keep,
            RouteEvent::Unused => a is Stop,
            RouteEvent::SourceClosed => a is Stop,
        },
{
    match event {
        RouteEvent::Changed(Some(routes)) => RouteAction::Send(routes),
        RouteEvent::Changed(None) => RouteAction::Keep,
        RouteEvent::Unused => RouteAction::Stop,
        RouteEvent::SourceClosed => RouteAction::Stop,
    }
}

} // verus!
