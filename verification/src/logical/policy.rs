//! Routing by policy: turning the routes and backends of a policy into a table of concrete
//! backends.

use crate::addr::{Addr, NameAddr};
use crate::client_policy::FailureAccrual;
use crate::logical::NoRoute;
use crate::target::{
    Backend, Concrete, Dispatch, EwmaConfig, KnownEndpoint, Meta, RetryAfterConfig,
};
use crate::time::Duration;
use std::sync::Arc;
use vstd::prelude::*;

verus! {

/// How a policy says that requests get to a backend.
#[derive(Debug)]
pub enum BackendDispatcher {
    /// Balanced by power-of-two choices over the endpoints that discovery has for `path`.
    BalanceP2c { ewma: EwmaConfig, path: NameAddr },
    /// To a single endpoint.
    Forward(KnownEndpoint),
    Fail { message: Arc<String> },
}

/// The queue in front of a backend.
#[derive(Clone, Copy, Debug, PartialEq, Eq, Hash, Structural)]
pub struct Queue {
    pub capacity: usize,
    pub failfast_timeout: Duration,
}

/// A backend of a policy.
#[derive(Debug)]
pub struct PolicyBackend {
    pub meta: Arc<Meta>,
    pub queue: Queue,
    pub dispatcher: BackendDispatcher,
}

/// A backend of a route, with its own filters.
#[derive(Debug)]
pub struct PolicyRouteBackend<F> {
    pub filters: Arc<Vec<F>>,
    pub backend: PolicyBackend,
}

/// How a route chooses among its backends.
#[derive(Debug)]
pub enum PolicyDistribution<F> {
    Empty,
    FirstAvailable(Vec<PolicyRouteBackend<F>>),
    /// At random, with weights.
    RandomAvailable(Vec<(PolicyRouteBackend<F>, u32)>),
}

/// What a policy says of the requests that match a rule.
#[derive(Debug)]
pub struct RoutePolicy<F, P> {
    pub meta: Arc<Meta>,
    pub filters: Arc<Vec<F>>,
    pub params: Arc<P>,
    pub distribution: PolicyDistribution<F>,
}

/// The requests that match, and what is done with them.
#[derive(Debug)]
pub struct Rule<M, X> {
    pub matches: Arc<Vec<M>>,
    pub policy: X,
}

/// The rules of the hosts that match.
#[derive(Debug)]
pub struct RouteTable<M, X> {
    pub hosts: Arc<Vec<String>>,
    pub rules: Vec<Rule<M, X>>,
}

/// The routes and backends of a policy.
#[derive(Debug)]
pub struct Params<M, F, P> {
    pub addr: Addr,
    pub meta: Arc<Meta>,
    pub routes: Arc<Vec<RouteTable<M, RoutePolicy<F, P>>>>,
    pub backends: Arc<Vec<PolicyBackend>>,
    pub failure_accrual: Option<FailureAccrual>,
    pub retry_after: Option<RetryAfterConfig>,
}

/// A concrete backend of a route.
#[derive(Debug)]
pub struct RouteBackend<T, F> {
    pub route_ref: Arc<Meta>,
    pub filters: Arc<Vec<F>>,
    pub concrete: Concrete<T>,
}

/// How a route chooses among its concrete backends.
#[derive(Debug)]
pub enum Distribution<T, F> {
    Empty,
    FirstAvailable(Vec<RouteBackend<T, F>>),
    RandomAvailable(Vec<(RouteBackend<T, F>, u32)>),
}

/// What is done with the requests that match a rule.
#[derive(Debug)]
pub struct Route<T, F, P> {
    pub parent: Arc<T>,
    pub addr: Addr,
    pub parent_ref: Arc<Meta>,
    pub route_ref: Arc<Meta>,
    pub filters: Arc<Vec<F>>,
    pub distribution: Distribution<T, F>,
    pub params: Arc<P>,
}

/// Routes over concrete backends.
#[derive(Debug)]
pub struct Router<T, M, F, P> {
    pub parent: Arc<T>,
    pub addr: Addr,
    pub routes: Vec<RouteTable<M, Route<T, F, P>>>,
    pub backends: Vec<Concrete<T>>,
}

impl PolicyBackend {
    pub fn copy(&self) -> (r: PolicyBackend)
        ensures
            r == *self,
    {
        let dispatcher = match &self.dispatcher {
            BackendDispatcher::BalanceP2c { ewma, path } => BackendDispatcher::BalanceP2c {
                ewma: *ewma,
                path: path.copy(),
            },
            BackendDispatcher::Forward(endpoint) => BackendDispatcher::Forward(endpoint.copy()),
            BackendDispatcher::Fail { message } => BackendDispatcher::Fail {
                message: message.clone(),
            },
        };
        PolicyBackend { meta: self.meta.clone(), queue: self.queue, dispatcher }
    }
}

impl BackendDispatcher {
    /// An endpoint has a port.
    pub open spec fn valid(self) -> bool {
        self matches BackendDispatcher::Forward(endpoint) ==> endpoint.addr.port != 0
    }
}

impl<F> PolicyDistribution<F> {
    /// The backends are valid, and a random choice has something to choose from.
    pub open spec fn valid(self) -> bool {
        match self {
            PolicyDistribution::Empty => true,
            PolicyDistribution::FirstAvailable(backends) => forall|i: int|
                0 <= i < backends@.len() ==> (
                #[trigger] backends@[i]).backend.dispatcher.valid(),
            PolicyDistribution::RandomAvailable(backends) => {
                &&& forall|i: int|
                    0 <= i < backends@.len() ==> (
                    #[trigger] backends@[i]).0.backend.dispatcher.valid()
                &&& exists|i: int| 0 <= i < backends@.len() && (#[trigger] backends@[i]).1 > 0
            },
        }
    }
}

impl<M, F, P> RouteTable<M, RoutePolicy<F, P>> {
    pub open spec fn valid(self) -> bool {
        forall|j: int|
            0 <= j < self.rules@.len() ==> (#[trigger] self.rules@[j]).policy.distribution.valid()
    }
}

impl<M, F, P> Params<M, F, P> {
    pub open spec fn valid(self) -> bool {
        &&& forall|i: int| 0 <= i < self.routes@.len() ==> (#[trigger] self.routes@[i]).valid()
        &&& forall|i: int|
            0 <= i < self.backends@.len() ==> (#[trigger] self.backends@[i]).dispatcher.valid()
    }

    pub fn addr(&self) -> (a: &Addr)
        ensures
            *a == self.addr,
    {
        &self.addr
    }
}

/// What all concrete backends of a policy have in common.
#[derive(Debug)]
pub struct Common<T> {
    pub parent: Arc<T>,
    pub addr: Addr,
    pub parent_ref: Arc<Meta>,
    pub failure_accrual: Option<FailureAccrual>,
    pub retry_after: Option<RetryAfterConfig>,
}

impl<T> Common<T> {
    /// Whether a concrete backend is the one for a backend of the policy. Requests to a balancer
    /// carry the name that is balanced over as their authority.
    pub open spec fn concrete(self, c: Concrete<T>, b: PolicyBackend) -> bool {
        &&& c.backend.parent == self.parent
        &&& c.backend.parent_ref == self.parent_ref
        &&& c.failure_accrual == self.failure_accrual
        &&& c.retry_after == self.retry_after
        &&& match b.dispatcher {
            BackendDispatcher::BalanceP2c { ewma, path } => {
                &&& c.backend.target == Dispatch::Balance(path, ewma)
                &&& c.backend.authority == Some(path)
                &&& c.backend.backend_ref == b.meta
            },
            BackendDispatcher::Forward(endpoint) => {
                &&& c.backend.target == Dispatch::Forward(endpoint.addr, endpoint.metadata)
                &&& c.backend.authority is None
                &&& c.backend.backend_ref == endpoint.endpoint_ref
            },
            BackendDispatcher::Fail { message } => {
                &&& c.backend.target == Dispatch::Fail { message }
                &&& c.backend.authority is None
                &&& c.backend.backend_ref.is_default("fail"@)
            },
        }
    }

    /// Whether a backend of a route is the one that the policy gives.
    pub open spec fn route_backend<F>(
        self,
        route_ref: Arc<Meta>,
        r: RouteBackend<T, F>,
        b: PolicyRouteBackend<F>,
    ) -> bool {
        &&& r.route_ref == route_ref
        &&& r.filters == b.filters
        &&& self.concrete(r.concrete, b.backend)
    }

    /// Whether a route chooses among its backends as the policy says, in the same order and with
    /// the same weights.
    pub open spec fn distribution<F>(
        self,
        route_ref: Arc<Meta>,
        d: Distribution<T, F>,
        p: PolicyDistribution<F>,
    ) -> bool {
        match p {
            PolicyDistribution::Empty => d is Empty,
            PolicyDistribution::FirstAvailable(bs) => d matches Distribution::FirstAvailable(rs)
                && rs@.len() == bs@.len() && forall|i: int|
                0 <= i < bs@.len() ==> #[trigger] self.route_backend(route_ref, rs@[i], bs@[i]),
            PolicyDistribution::RandomAvailable(bs) => d matches Distribution::RandomAvailable(rs)
                && rs@.len() == bs@.len() && forall|i: int|
                #![trigger rs@[i]]
                0 <= i < bs@.len() ==> self.route_backend(route_ref, rs@[i].0, bs@[i].0)
                    && rs@[i].1 == bs@[i].1,
        }
    }

    /// Whether a rule does what the policy says, for the same requests.
    pub open spec fn rule<M, F, P>(
        self,
        r: Rule<M, Route<T, F, P>>,
        p: Rule<M, RoutePolicy<F, P>>,
    ) -> bool {
        &&& r.matches == p.matches
        &&& r.policy.parent == self.parent
        &&& r.policy.addr == self.addr
        &&& r.policy.parent_ref == self.parent_ref
        &&& r.policy.route_ref == p.policy.meta
        &&& r.policy.filters == p.policy.filters
        &&& r.policy.params == p.policy.params
        &&& self.distribution(p.policy.meta, r.policy.distribution, p.policy.distribution)
    }

    /// Whether a table has the rules that the policy gives, for the same hosts.
    pub open spec fn table<M, F, P>(
        self,
        r: RouteTable<M, Route<T, F, P>>,
        p: RouteTable<M, RoutePolicy<F, P>>,
    ) -> bool {
        &&& r.hosts == p.hosts
        &&& r.rules@.len() == p.rules@.len()
        &&& forall|i: int| 0 <= i < p.rules@.len() ==> #[trigger] self.rule(r.rules@[i], p.rules@[i])
    }

    fn mk_concrete(&self, backend_ref: Arc<Meta>, target: Dispatch) -> (c: Concrete<T>)
        ensures
            c.backend.target == target,
            c.backend.parent == self.parent,
            c.backend.parent_ref == self.parent_ref,
            c.backend.backend_ref == backend_ref,
            c.failure_accrual == self.failure_accrual,
            c.retry_after == self.retry_after,
            c.backend.authority == match target {
                Dispatch::Balance(addr, _) => Some(addr),
                _ => None,
            },
    {
        let authority = match &target {
            Dispatch::Balance(addr, _) => Some(addr.copy()),
            _ => None,
        };
        Concrete {
            backend: Backend {
                target,
                authority,
                parent: self.parent.clone(),
                parent_ref: self.parent_ref.clone(),
                backend_ref,
            },
            failure_accrual: self.failure_accrual,
            retry_after: self.retry_after,
        }
    }

    fn mk_dispatch(&self, b: &PolicyBackend) -> (c: Concrete<T>)
        requires
            b.dispatcher.valid(),
        ensures
            self.concrete(c, *b),
    {
        match &b.dispatcher {
            BackendDispatcher::BalanceP2c { ewma, path } => self.mk_concrete(
                b.meta.clone(),
                Dispatch::Balance(path.copy(), *ewma),
            ),
            BackendDispatcher::Forward(endpoint) => self.mk_concrete(
                endpoint.endpoint_ref.clone(),
                Dispatch::Forward(endpoint.addr, endpoint.metadata.clone()),
            ),
            BackendDispatcher::Fail { message } => self.mk_concrete(
                Meta::new_default("fail"),
                Dispatch::Fail { message: message.clone() },
            ),
        }
    }

    fn mk_route_backend<F>(&self, route_ref: &Arc<Meta>, b: &PolicyRouteBackend<F>) -> (r:
        RouteBackend<T, F>)
        requires
            b.backend.dispatcher.valid(),
        ensures
            self.route_backend(*route_ref, r, *b),
    {
        RouteBackend {
            route_ref: route_ref.clone(),
            filters: b.filters.clone(),
            concrete: self.mk_dispatch(&b.backend),
        }
    }

    fn mk_distribution<F>(&self, route_ref: &Arc<Meta>, p: &PolicyDistribution<F>) -> (d:
        Distribution<T, F>)
        requires
            p.valid(),
        ensures
            self.distribution(*route_ref, d, *p),
    {
        match p {
            PolicyDistribution::Empty => Distribution::Empty,
            PolicyDistribution::FirstAvailable(backends) => {
                let mut out: Vec<RouteBackend<T, F>> = Vec::new();
                let mut i: usize = 0;
                while i < backends.len()
                    invariant
                        i <= backends@.len(),
                        out@.len() == i,
                        p.valid(),
                        *p == PolicyDistribution::FirstAvailable(*backends),
                        forall|j: int|
                            0 <= j < i ==> #[trigger] self.route_backend(
                                *route_ref,
                                out@[j],
                                backends@[j],
                            ),
                    decreases backends@.len() - i,
                {
                    proof {
                        assert(backends@[i as int].backend.dispatcher.valid());
                    }
                    out.push(self.mk_route_backend(route_ref, &backends[i]));
                    i = i + 1;
                }
                Distribution::FirstAvailable(out)
            },
            PolicyDistribution::RandomAvailable(backends) => {
                let mut out: Vec<(RouteBackend<T, F>, u32)> = Vec::new();
                let mut i: usize = 0;
                while i < backends.len()
                    invariant
                        i <= backends@.len(),
                        out@.len() == i,
                        p.valid(),
                        *p == PolicyDistribution::RandomAvailable(*backends),
                        forall|j: int|
                            #![trigger out@[j]]
                            0 <= j < i ==> self.route_backend(
                                *route_ref,
                                out@[j].0,
                                backends@[j].0,
                            ) && out@[j].1 == backends@[j].1,
                    decreases backends@.len() - i,
                {
                    proof {
                        assert(backends@[i as int].0.backend.dispatcher.valid());
                    }
                    let weight: u32 = backends[i].1;
                    out.push((self.mk_route_backend(route_ref, &backends[i].0), weight));
                    i = i + 1;
                }
                Distribution::RandomAvailable(out)
            },
        }
    }

    fn mk_policy<F, P>(&self, p: &RoutePolicy<F, P>) -> (r: Route<T, F, P>)
        requires
            p.distribution.valid(),
        ensures
            r.parent == self.parent,
            r.addr == self.addr,
            r.parent_ref == self.parent_ref,
            r.route_ref == p.meta,
            r.filters == p.filters,
            r.params == p.params,
            self.distribution(p.meta, r.distribution, p.distribution),
    {
        let distribution = self.mk_distribution(&p.meta, &p.distribution);
        Route {
            parent: self.parent.clone(),
            addr: self.addr.copy(),
            parent_ref: self.parent_ref.clone(),
            route_ref: p.meta.clone(),
            filters: p.filters.clone(),
            distribution,
            params: p.params.clone(),
        }
    }

    fn mk_table<M, F, P>(&self, p: &RouteTable<M, RoutePolicy<F, P>>) -> (r: RouteTable<
        M,
        Route<T, F, P>,
    >)
        requires
            p.valid(),
        ensures
            self.table(r, *p),
    {
        let mut rules: Vec<Rule<M, Route<T, F, P>>> = Vec::new();
        let mut i: usize = 0;
        while i < p.rules.len()
            invariant
                i <= p.rules@.len(),
                rules@.len() == i,
                p.valid(),
                forall|j: int| 0 <= j < i ==> #[trigger] self.rule(rules@[j], p.rules@[j]),
            decreases p.rules@.len() - i,
        {
            proof {
                assert(p.rules@[i as int].policy.distribution.valid());
            }
            let policy = self.mk_policy(&p.rules[i].policy);
            let matches = p.rules[i].matches.clone();
            rules.push(Rule { matches, policy });
            i = i + 1;
        }
        RouteTable { hosts: p.hosts.clone(), rules }
    }
}

impl<T, M, F, P> Router<T, M, F, P> {
    /// Whether a router has the routes and backends of a policy, in the same order.
    pub open spec fn implements(self, rts: Params<M, F, P>, parent: Arc<T>) -> bool {
        let common = Common {
            parent,
            addr: rts.addr,
            parent_ref: rts.meta,
            failure_accrual: rts.failure_accrual,
            retry_after: rts.retry_after,
        };
        &&& self.parent == parent
        &&& self.addr == rts.addr
        &&& self.routes@.len() == rts.routes@.len()
        &&& forall|i: int|
            0 <= i < rts.routes@.len() ==> #[trigger] common.table(self.routes@[i], rts.routes@[i])
        &&& self.backends@.len() == rts.backends@.len()
        &&& forall|i: int|
            0 <= i < rts.backends@.len() ==> #[trigger] common.concrete(
                self.backends@[i],
                rts.backends@[i],
            )
    }

    /// Makes a router of a policy. All of its backends, and those of its routes, get the parent
    /// and the circuit breaker of the policy.
    pub fn new(rts: &Params<M, F, P>, parent: Arc<T>) -> (r: Router<T, M, F, P>)
        requires
            rts.valid(),
        ensures
            r.implements(*rts, parent),
    {
        let common = Common {
            parent: parent.clone(),
            addr: rts.addr.copy(),
            parent_ref: rts.meta.clone(),
            failure_accrual: rts.failure_accrual,
            retry_after: rts.retry_after,
        };
        let policy_routes: &Vec<RouteTable<M, RoutePolicy<F, P>>> = &rts.routes;
        let policy_backends: &Vec<PolicyBackend> = &rts.backends;
        let mut routes: Vec<RouteTable<M, Route<T, F, P>>> = Vec::new();
        let mut i: usize = 0;
        while i < policy_routes.len()
            invariant
                i <= rts.routes@.len(),
                policy_routes@ == rts.routes@,
                routes@.len() == i,
                rts.valid(),
                forall|j: int| 0 <= j < i ==> #[trigger] common.table(routes@[j], rts.routes@[j]),
            decreases rts.routes@.len() - i,
        {
            proof {
                assert(rts.routes@[i as int].valid());
            }
            routes.push(common.mk_table(&policy_routes[i]));
            i = i + 1;
        }
        let mut backends: Vec<Concrete<T>> = Vec::new();
        let mut i: usize = 0;
        while i < policy_backends.len()
            invariant
                i <= rts.backends@.len(),
                policy_backends@ == rts.backends@,
                backends@.len() == i,
                rts.valid(),
                forall|j: int|
                    0 <= j < i ==> #[trigger] common.concrete(backends@[j], rts.backends@[j]),
            decreases rts.backends@.len() - i,
        {
            proof {
                assert(rts.backends@[i as int].dispatcher.valid());
            }
            backends.push(common.mk_dispatch(&policy_backends[i]));
            i = i + 1;
        }
        Router { parent, addr: rts.addr.copy(), routes, backends }
    }
}

impl<T, M, F, P> Router<T, M, F, P> {
    /// The route of a request. `found` is the place of the table and of the rule in it that the
    /// request matches best, if it matches any.
    pub fn select(&self, found: Option<(usize, usize)>) -> (r: Result<&Route<T, F, P>, NoRoute>)
        requires
            found matches Some((i, j)) ==> i < self.routes@.len() && j
                < self.routes@[i as int].rules@.len(),
        ensures
            match found {
                Some((i, j)) => r matches Ok(route) && *route
                    == self.routes@[i as int].rules@[j as int].policy,
                None => r is Err,
            },
    {
        match found {
            Some((i, j)) => Ok(&self.routes[i].rules[j].policy),
            None => Err(NoRoute),
        }
    }
}

/// Routes of HTTP or of gRPC.
#[derive(Debug)]
pub enum PolicyParams<MH, FH, PH, MG, FG, PG> {
    Http(Params<MH, FH, PH>),
    Grpc(Params<MG, FG, PG>),
}

/// A router for HTTP or for gRPC.
#[derive(Debug)]
pub enum Policy<T, MH, FH, PH, MG, FG, PG> {
    Http(Router<T, MH, FH, PH>),
    Grpc(Router<T, MG, FG, PG>),
}

impl<MH, FH, PH, MG, FG, PG> PolicyParams<MH, FH, PH, MG, FG, PG> {
    pub open spec fn valid(self) -> bool {
        match self {
            PolicyParams::Http(p) => p.valid(),
            PolicyParams::Grpc(p) => p.valid(),
        }
    }

    pub open spec fn address(self) -> Addr {
        match self {
            PolicyParams::Http(p) => p.addr,
            PolicyParams::Grpc(p) => p.addr,
        }
    }

    pub fn addr(&self) -> (a: &Addr)
        ensures
            *a == self.address(),
    {
        match self {
            PolicyParams::Http(p) => &p.addr,
            PolicyParams::Grpc(p) => &p.addr,
        }
    }
}

impl<T, MH, FH, PH, MG, FG, PG> Policy<T, MH, FH, PH, MG, FG, PG> {
    pub fn new(params: &PolicyParams<MH, FH, PH, MG, FG, PG>, parent: Arc<T>) -> (p: Self)
        requires
            params.valid(),
        ensures
            match (*params, p) {
                (PolicyParams::Http(rts), Policy::Http(r)) => r.implements(rts, parent),
                (PolicyParams::Grpc(rts), Policy::Grpc(r)) => r.implements(rts, parent),
                _ => false,
            },
    {
        match params {
            PolicyParams::Http(http) => Policy::Http(Router::new(http, parent)),
            PolicyParams::Grpc(grpc) => Policy::Grpc(Router::new(grpc, parent)),
        }
    }

    /// The address that is routed.
    pub fn logical_addr(&self) -> (a: Addr)
        ensures
            a == match *self {
                Policy::Http(r) => r.addr,
                Policy::Grpc(r) => r.addr,
            },
    {
        match self {
            Policy::Http(r) => r.addr.copy(),
            Policy::Grpc(r) => r.addr.copy(),
        }
    }
}

/// A backend that occurs both in the list of a policy and in one of its routes becomes the same
/// concrete backend in both places, so that routes share it.
pub proof fn routes_share_backends<T: PartialEq>(
    common: Common<T>,
    a: Concrete<T>,
    b: Concrete<T>,
    backend: PolicyBackend,
)
    requires
        common.concrete(a, backend),
        common.concrete(b, backend),
        vstd::std_specs::cmp::PartialEqSpec::eq_spec(&*common.parent, &*common.parent),
    ensures
        vstd::std_specs::cmp::PartialEqSpec::eq_spec(&a, &b),
{
}

/// Whether a concrete backend leads to where a backend of a policy says, with the breaker and the
/// hints of the policy.
pub open spec fn leads_to<T, M, F, P>(
    c: Concrete<T>,
    b: PolicyBackend,
    rts: Params<M, F, P>,
    parent: Arc<T>,
) -> bool {
    &&& c.failure_accrual == rts.failure_accrual
    &&& c.retry_after == rts.retry_after
    &&& c.backend.parent == parent
    &&& c.backend.parent_ref == rts.meta
    &&& b.dispatcher is BalanceP2c ==> {
        &&& c.backend.target is Balance
        &&& c.backend.target->Balance_0 == b.dispatcher->path
        &&& c.backend.target->Balance_1 == b.dispatcher->ewma
        &&& c.backend.authority == Some(b.dispatcher->path)
        &&& c.backend.backend_ref == b.meta
    }
    &&& b.dispatcher is Forward ==> {
        &&& c.backend.target is Forward
        &&& c.backend.target->Forward_0 == b.dispatcher->Forward_0.addr
        &&& c.backend.target->Forward_1 == b.dispatcher->Forward_0.metadata
        &&& c.backend.authority is None
        &&& c.backend.backend_ref == b.dispatcher->Forward_0.endpoint_ref
    }
    &&& b.dispatcher is Fail ==> {
        &&& c.backend.target is Fail
        &&& c.backend.target->message == b.dispatcher->message
        &&& c.backend.authority is None
    }
}

/// Each backend of a policy has a concrete one, in its place, that leads to where it says.
pub proof fn router_has_every_backend<T, M, F, P>(
    router: Router<T, M, F, P>,
    rts: Params<M, F, P>,
    parent: Arc<T>,
    i: int,
)
    requires
        router.implements(rts, parent),
    ensures
        router.addr == rts.addr,
        router.parent == parent,
        router.backends@.len() == rts.backends@.len(),
        0 <= i < rts.backends@.len() ==> leads_to(router.backends@[i], rts.backends@[i], rts, parent),
{
    let common = Common {
        parent,
        addr: rts.addr,
        parent_ref: rts.meta,
        failure_accrual: rts.failure_accrual,
        retry_after: rts.retry_after,
    };
    if 0 <= i < rts.backends@.len() {
        assert(common.concrete(router.backends@[i], rts.backends@[i]));
    }
}

/// Each rule of a policy has its route, in its place: for the same hosts and matches, with the same
/// filters and parameters, over the same backends in the same order with the same weights.
pub proof fn router_has_every_rule<T, M, F, P>(
    router: Router<T, M, F, P>,
    rts: Params<M, F, P>,
    parent: Arc<T>,
    i: int,
    j: int,
    k: int,
)
    requires
        router.implements(rts, parent),
        0 <= i < rts.routes@.len(),
        0 <= j < rts.routes@[i].rules@.len(),
    ensures
        router.routes@.len() == rts.routes@.len(),
        router.routes@[i].hosts == rts.routes@[i].hosts,
        router.routes@[i].rules@.len() == rts.routes@[i].rules@.len(),
        router.routes@[i].rules@[j].matches == rts.routes@[i].rules@[j].matches,
        ({
            let route = router.routes@[i].rules@[j].policy;
            let policy = rts.routes@[i].rules@[j].policy;
            &&& route.parent == parent
            &&& route.addr == rts.addr
            &&& route.parent_ref == rts.meta
            &&& route.route_ref == policy.meta
            &&& route.filters == policy.filters
            &&& route.params == policy.params
            &&& policy.distribution is Empty ==> route.distribution is Empty
            &&& policy.distribution matches PolicyDistribution::FirstAvailable(bs) ==> {
                &&& route.distribution is FirstAvailable
                &&& route.distribution->FirstAvailable_0@.len() == bs@.len()
                &&& 0 <= k < bs@.len() ==> {
                    let r = route.distribution->FirstAvailable_0@[k];
                    &&& r.filters == bs@[k].filters
                    &&& r.route_ref == policy.meta
                    &&& leads_to(r.concrete, bs@[k].backend, rts, parent)
                }
            }
            &&& policy.distribution matches PolicyDistribution::RandomAvailable(bs) ==> {
                &&& route.distribution is RandomAvailable
                &&& route.distribution->RandomAvailable_0@.len() == bs@.len()
                &&& 0 <= k < bs@.len() ==> {
                    let (r, weight) = route.distribution->RandomAvailable_0@[k];
                    &&& weight == bs@[k].1
                    &&& r.filters == bs@[k].0.filters
                    &&& r.route_ref == policy.meta
                    &&& leads_to(r.concrete, bs@[k].0.backend, rts, parent)
                }
            }
        }),
{
    let common = Common {
        parent,
        addr: rts.addr,
        parent_ref: rts.meta,
        failure_accrual: rts.failure_accrual,
        retry_after: rts.retry_after,
    };
    let table = router.routes@[i];
    assert(common.table(table, rts.routes@[i]));
    assert(common.rule(table.rules@[j], rts.routes@[i].rules@[j]));
    let route = table.rules@[j].policy;
    let policy = rts.routes@[i].rules@[j].policy;
    match policy.distribution {
        PolicyDistribution::FirstAvailable(bs) => {
            if 0 <= k < bs@.len() {
                assert(common.route_backend(
                    policy.meta,
                    route.distribution->FirstAvailable_0@[k],
                    bs@[k],
                ));
            }
        },
        PolicyDistribution::RandomAvailable(bs) => {
            if 0 <= k < bs@.len() {
                let r = route.distribution->RandomAvailable_0@[k];
            }
        },
        PolicyDistribution::Empty => {},
    }
}

/// The address of routes is that of the policy that they are of.
pub proof fn routes_have_the_address_of_their_policy<MH, FH, PH, MG, FG, PG>(
    http: Params<MH, FH, PH>,
    grpc: Params<MG, FG, PG>,
)
    ensures
        PolicyParams::<MH, FH, PH, MG, FG, PG>::Http(http).address() == http.addr,
        PolicyParams::<MH, FH, PH, MG, FG, PG>::Grpc(grpc).address() == grpc.addr,
        PolicyParams::<MH, FH, PH, MG, FG, PG>::Http(http).valid() <==> http.valid(),
        PolicyParams::<MH, FH, PH, MG, FG, PG>::Grpc(grpc).valid() <==> grpc.valid(),
{
}

} // verus!
