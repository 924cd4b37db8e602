//! What is done with the answers of discovery: using a policy, or making one up from a profile.

use crate::addr::{Addr, NameAddr, SocketAddr};
use crate::classify::Code;
use crate::client_policy::FailureAccrual;
use crate::logical::policy::{
    BackendDispatcher, PolicyBackend, PolicyDistribution, PolicyRouteBackend, Queue, RoutePolicy,
    RouteTable, Rule,
};
use crate::logical::profile::Profile;
use crate::target::{EwmaConfig, KnownEndpoint, Meta, Metadata};
use crate::time::Duration;
use std::sync::Arc;
use vstd::prelude::*;
use vstd::std_specs::cmp::PartialEqSpec;

verus! {

/// The routes of HTTP. A match that is not given takes all requests, and parameters that are not
/// given are the default ones.
pub type HttpRoutes<M, F, P> = Vec<RouteTable<Option<M>, RoutePolicy<F, Option<P>>>>;

/// HTTP routes and when their backends are cut off.
#[derive(Debug)]
pub struct HttpPolicy<M, F, P> {
    pub routes: Arc<HttpRoutes<M, F, P>>,
    pub failure_accrual: Option<FailureAccrual>,
}

/// The protocol of a policy, with the routes for it.
#[derive(Debug)]
pub enum Protocol<MH, FH, PH, MG, FG, PG, FO> {
    /// Found out from the first bytes of a connection.
    Detect {
        timeout: Duration,
        http1: HttpPolicy<MH, FH, PH>,
        http2: HttpPolicy<MH, FH, PH>,
        opaque: Vec<RoutePolicy<FO, Option<()>>>,
    },
    Http1(HttpPolicy<MH, FH, PH>),
    Http2(HttpPolicy<MH, FH, PH>),
    Grpc(HttpPolicy<MG, FG, PG>),
    Opaque(Vec<RoutePolicy<FO, Option<()>>>),
    Tls,
}

/// What the control plane says of a destination.
#[derive(Debug)]
pub struct ClientPolicy<MH, FH, PH, MG, FG, PG, FO> {
    pub parent: Arc<Meta>,
    pub protocol: Protocol<MH, FH, PH, MG, FG, PG, FO>,
    pub backends: Arc<Vec<PolicyBackend>>,
}

/// Whether a route sends everything to one backend, without filters.
pub open spec fn only_route<F, P>(
    policy: RoutePolicy<F, Option<P>>,
    meta: Arc<Meta>,
    backend: PolicyBackend,
) -> bool {
    &&& policy.meta == meta
    &&& policy.filters@.len() == 0
    &&& *policy.params is None
    &&& policy.distribution matches PolicyDistribution::FirstAvailable(bs) && bs@.len() == 1
        && bs@[0].filters@.len() == 0 && bs@[0].backend == backend
}

/// Whether routes send all requests of all hosts to one backend.
pub open spec fn only_routes<M, F, P>(
    routes: Seq<RouteTable<Option<M>, RoutePolicy<F, Option<P>>>>,
    meta: Arc<Meta>,
    backend: PolicyBackend,
) -> bool {
    &&& routes.len() == 1
    &&& routes[0].hosts@.len() == 0
    &&& routes[0].rules@.len() == 1
    &&& routes[0].rules@[0].matches@.len() == 1
    &&& routes[0].rules@[0].matches@[0] is None
    &&& only_route(routes[0].rules@[0].policy, meta, backend)
}

/// Whether a policy sends everything to one backend, whatever the protocol turns out to be, and
/// never cuts it off.
pub open spec fn policy_for<MH, FH, PH, MG, FG, PG, FO>(
    policy: ClientPolicy<MH, FH, PH, MG, FG, PG, FO>,
    meta: Arc<Meta>,
    timeout: Duration,
    backend: PolicyBackend,
) -> bool {
    &&& policy.parent == meta
    &&& policy.backends@.len() == 1
    &&& policy.backends@[0] == backend
    &&& match policy.protocol {
        Protocol::Detect { timeout: t, http1, http2, opaque } => {
            &&& t == timeout
            &&& only_routes(http1.routes@, meta, backend)
            &&& http2.routes == http1.routes
            &&& http1.failure_accrual is None
            &&& http2.failure_accrual is None
            &&& opaque@.len() == 1
            &&& only_route(opaque@[0], meta, backend)
        },
        _ => false,
    }
}

fn mk_only_route<F, P>(meta: &Arc<Meta>, backend: &PolicyBackend) -> (p: RoutePolicy<F, Option<P>>)
    ensures
        only_route(p, *meta, *backend),
{
    let mut backends: Vec<PolicyRouteBackend<F>> = Vec::new();
    backends.push(PolicyRouteBackend { filters: Arc::new(Vec::new()), backend: backend.copy() });
    RoutePolicy {
        meta: meta.clone(),
        filters: Arc::new(Vec::new()),
        params: Arc::new(None),
        distribution: PolicyDistribution::FirstAvailable(backends),
    }
}

/// Makes a policy that sends everything to one backend.
fn policy_for_backend<MH, FH, PH, MG, FG, PG, FO>(
    meta: &Arc<Meta>,
    timeout: Duration,
    backend: PolicyBackend,
) -> (policy: ClientPolicy<MH, FH, PH, MG, FG, PG, FO>)
    ensures
        policy_for(policy, *meta, timeout, backend),
{
    let mut opaque: Vec<RoutePolicy<FO, Option<()>>> = Vec::new();
    opaque.push(mk_only_route(meta, &backend));
    let mut matches: Vec<Option<MH>> = Vec::new();
    matches.push(None);
    let mut rules: Vec<Rule<Option<MH>, RoutePolicy<FH, Option<PH>>>> = Vec::new();
    rules.push(Rule { matches: Arc::new(matches), policy: mk_only_route(meta, &backend) });
    let mut tables: HttpRoutes<MH, FH, PH> = Vec::new();
    tables.push(RouteTable { hosts: Arc::new(Vec::new()), rules });
    let routes = Arc::new(tables);
    let mut backends: Vec<PolicyBackend> = Vec::new();
    backends.push(backend);
    ClientPolicy {
        parent: meta.clone(),
        protocol: Protocol::Detect {
            timeout,
            http1: HttpPolicy { routes: routes.clone(), failure_accrual: None },
            http2: HttpPolicy { routes, failure_accrual: None },
            opaque,
        },
        backends: Arc::new(backends),
    }
}

/// Makes a policy that forwards everything to one endpoint.
pub fn synthesize_forward_policy<MH, FH, PH, MG, FG, PG, FO>(
    meta: &Arc<Meta>,
    timeout: Duration,
    queue: Queue,
    endpoint: KnownEndpoint,
) -> (policy: ClientPolicy<MH, FH, PH, MG, FG, PG, FO>)
    ensures
        policy_for(
            policy,
            *meta,
            timeout,
            PolicyBackend {
                meta: *meta,
                queue,
                dispatcher: BackendDispatcher::Forward(endpoint),
            },
        ),
{
    policy_for_backend(
        meta,
        timeout,
        PolicyBackend {
            meta: meta.clone(),
            queue,
            dispatcher: BackendDispatcher::Forward(endpoint),
        },
    )
}

/// Makes a policy that balances everything over the endpoints of a name.
pub fn synthesize_balance_policy<MH, FH, PH, MG, FG, PG, FO>(
    meta: &Arc<Meta>,
    timeout: Duration,
    queue: Queue,
    load: EwmaConfig,
    addr: &NameAddr,
) -> (policy: ClientPolicy<MH, FH, PH, MG, FG, PG, FO>)
    ensures
        policy_for(
            policy,
            *meta,
            timeout,
            PolicyBackend {
                meta: *meta,
                queue,
                dispatcher: BackendDispatcher::BalanceP2c { ewma: load, path: *addr },
            },
        ),
{
    policy_for_backend(
        meta,
        timeout,
        PolicyBackend {
            meta: meta.clone(),
            queue,
            dispatcher: BackendDispatcher::BalanceP2c { ewma: load, path: addr.copy() },
        },
    )
}

/// A lookup that failed, with the gRPC status of the failure if it has one.
#[derive(Debug)]
pub struct LookupError<E> {
    pub error: E,
    pub grpc_status: Option<Code>,
}

impl<E> LookupError<E> {
    /// Whether the control plane has no policy to give: it does not know the destination, or is
    /// too old to know of policies.
    pub open spec fn no_policy(self) -> bool {
        self.grpc_status == Some(Code::NotFound) || self.grpc_status == Some(Code::Unimplemented)
    }

    pub fn is_no_policy(&self) -> (b: bool)
        ensures
            b == self.no_policy(),
    {
        match self.grpc_status {
            Some(Code::NotFound) => true,
            Some(Code::Unimplemented) => true,
            _ => false,
        }
    }
}

/// What is done with the answers of discovery.
#[derive(Debug)]
pub enum Resolution<PR, PO, E> {
    /// Use the policy as it is, next to the profile.
    Use(Option<PR>, PO),
    /// Make a policy up from the profile.
    FromProfile(PR),
    /// Make a policy up that forwards to the original destination.
    OrigDst,
    Fail(E),
}

/// Decides on a destination from the profile and the policy that were looked up for it. A profile
/// that could not be looked up counts as none.
pub fn resolve<PR, PO, E>(
    profile: Result<Option<PR>, E>,
    policy: Result<PO, LookupError<E>>,
) -> (r: Resolution<PR, PO, E>)
    ensures
        ({
            let profile = match profile {
                Ok(p) => p,
                Err(_) => None,
            };
            match policy {
                Ok(policy) => r == Resolution::<PR, PO, E>::Use(profile, policy),
                Err(e) => if !e.no_policy() {
                    r == Resolution::<PR, PO, E>::Fail(e.error)
                } else {
                    match profile {
                        Some(profile) => r == Resolution::<PR, PO, E>::FromProfile(profile),
                        None => r == Resolution::<PR, PO, E>::OrigDst,
                    }
                },
            }
        }),
        policy is Ok <==> r is Use,
        policy matches Err(e) ==> (r is Fail <==> e.grpc_status != Some(Code::NotFound)
            && e.grpc_status != Some(Code::Unimplemented)),
        r is FromProfile ==> (profile matches Ok(Some(_))),
        r is OrigDst ==> !(profile matches Ok(Some(_))),
{
    let profile: Option<PR> = match profile {
        Ok(p) => p,
        Err(_) => None,
    };
    match policy {
        Ok(policy) => {
            return Resolution::Use(profile, policy);
        },
        Err(e) => {
            if !e.is_no_policy() {
                return Resolution::Fail(e.error);
            }
        },
    }
    match profile {
        Some(profile) => Resolution::FromProfile(profile),
        None => Resolution::OrigDst,
    }
}

/// Whether an endpoint is one of which only the address and what it is called are known.
pub open spec fn unknown_endpoint(
    endpoint: KnownEndpoint,
    addr: SocketAddr,
    endpoint_ref: Arc<Meta>,
) -> bool {
    &&& endpoint.addr == addr
    &&& *endpoint.metadata == Metadata::nothing_known()
    &&& endpoint.endpoint_ref == endpoint_ref
}

/// The policy that is made up from a profile: to its endpoint, or to the original destination if it
/// has none. Of that only the address is known, and `orig_dst_ref`, which is what it is called.
pub fn profile_policy<M, R, MH, FH, PH, MG, FG, PG, FO>(
    profile: &Profile<M, R>,
    orig_dst: SocketAddr,
    orig_dst_ref: &Arc<Meta>,
    timeout: Duration,
    queue: Queue,
) -> (policy: ClientPolicy<MH, FH, PH, MG, FG, PG, FO>)
    ensures
        policy.parent.is_default("endpoint"@),
        policy_for(policy, policy.parent, timeout, policy.backends@[0]),
        policy.backends@[0].meta == policy.parent,
        policy.backends@[0].queue == queue,
        policy.backends@[0].dispatcher matches BackendDispatcher::Forward(to) && match profile.endpoint {
            Some(endpoint) => to == endpoint,
            None => unknown_endpoint(to, orig_dst, *orig_dst_ref),
        },
{
    let meta = Meta::new_default("endpoint");
    let endpoint = match &profile.endpoint {
        Some(endpoint) => endpoint.copy(),
        None => mk_unknown_endpoint(orig_dst, orig_dst_ref),
    };
    synthesize_forward_policy(&meta, timeout, queue, endpoint)
}

fn mk_unknown_endpoint(addr: SocketAddr, endpoint_ref: &Arc<Meta>) -> (e: KnownEndpoint)
    ensures
        unknown_endpoint(e, addr, *endpoint_ref),
{
    KnownEndpoint {
        addr,
        metadata: Arc::new(Metadata::unknown()),
        endpoint_ref: endpoint_ref.clone(),
    }
}

/// The policy that is made up where discovery has nothing: to the original destination, of which
/// only the address is known, and `orig_dst_ref`, which is what it is called.
pub fn origdst_policy<MH, FH, PH, MG, FG, PG, FO>(
    orig_dst: SocketAddr,
    orig_dst_ref: &Arc<Meta>,
    timeout: Duration,
    queue: Queue,
) -> (policy: ClientPolicy<MH, FH, PH, MG, FG, PG, FO>)
    ensures
        policy.parent.is_default("fallback"@),
        policy_for(policy, policy.parent, timeout, policy.backends@[0]),
        policy.backends@[0].meta == policy.parent,
        policy.backends@[0].queue == queue,
        policy.backends@[0].dispatcher matches BackendDispatcher::Forward(to) && unknown_endpoint(
            to,
            orig_dst,
            *orig_dst_ref,
        ),
{
    let meta = Meta::new_default("fallback");
    let endpoint = mk_unknown_endpoint(orig_dst, orig_dst_ref);
    synthesize_forward_policy(&meta, timeout, queue, endpoint)
}

/// What happens to a policy that is made up from a profile.
#[derive(Clone, Copy, Debug)]
pub enum WatchEvent {
    /// Nobody uses the policy any more.
    PolicyClosed,
    ProfileChanged,
    /// The profile changes no more.
    ProfileClosed,
}

#[derive(Clone, Copy, Debug, PartialEq, Eq, Structural)]
pub enum WatchAction {
    /// Make the policy up anew and send it out.
    Synthesize,
    Stop,
}

/// Decides how a policy that is made up from a profile follows it.
pub fn watch_step(event: WatchEvent) -> (a: WatchAction)
    ensures
        a == if event is ProfileChanged {
            WatchAction::Synthesize
        } else {
            WatchAction::Stop
        },
{
    match event {
        WatchEvent::PolicyClosed => WatchAction::Stop,
        WatchEvent::ProfileClosed => WatchAction::Stop,
        WatchEvent::ProfileChanged => WatchAction::Synthesize,
    }
}

/// A target with what discovery knows of it, which is no part of its identity.
#[derive(Debug)]
pub struct Discovery<T, PR, PO> {
    pub parent: T,
    pub profile: Option<PR>,
    pub policy: PO,
}

impl<T, PR, PO> Discovery<T, PR, PO> {
    pub fn new(discovered: (Option<PR>, PO), parent: T) -> (d: Discovery<T, PR, PO>)
        ensures
            d.parent == parent,
            d.profile == discovered.0,
            d.policy == discovered.1,
    {
        Discovery { parent, profile: discovered.0, policy: discovered.1 }
    }
}

impl<T: PartialEq, PR, PO> PartialEq for Discovery<T, PR, PO> {
    fn eq(&self, other: &Discovery<T, PR, PO>) -> (b: bool) {
        self.parent == other.parent
    }
}

impl<T: PartialEq, PR, PO> vstd::std_specs::cmp::PartialEqSpecImpl for Discovery<T, PR, PO> {
    open spec fn obeys_eq_spec() -> bool {
        <T as PartialEqSpec>::obeys_eq_spec()
    }

    open spec fn eq_spec(&self, other: &Discovery<T, PR, PO>) -> bool {
        PartialEqSpec::eq_spec(&self.parent, &other.parent)
    }
}

/// A request to resolve a name that may not be resolved.
#[derive(Clone, Copy, Debug)]
pub struct DiscoveryRejected;

/// Lets only targets through whose address may be resolved.
#[derive(Clone, Copy, Debug)]
pub struct AllowResolve;

impl AllowResolve {
    pub fn filter(&self, resolve: Option<Addr>) -> (r: Result<Addr, DiscoveryRejected>)
        ensures
            match resolve {
                Some(addr) => r == Ok::<Addr, DiscoveryRejected>(addr),
                None => r is Err,
            },
    {
        match resolve {
            Some(addr) => Ok(addr),
            None => Err(DiscoveryRejected),
        }
    }
}

/// The control plane has no policy to give exactly if it answers NOT_FOUND or UNIMPLEMENTED. Any
/// other failure is one, and so is one without a status.
pub proof fn only_two_statuses_mean_no_policy<E>(error: E, code: Code)
    ensures
        (LookupError { error, grpc_status: Some(Code::NotFound) }).no_policy(),
        (LookupError { error, grpc_status: Some(Code::Unimplemented) }).no_policy(),
        !(LookupError { error, grpc_status: None }).no_policy(),
        code != Code::NotFound && code != Code::Unimplemented ==> !(LookupError {
            error,
            grpc_status: Some(code),
        }).no_policy(),
{
}

/// A policy that is made up sends every request to its one backend: whatever the version of HTTP,
/// the host and the request, and if it is not HTTP at all. Nothing filters requests, and no breaker
/// cuts the backend off.
pub proof fn made_up_policy_has_one_way<MH, FH, PH, MG, FG, PG, FO>(
    policy: ClientPolicy<MH, FH, PH, MG, FG, PG, FO>,
    meta: Arc<Meta>,
    timeout: Duration,
    backend: PolicyBackend,
)
    requires
        policy_for(policy, meta, timeout, backend),
    ensures
        policy.parent == meta,
        policy.backends@ == seq![backend],
        policy.protocol matches Protocol::Detect { timeout: t, http1, http2, opaque } && {
            &&& t == timeout
            &&& http1.failure_accrual is None && http2.failure_accrual is None
            &&& http1.routes@.len() == 1 && http2.routes@ == http1.routes@
            &&& http1.routes@[0].hosts@.len() == 0
            &&& http1.routes@[0].rules@.len() == 1
            &&& http1.routes@[0].rules@[0].matches@.len() == 1
            &&& http1.routes@[0].rules@[0].matches@[0] is None
            &&& http1.routes@[0].rules@[0].policy.meta == meta
            &&& http1.routes@[0].rules@[0].policy.filters@.len() == 0
            &&& *http1.routes@[0].rules@[0].policy.params is None
            &&& http1.routes@[0].rules@[0].policy.distribution is FirstAvailable
            &&& http1.routes@[0].rules@[0].policy.distribution->FirstAvailable_0@.len() == 1
            &&& http1.routes@[0].rules@[0].policy.distribution->FirstAvailable_0@[0].backend
                == backend
            &&& http1.routes@[0].rules@[0].policy.distribution->FirstAvailable_0@[0].filters@.len()
                == 0
            &&& opaque@.len() == 1
            &&& opaque@[0].meta == meta
            &&& opaque@[0].filters@.len() == 0
            &&& *opaque@[0].params is None
            &&& opaque@[0].distribution is FirstAvailable
            &&& opaque@[0].distribution->FirstAvailable_0@.len() == 1
            &&& opaque@[0].distribution->FirstAvailable_0@[0].backend == backend
            &&& opaque@[0].distribution->FirstAvailable_0@[0].filters@.len() == 0
        },
{
    assert(policy.backends@ =~= seq![backend]);
}

/// Of an endpoint that discovery does not know, the address is kept and nothing is made up.
pub proof fn unknown_endpoints_are_bare(
    endpoint: KnownEndpoint,
    addr: SocketAddr,
    endpoint_ref: Arc<Meta>,
)
    requires
        unknown_endpoint(endpoint, addr, endpoint_ref),
    ensures
        endpoint.addr == addr,
        endpoint.endpoint_ref == endpoint_ref,
        endpoint.metadata.protocol_hint is Unknown,
        endpoint.metadata.tagged_transport_port is None,
        endpoint.metadata.identity is None,
        endpoint.metadata.authority_override is None,
{
}

/// What discovery knows of a target is no part of its identity, and its target is all of it.
pub proof fn discoveries_agree_as_their_targets<T: PartialEq, PR, PO>(
    a: Discovery<T, PR, PO>,
    b: Discovery<T, PR, PO>,
)
    ensures
        PartialEqSpec::eq_spec(&a, &b) == PartialEqSpec::eq_spec(&a.parent, &b.parent),
{
}

} // verus!
