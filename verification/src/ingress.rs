//! Proxying for an ingress, which routes by request headers in place of original destinations.

use crate::addr::{Addr, NameAddr, SocketAddr};
use crate::classify::Code;
use crate::detect::Version;
use crate::discover::{
    policy_for, synthesize_balance_policy, synthesize_forward_policy, ClientPolicy, HttpPolicy,
    LookupError, Protocol,
};
use crate::headers::{header_fields, header_key, header_remove};
use crate::logical::policy::{
    BackendDispatcher, Params, PolicyBackend, PolicyParams, Queue,
};
use crate::logical::profile::{
    default_ewma, default_ewma_config, overrides_policy, should_override_policy, Profile,
    Routes as ProfileRoutes,
};
use crate::logical::Routes;
use crate::target::{KnownEndpoint, Meta};
use crate::time::Duration;
use http::{HeaderMap, HeaderValue};
use std::sync::Arc;
use vstd::prelude::*;

verus! {

/// Where a request is to go: to a name that its headers give, or to where its connection was
/// headed.
#[derive(Debug)]
pub enum RequestTarget {
    Named(NameAddr),
    Orig(SocketAddr),
}

impl RequestTarget {
    pub open spec fn address(self) -> Addr {
        match self {
            RequestTarget::Named(name) => Addr::Name(name),
            RequestTarget::Orig(addr) => Addr::Socket(addr),
        }
    }

    /// The address that is looked up in discovery.
    pub fn discover_addr(&self) -> (a: Addr)
        ensures
            a == self.address(),
    {
        match self {
            RequestTarget::Named(name) => Addr::Name(name.copy()),
            RequestTarget::Orig(addr) => Addr::Socket(*addr),
        }
    }
}

/// A target of HTTP traffic.
#[derive(Debug)]
pub struct Http<T> {
    pub version: Version,
    pub parent: T,
}

/// The header that overrides the destination does not hold an address.
#[derive(Clone, Copy, Debug)]
pub struct InvalidOverrideHeader;

/// The version of a request.
#[derive(Clone, Copy, Debug, PartialEq, Eq, Structural)]
pub enum RequestVersion {
    Http09,
    Http10,
    Http11,
    Http2,
    Http3,
}

/// Chooses the target of each request of a connection that was headed for `orig_dst`.
#[derive(Clone, Copy, Debug)]
pub struct SelectTarget {
    pub orig_dst: SocketAddr,
}

impl SelectTarget {
    /// Chooses the target of a request. `overridden` is the authority in the header that overrides
    /// the destination, as an address whose port is 80 if none is given, and an error if it is no
    /// such address. Only HTTP/1 and HTTP/2 get here.
    pub fn select(&self, overridden: Option<Result<NameAddr, ()>>, version: RequestVersion) -> (r:
        Result<Http<RequestTarget>, InvalidOverrideHeader>)
        requires
            version != RequestVersion::Http09,
            version != RequestVersion::Http3,
        ensures
            r is Err <==> overridden is Some && overridden->0 is Err,
            r matches Ok(http) ==> {
                &&& http.parent == match overridden {
                    Some(name) => RequestTarget::Named(name->Ok_0),
                    None => RequestTarget::Orig(self.orig_dst),
                }
                &&& http.version == if version == RequestVersion::Http2 {
                    Version::H2
                } else {
                    Version::Http1
                }
            },
    {
        let target = match overridden {
            Some(Ok(name)) => RequestTarget::Named(name),
            Some(Err(_)) => {
                return Err(InvalidOverrideHeader);
            },
            None => RequestTarget::Orig(self.orig_dst),
        };
        let version = match version {
            RequestVersion::Http2 => Version::H2,
            _ => Version::Http1,
        };
        Ok(Http { version, parent: target })
    }

    /// Takes the header that overrides the destination out of a request, so that it is not passed
    /// on.
    pub fn strip_override(headers: &mut HeaderMap<HeaderValue>)
        ensures
            header_fields(*final(headers)) == header_fields(*old(headers)).remove(
                header_key("l5d-dst-override"@),
            ),
    {
        let _ = header_remove(headers, "l5d-dst-override");
    }
}

/// What is done with the answers of discovery.
#[derive(Debug)]
pub enum IngressResolution<PR, PO, E> {
    /// Use the policy as it is, next to the profile.
    Use(Option<PR>, PO),
    /// Make a policy up from the profile.
    FromProfile(PR),
    Fail(E),
}

/// Decides on a destination from the profile and the policy that were looked up for it. Without
/// either there is nothing to make a policy of.
pub fn ingress_resolve<PR, PO, E>(
    profile: Result<Option<PR>, E>,
    policy: Result<PO, LookupError<E>>,
) -> (r: IngressResolution<PR, PO, E>)
    ensures
        ({
            let profile = match profile {
                Ok(p) => p,
                Err(_) => None,
            };
            match policy {
                Ok(policy) => r == IngressResolution::<PR, PO, E>::Use(profile, policy),
                Err(e) => if e.no_policy() && profile is Some {
                    r == IngressResolution::<PR, PO, E>::FromProfile(profile->0)
                } else {
                    r == IngressResolution::<PR, PO, E>::Fail(e.error)
                },
            }
        }),
        policy is Ok <==> r is Use,
        policy matches Err(e) ==> (r is FromProfile <==> (e.grpc_status == Some(Code::NotFound)
            || e.grpc_status == Some(Code::Unimplemented)) && (profile matches Ok(Some(_)))),
{
    let profile: Option<PR> = match profile {
        Ok(p) => p,
        Err(_) => None,
    };
    let policy_error = match policy {
        Ok(policy) => {
            return IngressResolution::Use(profile, policy);
        },
        Err(e) => e,
    };
    if !policy_error.is_no_policy() {
        return IngressResolution::Fail(policy_error.error);
    }
    match profile {
        Some(profile) => IngressResolution::FromProfile(profile),
        None => IngressResolution::Fail(policy_error.error),
    }
}

/// The policy that is made up from a profile: to its endpoint, or balanced over its address. If it
/// has neither, it is `empty`, a policy without routes, so that requests are rejected.
pub fn ingress_profile_policy<M, R, MH, FH, PH, MG, FG, PG, FO>(
    profile: &Profile<M, R>,
    timeout: Duration,
    queue: Queue,
    empty: ClientPolicy<MH, FH, PH, MG, FG, PG, FO>,
) -> (policy: ClientPolicy<MH, FH, PH, MG, FG, PG, FO>)
    ensures
        match (profile.endpoint, profile.addr) {
            (Some(endpoint), _) => policy.parent.is_default("endpoint"@) && policy_for(
                policy,
                policy.parent,
                timeout,
                PolicyBackend {
                    meta: policy.parent,
                    queue,
                    dispatcher: BackendDispatcher::Forward(endpoint),
                },
            ),
            (None, Some(addr)) => policy.parent.is_default("profile"@) && policy_for(
                policy,
                policy.parent,
                timeout,
                PolicyBackend {
                    meta: policy.parent,
                    queue,
                    dispatcher: BackendDispatcher::BalanceP2c { ewma: default_ewma(), path: addr },
                },
            ),
            (None, None) => policy == empty,
        },
        profile.endpoint is Some || profile.addr is Some ==> {
            &&& policy.backends@.len() == 1
            &&& policy.backends@[0].queue == queue
            &&& policy.backends@[0].dispatcher is Forward <==> profile.endpoint is Some
            &&& policy.backends@[0].dispatcher is BalanceP2c <==> profile.endpoint is None
        },
{
    if let Some(endpoint) = &profile.endpoint {
        let meta = Meta::new_default("endpoint");
        return synthesize_forward_policy(&meta, timeout, queue, endpoint.copy());
    }
    if let Some(addr) = &profile.addr {
        let meta = Meta::new_default("profile");
        return synthesize_balance_policy(&meta, timeout, queue, default_ewma_config(), addr);
    }
    empty
}

/// The routes of a request.
pub type IngressRoutes<MH, FH, PH, MG, FG, PG, M, R> = Routes<
    Option<MH>,
    FH,
    Option<PH>,
    Option<MG>,
    FG,
    Option<PG>,
    M,
    R,
>;

/// The logical target of a request. Two are the same if their addresses are, whatever their
/// routes.
#[derive(Debug)]
pub struct Logical<MH, FH, PH, MG, FG, PG, M, R> {
    pub addr: Addr,
    pub routes: IngressRoutes<MH, FH, PH, MG, FG, PG, M, R>,
}

/// Why a request has no logical target.
#[derive(Debug)]
pub enum RouteError {
    /// The name is not known.
    DiscoveryRequired(NameAddr),
    /// The address has no policy.
    PolicyRequired(SocketAddr),
}

/// The routes of a profile.
pub open spec fn profile_routes<M, R>(addr: NameAddr, profile: Profile<M, R>) -> ProfileRoutes<
    M,
    R,
> {
    ProfileRoutes { addr, routes: profile.http_routes, targets: profile.targets }
}

pub fn mk_profile_routes<M, R>(addr: NameAddr, profile: &Profile<M, R>) -> (r: ProfileRoutes<M, R>)
    ensures
        r == profile_routes(addr, *profile),
{
    ProfileRoutes {
        addr,
        routes: profile.http_routes.clone(),
        targets: profile.targets.clone(),
    }
}

/// The routes of a policy for a version of HTTP, none if its protocol is not HTTP.
pub open spec fn routes_of_policy<MH, FH, PH, MG, FG, PG, FO>(
    addr: Addr,
    version: Version,
    policy: ClientPolicy<MH, FH, PH, MG, FG, PG, FO>,
) -> Option<PolicyParams<Option<MH>, FH, Option<PH>, Option<MG>, FG, Option<PG>>> {
    match policy.protocol {
        Protocol::Detect { http1, http2, .. } => Some(
            PolicyParams::Http(
                params_of(
                    addr,
                    policy.parent,
                    policy.backends,
                    match version {
                        Version::Http1 => http1,
                        Version::H2 => http2,
                    },
                ),
            ),
        ),
        Protocol::Http1(http) => Some(
            PolicyParams::Http(params_of(addr, policy.parent, policy.backends, http)),
        ),
        Protocol::Http2(http) => Some(
            PolicyParams::Http(params_of(addr, policy.parent, policy.backends, http)),
        ),
        Protocol::Grpc(grpc) => Some(
            PolicyParams::Grpc(params_of(addr, policy.parent, policy.backends, grpc)),
        ),
        _ => None,
    }
}

pub open spec fn params_of<M, F, P>(
    addr: Addr,
    meta: Arc<Meta>,
    backends: Arc<Vec<PolicyBackend>>,
    http: HttpPolicy<M, F, P>,
) -> Params<Option<M>, F, Option<P>> {
    Params {
        addr,
        meta,
        routes: http.routes,
        backends,
        failure_accrual: http.failure_accrual,
        retry_after: None,
    }
}

fn mk_params<M, F, P>(
    addr: Addr,
    meta: &Arc<Meta>,
    backends: &Arc<Vec<PolicyBackend>>,
    http: &HttpPolicy<M, F, P>,
) -> (p: Params<Option<M>, F, Option<P>>)
    ensures
        p == params_of(addr, *meta, *backends, *http),
{
    Params {
        addr,
        meta: meta.clone(),
        routes: http.routes.clone(),
        backends: backends.clone(),
        failure_accrual: http.failure_accrual,
        retry_after: None,
    }
}

pub fn policy_routes<MH, FH, PH, MG, FG, PG, FO>(
    addr: Addr,
    version: Version,
    policy: &ClientPolicy<MH, FH, PH, MG, FG, PG, FO>,
) -> (r: Option<PolicyParams<Option<MH>, FH, Option<PH>, Option<MG>, FG, Option<PG>>>)
    ensures
        r == routes_of_policy(addr, version, *policy),
{
    let meta = &policy.parent;
    let backends = &policy.backends;
    match &policy.protocol {
        Protocol::Detect { http1, http2, .. } => {
            let http = match version {
                Version::Http1 => http1,
                Version::H2 => http2,
            };
            Some(PolicyParams::Http(mk_params(addr, meta, backends, http)))
        },
        Protocol::Http1(http) => Some(PolicyParams::Http(mk_params(addr, meta, backends, http))),
        Protocol::Http2(http) => Some(PolicyParams::Http(mk_params(addr, meta, backends, http))),
        Protocol::Grpc(grpc) => Some(PolicyParams::Grpc(mk_params(addr, meta, backends, grpc))),
        _ => None,
    }
}

/// Whether a profile takes the place of the policy: it has an address, and routes or targets.
pub open spec fn profile_wins<M, R>(profile: Option<Profile<M, R>>) -> bool {
    profile is Some && overrides_policy(profile->0) is Some
}

/// The routes of a request: those of a profile that takes the place of the policy, else those of
/// the policy if it is one for HTTP.
pub fn try_route<M, R, MH, FH, PH, MG, FG, PG, FO>(
    version: Version,
    target: &RequestTarget,
    profile: Option<&Profile<M, R>>,
    policy: &ClientPolicy<MH, FH, PH, MG, FG, PG, FO>,
) -> (r: Result<Http<Logical<MH, FH, PH, MG, FG, PG, M, R>>, RouteError>)
    ensures
        ({
            let profile = match profile {
                Some(p) => Some(*p),
                None => None,
            };
            let by_policy = routes_of_policy(target.address(), version, *policy);
            if profile_wins(profile) {
                let laddr = overrides_policy(profile->0)->0;
                r matches Ok(http) && http.version == version && http.parent.addr == Addr::Name(
                    laddr,
                ) && http.parent.routes == IngressRoutes::<MH, FH, PH, MG, FG, PG, M, R>::Profile(
                    profile_routes(laddr, profile->0),
                )
            } else if by_policy is Some {
                r matches Ok(http) && http.version == version && http.parent.addr
                    == target.address() && http.parent.routes == IngressRoutes::<
                    MH,
                    FH,
                    PH,
                    MG,
                    FG,
                    PG,
                    M,
                    R,
                >::Policy(by_policy->0)
            } else {
                match *target {
                    RequestTarget::Named(name) => r matches Err(RouteError::DiscoveryRequired(n))
                        && n == name,
                    RequestTarget::Orig(addr) => r matches Err(RouteError::PolicyRequired(a)) && a
                        == addr,
                }
            }
        }),
        profile matches Some(p) ==> (p.addr is Some && (p.http_routes@.len() >= 1 || p.targets@.len()
            >= 1) ==> r is Ok && r->Ok_0.parent.routes is Profile && r->Ok_0.parent.addr
            == Addr::Name(p.addr->0)),
        profile is None ==> (r is Ok <==> !(policy.protocol is Opaque || policy.protocol is Tls)),
        r matches Ok(http) ==> http.version == version,
{
    if let Some(profile) = profile {
        if let Some(laddr) = should_override_policy(profile) {
            let routes = mk_profile_routes(laddr.copy(), profile);
            return Ok(
                Http {
                    version,
                    parent: Logical { addr: Addr::Name(laddr), routes: Routes::Profile(routes) },
                },
            );
        }
    }
    match policy_routes(target.discover_addr(), version, policy) {
        Some(routes) => Ok(
            Http {
                version,
                parent: Logical {
                    addr: target.discover_addr(),
                    routes: Routes::Policy(routes),
                },
            },
        ),
        None => match target {
            RequestTarget::Named(name) => Err(RouteError::DiscoveryRequired(name.copy())),
            RequestTarget::Orig(addr) => Err(RouteError::PolicyRequired(*addr)),
        },
    }
}

impl<MH, FH, PH, MG, FG, PG, M, R> PartialEq for Logical<MH, FH, PH, MG, FG, PG, M, R> {
    fn eq(&self, other: &Logical<MH, FH, PH, MG, FG, PG, M, R>) -> (b: bool) {
        self.addr == other.addr
    }
}

impl<MH, FH, PH, MG, FG, PG, M, R> vstd::std_specs::cmp::PartialEqSpecImpl for Logical<MH, FH, PH, MG, FG, PG, M, R> {
    open spec fn obeys_eq_spec() -> bool {
        true
    }

    open spec fn eq_spec(&self, other: &Logical<MH, FH, PH, MG, FG, PG, M, R>) -> bool {
        vstd::std_specs::cmp::PartialEqSpec::eq_spec(&self.addr, &other.addr)
    }
}

/// Where an opaque connection goes.
#[derive(Debug)]
pub enum OpaqLogical {
    /// Routed by the profile, under its address.
    Route(NameAddr),
    /// To the endpoint of the profile.
    Endpoint(KnownEndpoint),
    /// To where it was headed, with nothing known of it.
    OrigDst(SocketAddr),
}

pub fn opaq_logical<M, R>(profile: Option<&Profile<M, R>>, orig_dst: SocketAddr) -> (r: OpaqLogical)
    ensures
        match profile {
            Some(p) => match (p.addr, p.endpoint) {
                (Some(addr), _) => r == OpaqLogical::Route(addr),
                (None, Some(endpoint)) => r == OpaqLogical::Endpoint(endpoint),
                (None, None) => r == OpaqLogical::OrigDst(orig_dst),
            },
            None => r == OpaqLogical::OrigDst(orig_dst),
        },
        profile is None ==> r is OrigDst,
        profile matches Some(p) ==> {
            &&& r is Route <==> p.addr is Some
            &&& r is OrigDst <==> p.addr is None && p.endpoint is None
        },
{
    if let Some(profile) = profile {
        if let Some(addr) = &profile.addr {
            return OpaqLogical::Route(addr.copy());
        }
        if let Some(endpoint) = &profile.endpoint {
            return OpaqLogical::Endpoint(endpoint.copy());
        }
    }
    OpaqLogical::OrigDst(orig_dst)
}

/// A policy that is made up is as good as one of the control plane: it has HTTP routes for either
/// version, and a router can be made of them as long as the endpoint that it forwards to has a
/// port.
pub proof fn synthesized_policy_can_be_routed<MH, FH, PH, MG, FG, PG, FO>(
    policy: ClientPolicy<MH, FH, PH, MG, FG, PG, FO>,
    meta: Arc<Meta>,
    timeout: Duration,
    backend: PolicyBackend,
    addr: Addr,
    version: Version,
)
    requires
        policy_for(policy, meta, timeout, backend),
        backend.dispatcher.valid(),
    ensures
        routes_of_policy(addr, version, policy) matches Some(params) && params.valid(),
{
}

/// A name is looked up as a name and an address as an address.
pub proof fn targets_are_looked_up_as_they_are(name: NameAddr, addr: SocketAddr)
    ensures
        RequestTarget::Named(name).address() == Addr::Name(name),
        RequestTarget::Orig(addr).address() == Addr::Socket(addr),
{
}

/// A profile wins over a policy exactly if it has an address and at least one route or target.
pub proof fn profiles_with_something_to_say_win<M, R>(profile: Profile<M, R>)
    ensures
        !profile_wins::<M, R>(None),
        profile.addr is Some && profile.http_routes@.len() >= 1 ==> profile_wins(Some(profile)),
        profile.addr is Some && profile.targets@.len() >= 1 ==> profile_wins(Some(profile)),
        profile.addr is None ==> !profile_wins(Some(profile)),
        profile.http_routes@.len() == 0 && profile.targets@.len() == 0 ==> !profile_wins(
            Some(profile),
        ),
{
}

/// The routes of a profile are all of its routes and targets, under the address that they are
/// asked for.
pub proof fn profile_routes_are_taken_over<M, R>(addr: NameAddr, profile: Profile<M, R>)
    ensures
        profile_routes(addr, profile).addr == addr,
        profile_routes(addr, profile).routes@ == profile.http_routes@,
        profile_routes(addr, profile).targets@ == profile.targets@,
{
}

/// Whether parameters are those of HTTP routes as a policy has them.
pub open spec fn taken_over<M, F, P, MH, FH, PH, MG, FG, PG, FO>(
    params: Params<Option<M>, F, Option<P>>,
    addr: Addr,
    http: HttpPolicy<M, F, P>,
    policy: ClientPolicy<MH, FH, PH, MG, FG, PG, FO>,
) -> bool {
    &&& params.addr == addr
    &&& params.meta == policy.parent
    &&& params.backends == policy.backends
    &&& params.routes == http.routes
    &&& params.failure_accrual == http.failure_accrual
    &&& params.retry_after is None
}

/// The routes of a policy are taken over as they are. Where the protocol is found out, they are
/// those for the version of the request; where the policy fixes it, they are those of the policy,
/// whatever the version. Connections that are not HTTP have none.
pub proof fn policy_routes_go_by_protocol<MH, FH, PH, MG, FG, PG, FO>(
    addr: Addr,
    version: Version,
    policy: ClientPolicy<MH, FH, PH, MG, FG, PG, FO>,
)
    ensures
        ({
            let r = routes_of_policy(addr, version, policy);
            &&& policy.protocol is Opaque || policy.protocol is Tls ==> r is None
            &&& policy.protocol matches Protocol::Grpc(grpc) ==> (r matches Some(
                PolicyParams::Grpc(params),
            ) && taken_over(params, addr, grpc, policy))
            &&& policy.protocol matches Protocol::Http1(http) ==> (r matches Some(
                PolicyParams::Http(params),
            ) && taken_over(params, addr, http, policy))
            &&& policy.protocol matches Protocol::Http2(http) ==> (r matches Some(
                PolicyParams::Http(params),
            ) && taken_over(params, addr, http, policy))
            &&& policy.protocol matches Protocol::Detect { http1, http2, .. } ==> {
                &&& version is Http1 ==> (r matches Some(PolicyParams::Http(params)) && taken_over(
                    params,
                    addr,
                    http1,
                    policy,
                ))
                &&& version is H2 ==> (r matches Some(PolicyParams::Http(params)) && taken_over(
                    params,
                    addr,
                    http2,
                    policy,
                ))
            }
        }),
{
}

/// The address of a logical target is all of its identity, whatever its routes are.
pub proof fn logical_targets_agree_as_their_addresses<MH, FH, PH, MG, FG, PG, M, R>(
    a: Logical<MH, FH, PH, MG, FG, PG, M, R>,
    b: Logical<MH, FH, PH, MG, FG, PG, M, R>,
)
    ensures
        vstd::std_specs::cmp::PartialEqSpec::eq_spec(&a, &b)
            == vstd::std_specs::cmp::PartialEqSpec::eq_spec(&a.addr, &b.addr),
{
}

} // verus!
