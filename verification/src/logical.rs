//! Routing of HTTP requests to concrete backends.

use crate::addr::Addr;
use crate::logical::policy::{Policy, PolicyParams};
use crate::target::{Backend, Concrete, Dispatch, KnownEndpoint};
use std::sync::Arc;
use vstd::prelude::*;

pub mod policy;
pub mod profile;
pub mod router;

verus! {

/// The address that is routed.
#[derive(Debug)]
pub struct LogicalAddr(pub Addr);

/// A request matches no route.
#[derive(Clone, Copy, Debug)]
pub struct NoRoute;

/// Routes of any of the three kinds.
#[derive(Debug)]
pub enum Routes<MH, FH, PH, MG, FG, PG, M, R> {
    Policy(PolicyParams<MH, FH, PH, MG, FG, PG>),
    Profile(profile::Routes<M, R>),
    /// Everything goes to one endpoint.
    Endpoint(KnownEndpoint),
}

/// Routes over concrete backends.
#[derive(Debug)]
pub enum RouterParams<T, MH, FH, PH, MG, FG, PG, M, R> {
    Policy(Policy<T, MH, FH, PH, MG, FG, PG>),
    Profile(profile::Params<T, M, R>),
    Endpoint(KnownEndpoint, Arc<T>),
}

impl<MH, FH, PH, MG, FG, PG, M, R> Routes<MH, FH, PH, MG, FG, PG, M, R> {
    pub open spec fn valid(self) -> bool {
        match self {
            Routes::Policy(p) => p.valid(),
            Routes::Profile(p) => p.valid(),
            Routes::Endpoint(endpoint) => endpoint.addr.port != 0,
        }
    }
}

impl<T, MH, FH, PH, MG, FG, PG, M, R> RouterParams<T, MH, FH, PH, MG, FG, PG, M, R> {
    /// Whether the routes are the given ones over concrete backends.
    pub open spec fn implements(
        self,
        routes: Routes<MH, FH, PH, MG, FG, PG, M, R>,
        parent: Arc<T>,
    ) -> bool {
        match (routes, self) {
            (
                Routes::Policy(PolicyParams::Http(rts)),
                RouterParams::Policy(Policy::Http(r)),
            ) => r.implements(rts, parent),
            (
                Routes::Policy(PolicyParams::Grpc(rts)),
                RouterParams::Policy(Policy::Grpc(r)),
            ) => r.implements(rts, parent),
            (Routes::Profile(rts), RouterParams::Profile(p)) => p.implements(rts, parent),
            (Routes::Endpoint(endpoint), RouterParams::Endpoint(e, p)) => e == endpoint && p
                == parent,
            _ => false,
        }
    }

    pub fn new(routes: &Routes<MH, FH, PH, MG, FG, PG, M, R>, parent: Arc<T>) -> (r: Self)
        requires
            routes.valid(),
        ensures
            r.implements(*routes, parent),
    {
        match routes {
            Routes::Policy(routes) => RouterParams::Policy(Policy::new(routes, parent)),
            Routes::Profile(routes) => RouterParams::Profile(profile::Params::new(routes, parent)),
            Routes::Endpoint(endpoint) => RouterParams::Endpoint(endpoint.copy(), parent),
        }
    }

    /// The one backend of routes that go to an endpoint: forwarding, without an authority of its
    /// own and without a circuit breaker.
    pub fn endpoint_concrete(&self) -> (r: Option<Concrete<T>>)
        ensures
            match *self {
                RouterParams::Endpoint(endpoint, parent) => r == Some(
                    Concrete {
                        backend: Backend {
                            target: Dispatch::Forward(endpoint.addr, endpoint.metadata),
                            authority: None,
                            parent,
                            parent_ref: endpoint.endpoint_ref,
                            backend_ref: endpoint.endpoint_ref,
                        },
                        failure_accrual: None,
                        retry_after: None,
                    },
                ),
                _ => r is None,
            },
    {
        match self {
            RouterParams::Endpoint(endpoint, parent) => Some(
                Concrete {
                    backend: Backend {
                        target: Dispatch::Forward(endpoint.addr, endpoint.metadata.clone()),
                        authority: None,
                        parent: parent.clone(),
                        parent_ref: endpoint.endpoint_ref.clone(),
                        backend_ref: endpoint.endpoint_ref.clone(),
                    },
                    failure_accrual: None,
                    retry_after: None,
                },
            ),
            _ => None,
        }
    }

    pub open spec fn address(self) -> Addr {
        match self {
            RouterParams::Policy(Policy::Http(r)) => r.addr,
            RouterParams::Policy(Policy::Grpc(r)) => r.addr,
            RouterParams::Profile(p) => Addr::Name(p.addr),
            RouterParams::Endpoint(endpoint, _) => Addr::Socket(endpoint.addr),
        }
    }

    /// The address that is routed.
    pub fn logical_addr(&self) -> (a: LogicalAddr)
        ensures
            a.0 == self.address(),
    {
        match self {
            RouterParams::Policy(p) => LogicalAddr(p.logical_addr()),
            RouterParams::Profile(p) => LogicalAddr(Addr::Name(p.addr.copy())),
            RouterParams::Endpoint(endpoint, _) => LogicalAddr(Addr::Socket(endpoint.addr)),
        }
    }
}

/// Routes of a kind stay of that kind, and keep the address that they are for.
pub proof fn routers_keep_kind_and_address<T, MH, FH, PH, MG, FG, PG, M, R>(
    router: RouterParams<T, MH, FH, PH, MG, FG, PG, M, R>,
    routes: Routes<MH, FH, PH, MG, FG, PG, M, R>,
    parent: Arc<T>,
)
    requires
        router.implements(routes, parent),
    ensures
        routes matches Routes::Policy(PolicyParams::Http(rts)) ==> router.address() == rts.addr
            && (router matches RouterParams::Policy(Policy::Http(_))),
        routes matches Routes::Policy(PolicyParams::Grpc(rts)) ==> router.address() == rts.addr
            && (router matches RouterParams::Policy(Policy::Grpc(_))),
        routes matches Routes::Profile(rts) ==> router.address() == Addr::Name(rts.addr)
            && router is Profile,
        routes matches Routes::Endpoint(endpoint) ==> router.address() == Addr::Socket(endpoint.addr)
            && router == RouterParams::<T, MH, FH, PH, MG, FG, PG, M, R>::Endpoint(endpoint, parent),
{
}

} // verus!
