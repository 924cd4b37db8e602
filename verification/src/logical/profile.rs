//! Routing by service profile: a list of routes over weighted targets.

use crate::addr::NameAddr;
use crate::target::{Backend, Concrete, Dispatch, EwmaConfig, KnownEndpoint, Meta};
use crate::text::{
    char_parts, char_parts_come_back, eq_ignore_ascii_case_chars, joined,
    only_letter_case_is_ignored_in_chars, same_chars, split_chars,
};
use crate::time::Duration;
use std::sync::Arc;
use vstd::prelude::*;

verus! {

/// A target that requests may go to, and the share of requests that it gets.
#[derive(Debug)]
pub struct Target {
    pub addr: NameAddr,
    pub weight: u32,
}

/// The routes and targets of a profile.
#[derive(Debug)]
pub struct Routes<M, R> {
    pub addr: NameAddr,
    pub routes: Arc<Vec<(Arc<M>, Arc<R>)>>,
    pub targets: Arc<Vec<Target>>,
}

/// How requests choose among concrete backends.
#[derive(Debug)]
pub enum Distribution<T> {
    FirstAvailable(Vec<Concrete<T>>),
    RandomAvailable(Vec<(Concrete<T>, u32)>),
}

/// A route over concrete backends. The route that takes all requests that no other route takes has
/// no profile.
#[derive(Debug)]
pub struct RouteParams<T, R> {
    pub parent: Arc<T>,
    pub addr: NameAddr,
    pub profile: Option<Arc<R>>,
    pub distribution: Arc<Distribution<T>>,
}

/// Routes over concrete backends. A route without a match takes all requests.
#[derive(Debug)]
pub struct Params<T, M, R> {
    pub parent: Arc<T>,
    pub addr: NameAddr,
    pub profile_routes: Vec<(Option<Arc<M>>, RouteParams<T, R>)>,
    pub backends: Vec<Concrete<T>>,
}

/// The latency that is assumed of endpoints at first, and how fast the average forgets.
pub open spec fn default_ewma() -> EwmaConfig {
    EwmaConfig {
        default_rtt: Duration { nanos: 30_000_000 },
        decay: Duration { nanos: 10_000_000_000 },
    }
}

pub fn default_ewma_config() -> (e: EwmaConfig)
    ensures
        e == default_ewma(),
{
    EwmaConfig { default_rtt: Duration::from_millis(30), decay: Duration::from_secs(10) }
}

/// A service profile.
#[derive(Debug)]
pub struct Profile<M, R> {
    pub addr: Option<NameAddr>,
    pub http_routes: Arc<Vec<(Arc<M>, Arc<R>)>>,
    pub targets: Arc<Vec<Target>>,
    /// The endpoint, if the profile is that of a single one.
    pub endpoint: Option<KnownEndpoint>,
}

impl<M, R> Profile<M, R> {
    /// Whether the profile says anything about how requests are routed.
    pub open spec fn is_novel(self) -> bool {
        self.http_routes@.len() > 0 || self.targets@.len() > 0
    }

    pub fn has_routes_or_targets(&self) -> (b: bool)
        ensures
            b == self.is_novel(),
    {
        let routes: &Vec<(Arc<M>, Arc<R>)> = &self.http_routes;
        let targets: &Vec<Target> = &self.targets;
        routes.len() > 0 || targets.len() > 0
    }
}

/// The address of a profile that takes the place of a policy: one that has routes or targets.
pub open spec fn overrides_policy<M, R>(profile: Profile<M, R>) -> Option<NameAddr> {
    if profile.is_novel() {
        profile.addr
    } else {
        None
    }
}

pub fn should_override_policy<M, R>(profile: &Profile<M, R>) -> (r: Option<NameAddr>)
    ensures
        r == overrides_policy(*profile),
{
    if profile.has_routes_or_targets() {
        crate::target::copy_authority(&profile.addr)
    } else {
        None
    }
}

/// Whether an address is that of a service of the cluster: `name.namespace.svc`, with anything
/// behind it, and a port.
pub open spec fn is_service(addr: NameAddr) -> bool {
    let labels = char_parts(addr.name@, '.');
    &&& labels.len() >= 3
    &&& same_chars(labels[2], "svc"@)
    &&& addr.port != 0
}

/// Whether a reference is the one for an address: to the service if it is one, else to something
/// unknown.
pub open spec fn meta_for(meta: Meta, addr: NameAddr) -> bool {
    let labels = char_parts(addr.name@, '.');
    if is_service(addr) {
        meta matches Meta::Resource { group, kind, namespace, name, section, port } && group@
            == "core"@ && kind@ == "Service"@ && namespace@ == labels[1] && name@ == labels[0]
            && section is None && port == Some(addr.port)
    } else {
        meta.is_default("unknown"@)
    }
}

/// The reference to the service that an address stands for.
pub fn service_meta(addr: &NameAddr) -> (r: Option<Arc<Meta>>)
    ensures
        r is Some <==> is_service(*addr),
        r matches Some(meta) ==> meta_for(*meta, *addr),
{
    let parts = split_chars(addr.name.as_str(), '.');
    let ghost labels = char_parts(addr.name@, '.');
    proof {
        assert(parts@.map_values(|p: String| p@).len() == parts@.len());
        assert forall|i: int| 0 <= i < parts@.len() implies #[trigger] parts@[i]@ == labels[i] by {
            assert(parts@.map_values(|p: String| p@)[i] == parts@[i]@);
        }
    }
    if parts.len() < 3 {
        return None;
    }
    if !eq_ignore_ascii_case_chars(parts[2].as_str(), "svc") {
        return None;
    }
    if addr.port == 0 {
        return None;
    }
    Some(
        Arc::new(
            Meta::Resource {
                group: "core".to_owned(),
                kind: "Service".to_owned(),
                namespace: parts[1].clone(),
                name: parts[0].clone(),
                section: None,
                port: Some(addr.port),
            },
        ),
    )
}

/// The reference for an address.
fn meta_or_unknown(addr: &NameAddr) -> (meta: Arc<Meta>)
    ensures
        meta_for(*meta, *addr),
{
    match service_meta(addr) {
        Some(meta) => meta,
        None => Meta::new_default("unknown"),
    }
}

/// Whether a concrete backend is the one for an address: balanced over its endpoints, without a
/// circuit breaker.
pub open spec fn concrete_for<T>(
    c: Concrete<T>,
    addr: NameAddr,
    parent: Arc<T>,
    parent_ref: Arc<Meta>,
) -> bool {
    &&& c.backend.target == Dispatch::Balance(addr, default_ewma())
    &&& c.backend.authority == Some(addr)
    &&& c.backend.parent == parent
    &&& c.backend.parent_ref == parent_ref
    &&& meta_for(*c.backend.backend_ref, addr)
    &&& c.failure_accrual is None
    &&& c.retry_after is None
}

fn mk_concrete<T>(addr: &NameAddr, parent: &Arc<T>, parent_ref: &Arc<Meta>) -> (c: Concrete<T>)
    ensures
        concrete_for(c, *addr, *parent, *parent_ref),
{
    Concrete {
        backend: Backend {
            target: Dispatch::Balance(addr.copy(), default_ewma_config()),
            authority: Some(addr.copy()),
            parent: parent.clone(),
            parent_ref: parent_ref.clone(),
            backend_ref: meta_or_unknown(addr),
        },
        failure_accrual: None,
        retry_after: None,
    }
}

/// The backends of a profile: one for each target, or one for the address of the profile if it has
/// no targets.
pub open spec fn backends_for<T>(
    backends: Seq<Concrete<T>>,
    addr: NameAddr,
    targets: Seq<Target>,
    parent: Arc<T>,
    parent_ref: Arc<Meta>,
) -> bool {
    if targets.len() == 0 {
        backends.len() == 1 && concrete_for(backends[0], addr, parent, parent_ref)
    } else {
        backends.len() == targets.len() && forall|i: int|
            0 <= i < targets.len() ==> #[trigger] concrete_for(
                backends[i],
                targets[i].addr,
                parent,
                parent_ref,
            )
    }
}

/// The distribution of a profile: at random by the weights of its targets, or to the one backend
/// for its address if it has no targets.
pub open spec fn distribution_for<T>(
    d: Distribution<T>,
    addr: NameAddr,
    targets: Seq<Target>,
    parent: Arc<T>,
    parent_ref: Arc<Meta>,
) -> bool {
    if targets.len() == 0 {
        d matches Distribution::FirstAvailable(bs) && backends_for(
            bs@,
            addr,
            targets,
            parent,
            parent_ref,
        )
    } else {
        d matches Distribution::RandomAvailable(bs) && bs@.len() == targets.len() && forall|i: int|
            #![trigger bs@[i]]
            0 <= i < targets.len() ==> concrete_for(
                bs@[i].0,
                targets[i].addr,
                parent,
                parent_ref,
            ) && bs@[i].1 == targets[i].weight
    }
}

impl<M, R> Routes<M, R> {
    /// A random choice has something to choose from.
    pub open spec fn valid(self) -> bool {
        self.targets@.len() > 0 ==> exists|i: int|
            0 <= i < self.targets@.len() && (#[trigger] self.targets@[i]).weight > 0
    }
}

impl<T, M, R> Params<T, M, R> {
    /// Whether the routes are those of a profile, in the same order, with one behind them that
    /// takes all other requests. All of them share one distribution.
    pub open spec fn implements(self, routes: Routes<M, R>, parent: Arc<T>) -> bool {
        &&& self.parent == parent
        &&& self.addr == routes.addr
        &&& exists|parent_ref: Arc<Meta>|
            {
                &&& #[trigger] meta_for(*parent_ref, routes.addr)
                &&& backends_for(
                    self.backends@,
                    routes.addr,
                    routes.targets@,
                    parent,
                    parent_ref,
                )
                &&& self.profile_routes@.len() == routes.routes@.len() + 1
                &&& forall|i: int|
                    #![trigger self.profile_routes@[i]]
                    0 <= i < self.profile_routes@.len() ==> {
                        let (m, p) = self.profile_routes@[i];
                        &&& p.parent == parent
                        &&& p.addr == routes.addr
                        &&& distribution_for(
                            *p.distribution,
                            routes.addr,
                            routes.targets@,
                            parent,
                            parent_ref,
                        )
                        &&& p.distribution == self.profile_routes@[0].1.distribution
                        &&& if i < routes.routes@.len() {
                            m == Some(routes.routes@[i].0) && p.profile == Some(routes.routes@[i].1)
                        } else {
                            m is None && p.profile is None
                        }
                    }
            }
    }

    /// Makes the routes of a profile.
    pub fn new(routes: &Routes<M, R>, parent: Arc<T>) -> (p: Params<T, M, R>)
        requires
            routes.valid(),
        ensures
            p.implements(*routes, parent),
    {
        let parent_meta = meta_or_unknown(&routes.addr);
        let targets: &Vec<Target> = &routes.targets;
        let list: &Vec<(Arc<M>, Arc<R>)> = &routes.routes;
        let mut backends: Vec<Concrete<T>> = Vec::new();
        let distribution = if targets.len() == 0 {
            let concrete = Concrete {
                backend: Backend {
                    target: Dispatch::Balance(routes.addr.copy(), default_ewma_config()),
                    authority: Some(routes.addr.copy()),
                    parent: parent.clone(),
                    parent_ref: parent_meta.clone(),
                    backend_ref: parent_meta.clone(),
                },
                failure_accrual: None,
                retry_after: None,
            };
            backends.push(concrete.copy());
            let mut first: Vec<Concrete<T>> = Vec::new();
            first.push(concrete);
            Distribution::FirstAvailable(first)
        } else {
            let mut weighted: Vec<(Concrete<T>, u32)> = Vec::new();
            let mut i: usize = 0;
            while i < targets.len()
                invariant
                    i <= routes.targets@.len(),
                    targets@ == routes.targets@,
                    backends@.len() == i,
                    weighted@.len() == i,
                    forall|j: int|
                        0 <= j < i ==> #[trigger] concrete_for(
                            backends@[j],
                            routes.targets@[j].addr,
                            parent,
                            parent_meta,
                        ),
                    forall|j: int|
                        #![trigger weighted@[j]]
                        0 <= j < i ==> concrete_for(
                            weighted@[j].0,
                            routes.targets@[j].addr,
                            parent,
                            parent_meta,
                        ) && weighted@[j].1 == routes.targets@[j].weight,
                decreases routes.targets@.len() - i,
            {
                let concrete = mk_concrete(&targets[i].addr, &parent, &parent_meta);
                let weight: u32 = targets[i].weight;
                backends.push(concrete.copy());
                weighted.push((concrete, weight));
                i = i + 1;
            }
            Distribution::RandomAvailable(weighted)
        };
        let distribution = Arc::new(distribution);
        let mut profile_routes: Vec<(Option<Arc<M>>, RouteParams<T, R>)> = Vec::new();
        let mut i: usize = 0;
        while i < list.len()
            invariant
                i <= routes.routes@.len(),
                list@ == routes.routes@,
                profile_routes@.len() == i,
                distribution_for(
                    *distribution,
                    routes.addr,
                    routes.targets@,
                    parent,
                    parent_meta,
                ),
                forall|j: int|
                    #![trigger profile_routes@[j]]
                    0 <= j < i ==> {
                        let (m, p) = profile_routes@[j];
                        &&& p.parent == parent
                        &&& p.addr == routes.addr
                        &&& distribution_for(
                            *p.distribution,
                            routes.addr,
                            routes.targets@,
                            parent,
                            parent_meta,
                        )
                        &&& p.distribution == distribution
                        &&& m == Some(routes.routes@[j].0)
                        &&& p.profile == Some(routes.routes@[j].1)
                    },
            decreases routes.routes@.len() - i,
        {
            let req_match = list[i].0.clone();
            let profile = list[i].1.clone();
            let params = RouteParams {
                parent: parent.clone(),
                addr: routes.addr.copy(),
                profile: Some(profile),
                distribution: distribution.clone(),
            };
            profile_routes.push((Some(req_match), params));
            i = i + 1;
        }
        let params = RouteParams {
            parent: parent.clone(),
            addr: routes.addr.copy(),
            profile: None,
            distribution: distribution.clone(),
        };
        profile_routes.push((None, params));
        proof {
            assert(meta_for(*parent_meta, routes.addr));
        }
        Params { parent, addr: routes.addr.copy(), profile_routes, backends }
    }

    /// The route for a request: that of the first match that the request meets. `matched` holds
    /// for each match whether the request meets it.
    pub fn select(&self, matched: &Vec<bool>) -> (r: Option<&RouteParams<T, R>>)
        requires
            matched@.len() == self.profile_routes@.len(),
        ensures
            match r {
                Some(p) => exists|i: int|
                    0 <= i < matched@.len() && #[trigger] matched@[i] && *p
                        == self.profile_routes@[i].1 && forall|j: int| 0 <= j < i ==> !matched@[j],
                None => forall|j: int| 0 <= j < matched@.len() ==> !matched@[j],
            },
    {
        let mut i: usize = 0;
        while i < self.profile_routes.len()
            invariant
                i <= self.profile_routes@.len(),
                matched@.len() == self.profile_routes@.len(),
                forall|j: int| 0 <= j < i ==> !matched@[j],
            decreases self.profile_routes@.len() - i,
        {
            if matched[i] {
                proof {
                    assert(matched@[i as int]);
                }
                return Some(&self.profile_routes[i].1);
            }
            i = i + 1;
        }
        None
    }
}

/// The last route takes every request, so every request has a route.
pub proof fn every_request_has_a_route<T, M, R>(
    params: Params<T, M, R>,
    routes: Routes<M, R>,
    parent: Arc<T>,
)
    requires
        params.implements(routes, parent),
    ensures
        params.profile_routes@.len() >= 1,
        params.profile_routes@.last().0 is None,
{
}

/// A profile with an address takes the place of a policy, at that address, if it has a route, and
/// just as well if it has a target. One that has neither never does, nor does one without an
/// address.
pub proof fn routes_or_targets_override<M, R>(profile: Profile<M, R>, addr: NameAddr)
    ensures
        profile.addr == Some(addr) && profile.http_routes@.len() >= 1 ==> overrides_policy(profile)
            == Some(addr),
        profile.addr == Some(addr) && profile.targets@.len() >= 1 ==> overrides_policy(profile)
            == Some(addr),
        profile.http_routes@.len() == 0 && profile.targets@.len() == 0 ==> overrides_policy(profile)
            is None,
        profile.addr is None ==> overrides_policy(profile) is None,
        profile.http_routes@.len() >= 1 ==> profile.is_novel(),
        profile.targets@.len() >= 1 ==> profile.is_novel(),
        profile.http_routes@.len() == 0 && profile.targets@.len() == 0 ==> !profile.is_novel(),
{
}

/// The name of a service is read label by label: the first is the service, the second its
/// namespace, and the third says that it is one, in any case. What follows does not matter. A name
/// with fewer labels, another third label or no port is not that of a service.
pub proof fn service_names_are_read_by_label(addr: NameAddr, labels: Seq<Seq<char>>, meta: Meta)
    requires
        labels.len() >= 1,
        forall|i: int, j: int|
            0 <= i < labels.len() && 0 <= j < labels[i].len() ==> (#[trigger] labels[i][j]) != '.',
        addr.name@ == joined(labels, '.'),
    ensures
        is_service(addr) <==> {
            &&& labels.len() >= 3
            &&& addr.port >= 1
            &&& labels[2].len() == 3
            &&& labels[2][0] == 's' || labels[2][0] == 'S'
            &&& labels[2][1] == 'v' || labels[2][1] == 'V'
            &&& labels[2][2] == 'c' || labels[2][2] == 'C'
        },
        is_service(addr) && meta_for(meta, addr) ==> {
            &&& meta is Resource
            &&& meta->group@ == "core"@
            &&& meta->kind@ == "Service"@
            &&& meta->Resource_name@ == labels[0]
            &&& meta->namespace@ == labels[1]
            &&& meta->port == Some(addr.port)
            &&& meta->section is None
        },
        !is_service(addr) && meta_for(meta, addr) ==> meta.is_default("unknown"@),
{
    char_parts_come_back(labels, '.');
    reveal_strlit("svc");
    if labels.len() >= 3 {
        only_letter_case_is_ignored_in_chars(labels[2], "svc"@);
        let l = labels[2];
        if same_chars(l, "svc"@) {
            assert(l[0] == 's' || l[0] == 'S');
            assert(l[1] == 'v' || l[1] == 'V');
            assert(l[2] == 'c' || l[2] == 'C');
        }
    }
}

/// Whether a backend is balanced over the endpoints of an address with the usual estimate of
/// latency, 30 ms that decay over 10 s, and has no breaker.
pub open spec fn plainly_balanced<T>(c: Concrete<T>, addr: NameAddr, parent: Arc<T>) -> bool {
    &&& c.backend.target matches Dispatch::Balance(to, ewma) && to == addr && ewma.default_rtt.nanos
        == 30_000_000 && ewma.decay.nanos == 10_000_000_000
    &&& c.backend.authority == Some(addr)
    &&& c.backend.parent == parent
    &&& c.failure_accrual is None
    &&& c.retry_after is None
    &&& meta_for(*c.backend.backend_ref, addr)
}

/// A profile with targets spreads requests over all of them by their weights. One without sends
/// them to its own address.
pub proof fn requests_go_to_targets<T, M, R>(
    params: Params<T, M, R>,
    routes: Routes<M, R>,
    parent: Arc<T>,
    route: int,
    i: int,
)
    requires
        params.implements(routes, parent),
        0 <= route <= routes.routes@.len(),
    ensures
        params.profile_routes@.len() == routes.routes@.len() + 1,
        routes.targets@.len() == 0 ==> {
            &&& params.backends@.len() == 1
            &&& plainly_balanced(params.backends@[0], routes.addr, parent)
            &&& *params.profile_routes@[route].1.distribution matches Distribution::FirstAvailable(bs)
                && bs@.len() == 1 && plainly_balanced(bs@[0], routes.addr, parent)
        },
        routes.targets@.len() > 0 ==> {
            &&& params.backends@.len() == routes.targets@.len()
            &&& *params.profile_routes@[route].1.distribution matches Distribution::RandomAvailable(
                bs,
            ) && bs@.len() == routes.targets@.len() && (0 <= i < routes.targets@.len()
                ==> plainly_balanced(bs@[i].0, routes.targets@[i].addr, parent) && bs@[i].1
                == routes.targets@[i].weight)
            &&& 0 <= i < routes.targets@.len() ==> plainly_balanced(
                params.backends@[i],
                routes.targets@[i].addr,
                parent,
            )
        },
{
    let p = params.profile_routes@[route];
    if 0 <= i < routes.targets@.len() {
        let parent_ref = choose|parent_ref: Arc<Meta>|
            #[trigger] meta_for(*parent_ref, routes.addr) && backends_for(
                params.backends@,
                routes.addr,
                routes.targets@,
                parent,
                parent_ref,
            ) && distribution_for(
                *p.1.distribution,
                routes.addr,
                routes.targets@,
                parent,
                parent_ref,
            );
        assert(concrete_for(params.backends@[i], routes.targets@[i].addr, parent, parent_ref));
        if let Distribution::RandomAvailable(bs) = *p.1.distribution {
            assert(bs@[i].1 == routes.targets@[i].weight);
        }
    }
}

/// The routes of a profile keep their order and their settings, and requests that none of them
/// takes have one behind all of them.
pub proof fn routes_keep_their_order<T, M, R>(
    params: Params<T, M, R>,
    routes: Routes<M, R>,
    parent: Arc<T>,
    route: int,
)
    requires
        params.implements(routes, parent),
        0 <= route <= routes.routes@.len(),
    ensures
        ({
            let (m, p) = params.profile_routes@[route];
            &&& route < routes.routes@.len() ==> m == Some(routes.routes@[route].0) && p.profile
                == Some(routes.routes@[route].1)
            &&& route == routes.routes@.len() ==> m is None && p.profile is None
            &&& p.parent == parent
            &&& p.addr == routes.addr
        }),
        params.parent == parent,
        params.addr == routes.addr,
{
    let p = params.profile_routes@[route];
}

} // verus!
