use ahash::AHashSet;
use linkerd_app_outbound::addr::{Addr, IpAddr, NameAddr, SocketAddr};
use linkerd_app_outbound::client_policy::{ConsecutiveFailures, ExponentialBackoff, FailureAccrual};
use linkerd_app_outbound::logical::policy::{
    BackendDispatcher, Distribution, Params, Policy, PolicyBackend, PolicyDistribution,
    PolicyParams, PolicyRouteBackend, Queue, RoutePolicy, RouteTable, Router, Rule,
};
use linkerd_app_outbound::logical::profile::{
    self, default_ewma_config, service_meta, should_override_policy, Profile, Target,
};
use linkerd_app_outbound::logical::router::{NewRoute, Update};
use linkerd_app_outbound::logical::{LogicalAddr, NoRoute, RouterParams, Routes};
use linkerd_app_outbound::target::{
    Backend, Concrete, Dispatch, EwmaConfig, KnownEndpoint, Meta, Metadata, ProtocolHint,
    RetryAfterConfig,
};
use linkerd_app_outbound::time::Duration;
use std::collections::hash_map::DefaultHasher;
use std::hash::{Hash, Hasher};
use std::sync::Arc;

fn name(name: &str, port: u16) -> NameAddr {
    NameAddr { name: name.to_string(), port }
}

fn sock(last: u8, port: u16) -> SocketAddr {
    SocketAddr { ip: IpAddr::V4(0x7f00_0000 + last as u32), port }
}

fn queue() -> Queue {
    Queue { capacity: 10, failfast_timeout: Duration::from_secs(1) }
}

fn resource(kind: &str, ns: &str, name: &str, port: Option<u16>) -> Arc<Meta> {
    Arc::new(Meta::Resource {
        group: "core".to_string(),
        kind: kind.to_string(),
        namespace: ns.to_string(),
        name: name.to_string(),
        section: None,
        port,
    })
}

fn endpoint(last: u8, port: u16) -> KnownEndpoint {
    KnownEndpoint {
        addr: sock(last, port),
        metadata: Arc::new(Metadata::unknown()),
        endpoint_ref: resource("Pod", "ns", "pod", Some(port)),
    }
}

fn hash_of<T: Hash>(value: &T) -> u64 {
    let mut hasher = DefaultHasher::new();
    value.hash(&mut hasher);
    hasher.finish()
}

fn base(
    failure_accrual: Option<FailureAccrual>,
    retry_after: Option<RetryAfterConfig>,
) -> Concrete<()> {
    let addr = name("example.com", 1234);
    let meta = Meta::new_default("test");
    Concrete {
        backend: Backend {
            target: Dispatch::Balance(addr.clone(), default_ewma_config()),
            authority: Some(addr),
            parent: Arc::new(()),
            parent_ref: meta.clone(),
            backend_ref: meta,
        },
        failure_accrual,
        retry_after,
    }
}

fn some_accrual() -> FailureAccrual {
    FailureAccrual::Consecutive(ConsecutiveFailures {
        max_failures: 3,
        backoff: ExponentialBackoff {
            min: Duration::from_secs(1),
            max: Duration::from_secs(60),
            jitter_percent: 0,
        },
        respect_retry_after_hint: false,
    })
}

#[test]
fn failure_accrual_does_not_affect_identity() {
    let without = base(None, None);
    let with = base(Some(some_accrual()), None);
    assert_eq!(without, with);
    assert_eq!(hash_of(without.key()), hash_of(with.key()));
}

#[test]
fn retry_after_does_not_affect_identity() {
    let without = base(None, None);
    let with = base(None, Some(RetryAfterConfig { max_duration: Duration::from_secs(30) }));
    assert_eq!(without, with);
    assert_eq!(hash_of(without.key()), hash_of(with.key()));
}

#[test]
fn breaker_config_does_not_affect_identity() {
    let without = base(None, None);
    let with = base(
        Some(some_accrual()),
        Some(RetryAfterConfig { max_duration: Duration::from_secs(30) }),
    );
    assert_eq!(without, with);
    assert_eq!(hash_of(without.key()), hash_of(with.key()));

    let mut different = base(None, None);
    different.backend.target =
        Dispatch::Balance(name("other.example.com", 1234), default_ewma_config());
    assert_ne!(without, different);
    assert_ne!(hash_of(without.key()), hash_of(different.key()));
}

#[test]
fn every_identity_field_tells_backends_apart() {
    let a = base(None, None);
    let mut b = a.copy();
    assert_eq!(a, b);
    b.backend.authority = None;
    assert_ne!(a, b);
    let mut b = a.copy();
    b.backend.parent_ref = Meta::new_default("other");
    assert_ne!(a, b);
    let mut b = a.copy();
    b.backend.backend_ref = resource("Service", "ns", "test", None);
    assert_ne!(a, b);
    let forward = |m| Dispatch::Forward(sock(1, 80), Arc::new(m));
    assert_eq!(forward(Metadata::unknown()), forward(Metadata::unknown()));
    let mut m = Metadata::unknown();
    m.protocol_hint = ProtocolHint::Http2;
    assert_ne!(forward(Metadata::unknown()), forward(m));
    let fail = |m: &str| Dispatch::Fail { message: Arc::new(m.to_string()) };
    assert_eq!(fail("a"), fail("a"));
    assert_ne!(fail("a"), fail("b"));
    assert_ne!(Addr::Name(name("a", 1)), Addr::Socket(sock(1, 1)));
    assert_eq!(Addr::Socket(sock(1, 1)), Addr::Socket(sock(1, 1)).clone());
}

fn balance(svc: &str) -> PolicyBackend {
    PolicyBackend {
        meta: resource("Service", "ns", svc, Some(8080)),
        queue: queue(),
        dispatcher: BackendDispatcher::BalanceP2c {
            ewma: EwmaConfig {
                decay: Duration::from_secs(10),
                default_rtt: Duration::from_millis(300),
            },
            path: name(&format!("{svc}.ns.svc.cluster.local"), 8080),
        },
    }
}

fn rule(
    header: Option<&'static str>,
    route: &str,
    distribution: PolicyDistribution<&'static str>,
) -> Rule<Option<&'static str>, RoutePolicy<&'static str, u8>> {
    Rule {
        matches: Arc::new(vec![header]),
        policy: RoutePolicy {
            meta: resource("HTTPRoute", "ns", route, None),
            filters: Arc::new(vec!["route-filter"]),
            params: Arc::new(7),
            distribution,
        },
    }
}

fn first(backend: PolicyBackend) -> PolicyDistribution<&'static str> {
    PolicyDistribution::FirstAvailable(vec![PolicyRouteBackend {
        filters: Arc::new(vec!["backend-filter"]),
        backend,
    }])
}

fn policy() -> Params<Option<&'static str>, &'static str, u8> {
    let fail = PolicyBackend {
        meta: Meta::new_default("ignored"),
        queue: queue(),
        dispatcher: BackendDispatcher::Fail { message: Arc::new("no".to_string()) },
    };
    let forward = PolicyBackend {
        meta: Meta::new_default("ignored"),
        queue: queue(),
        dispatcher: BackendDispatcher::Forward(endpoint(1, 8080)),
    };
    let random = PolicyDistribution::RandomAvailable(vec![
        (PolicyRouteBackend { filters: Arc::new(vec![]), backend: forward.copy() }, 0),
        (PolicyRouteBackend { filters: Arc::new(vec![]), backend: balance("special") }, 3),
    ]);
    Params {
        addr: Addr::Socket(sock(1, 8080)),
        meta: resource("Service", "ns", "papa", Some(7979)),
        routes: Arc::new(vec![RouteTable {
            hosts: Arc::new(vec![]),
            rules: vec![
                rule(Some("x-special"), "special", random),
                rule(None, "default", first(balance("default"))),
                rule(None, "empty", PolicyDistribution::Empty),
            ],
        }]),
        backends: Arc::new(vec![balance("default"), balance("special"), forward, fail]),
        failure_accrual: Some(some_accrual()),
        retry_after: None,
    }
}

#[test]
fn header_based_route() {
    let router = Router::new(&policy(), Arc::new("parent"));
    assert_eq!(router.addr, Addr::Socket(sock(1, 8080)));
    assert_eq!(router.backends.len(), 4);
    let default = &router.backends[0];
    let addr = name("default.ns.svc.cluster.local", 8080);
    let ewma =
        EwmaConfig { decay: Duration::from_secs(10), default_rtt: Duration::from_millis(300) };
    assert_eq!(default.backend.target, Dispatch::Balance(addr.clone(), ewma));
    assert_eq!(default.backend.authority, Some(addr));
    assert_eq!(*default.backend.backend_ref, *resource("Service", "ns", "default", Some(8080)));
    assert_eq!(*default.backend.parent_ref, *resource("Service", "ns", "papa", Some(7979)));
    assert_eq!(default.failure_accrual, Some(some_accrual()));
    let forward = &router.backends[2];
    assert_eq!(*forward.backend.backend_ref, *resource("Pod", "ns", "pod", Some(8080)));
    assert_eq!(forward.backend.authority, None);
    let fail = &router.backends[3];
    assert_eq!(*fail.backend.backend_ref, *Meta::new_default("fail"));

    let rules = &router.routes[0].rules;
    assert_eq!(*rules[0].matches, vec![Some("x-special")]);
    assert_eq!(*rules[0].policy.route_ref, *resource("HTTPRoute", "ns", "special", None));
    match &rules[0].policy.distribution {
        Distribution::RandomAvailable(bs) => {
            assert_eq!((bs[0].1, bs[1].1), (0, 3));
            assert_eq!(bs[0].0.concrete, router.backends[2], "routes share backends");
            assert_eq!(bs[1].0.concrete, router.backends[1]);
        }
        other => panic!("unexpected distribution {other:?}"),
    }
    match &rules[1].policy.distribution {
        Distribution::FirstAvailable(bs) => {
            assert_eq!(bs[0].concrete, router.backends[0]);
            assert_eq!(*bs[0].filters, vec!["backend-filter"]);
            assert_eq!(*bs[0].route_ref, *resource("HTTPRoute", "ns", "default", None));
        }
        other => panic!("unexpected distribution {other:?}"),
    }
    let chosen = router.select(Some((0, 1))).expect("the rule is there");
    assert_eq!(*chosen.route_ref, *resource("HTTPRoute", "ns", "default", None));
    assert!(router.select(None).is_err());
    assert!(matches!(rules[2].policy.distribution, Distribution::Empty));
    assert_eq!(*rules[2].policy.params, 7);
    assert_eq!(*rules[2].policy.filters, vec!["route-filter"]);
    assert_eq!(*rules[2].policy.parent, "parent");
}

fn profile_routes(targets: Vec<Target>) -> profile::Routes<&'static str, &'static str> {
    profile::Routes {
        addr: name("web.ns.svc.cluster.local", 80),
        routes: Arc::new(vec![(Arc::new("match"), Arc::new("route"))]),
        targets: Arc::new(targets),
    }
}

#[test]
fn profile_without_targets_balances_over_its_address() {
    let params = profile::Params::new(&profile_routes(vec![]), Arc::new(()));
    assert_eq!(params.backends.len(), 1);
    let backend = &params.backends[0].backend;
    let addr = name("web.ns.svc.cluster.local", 80);
    assert_eq!(backend.target, Dispatch::Balance(addr, default_ewma_config()));
    assert_eq!(*backend.parent_ref, *resource("Service", "ns", "web", Some(80)));
    assert_eq!(*backend.backend_ref, *backend.parent_ref);
    assert_eq!(params.backends[0].failure_accrual, None);
    assert_eq!(params.profile_routes.len(), 2);
    assert_eq!(params.profile_routes[0].0.as_deref(), Some(&"match"));
    assert!(params.profile_routes[1].0.is_none());
    assert!(params.profile_routes[1].1.profile.is_none());
    match &*params.profile_routes[1].1.distribution {
        profile::Distribution::FirstAvailable(bs) => assert_eq!(bs[0], params.backends[0]),
        other => panic!("unexpected distribution {other:?}"),
    }
    let chosen = params.select(&vec![false, true]).expect("the last route takes everything");
    assert!(chosen.profile.is_none());
    let chosen = params.select(&vec![true, true]).expect("the first match wins");
    assert_eq!(chosen.profile.as_deref(), Some(&"route"));
    assert!(params.select(&vec![false, false]).is_none());
}

#[test]
fn profile_targets_are_weighted() {
    let targets = vec![
        Target { addr: name("a.ns.svc.cluster.local", 80), weight: 9 },
        Target { addr: name("elsewhere.example.com", 81), weight: 1 },
    ];
    let params = profile::Params::new(&profile_routes(targets), Arc::new(()));
    assert_eq!(params.backends.len(), 2);
    assert_eq!(*params.backends[1].backend.backend_ref, *Meta::new_default("unknown"));
    assert_eq!(
        *params.backends[1].backend.parent_ref,
        *resource("Service", "ns", "web", Some(80))
    );
    match &*params.profile_routes[0].1.distribution {
        profile::Distribution::RandomAvailable(bs) => {
            assert_eq!((bs[0].1, bs[1].1), (9, 1));
            assert_eq!(bs[1].0, params.backends[1]);
        }
        other => panic!("unexpected distribution {other:?}"),
    }
}

#[test]
fn services_are_told_by_their_names() {
    let meta = service_meta(&name("web.ns.SVC.cluster.local", 80)).expect("a service");
    assert_eq!(*meta, *resource("Service", "ns", "web", Some(80)));
    assert!(service_meta(&name("web.ns.svc", 80)).is_some());
    assert!(service_meta(&name("web.ns", 80)).is_none());
    assert!(service_meta(&name("web.ns.pod.cluster.local", 80)).is_none());
    assert!(service_meta(&name("web.ns.svc.cluster.local", 0)).is_none());
}

#[test]
fn profile_overrides_policy_only_if_it_routes() {
    let mut p: Profile<&str, &str> = Profile {
        addr: Some(name("web.ns.svc.cluster.local", 80)),
        http_routes: Arc::new(vec![]),
        targets: Arc::new(vec![]),
        endpoint: None,
    };
    assert!(should_override_policy(&p).is_none());
    p.targets = Arc::new(vec![Target { addr: name("a.b", 1), weight: 1 }]);
    assert_eq!(should_override_policy(&p), Some(name("web.ns.svc.cluster.local", 80)));
    p.addr = None;
    assert!(should_override_policy(&p).is_none());
}

type AnyRoutes = Routes<
    Option<&'static str>,
    &'static str,
    u8,
    Option<&'static str>,
    &'static str,
    u8,
    &'static str,
    &'static str,
>;

#[test]
fn routes() {
    let by_policy: AnyRoutes = Routes::Policy(PolicyParams::Grpc(policy()));
    let params = RouterParams::new(&by_policy, Arc::new(()));
    assert!(matches!(params, RouterParams::Policy(Policy::Grpc(_))));
    let LogicalAddr(addr) = params.logical_addr();
    assert_eq!(addr, Addr::Socket(sock(1, 8080)));
    assert!(params.endpoint_concrete().is_none());

    let by_profile: AnyRoutes = Routes::Profile(profile_routes(vec![]));
    let params = RouterParams::new(&by_profile, Arc::new(()));
    assert_eq!(params.logical_addr().0, Addr::Name(name("web.ns.svc.cluster.local", 80)));

    let direct: AnyRoutes = Routes::Endpoint(endpoint(4, 8080));
    let params = RouterParams::new(&direct, Arc::new(()));
    assert_eq!(params.logical_addr().0, Addr::Socket(sock(4, 8080)));
    let concrete = params.endpoint_concrete().expect("one endpoint");
    assert_eq!(
        concrete.backend.target,
        Dispatch::Forward(sock(4, 8080), Arc::new(Metadata::unknown()))
    );
    assert_eq!(*concrete.backend.parent_ref, *concrete.backend.backend_ref);
    let _ = NoRoute;
}

fn set(items: &[u64]) -> AHashSet<u64> {
    items.iter().copied().collect()
}

#[test]
fn backends_follow_the_profile() {
    let mut update: Update = NewRoute { new_backend: (), route_layer: () }.new_service();
    let (changes, rebuild) = update.update(&set(&[1, 2]), &vec![(10, 20)]);
    assert!(changes.changed && rebuild);
    let mut added = changes.added;
    added.sort();
    assert_eq!(added, vec![1, 2]);
    assert!(changes.removed.is_empty());

    let (changes, rebuild) = update.update(&set(&[2, 1]), &vec![(10, 20)]);
    assert!(!changes.changed && !rebuild, "nothing is new");

    let (changes, rebuild) = update.update(&set(&[2, 3]), &vec![(10, 20)]);
    assert!(changes.changed && rebuild);
    assert_eq!((changes.added, changes.removed), (vec![3], vec![1]));

    let (changes, rebuild) = update.update(&set(&[2, 3]), &vec![(10, 21)]);
    assert!(!changes.changed && rebuild, "only the routes changed");
    assert_eq!(update.matches, vec![(10, 21)]);
    assert_eq!(update.route_for(Some(0)), Some(21));
    assert_eq!(update.route_for(None), None);

    let (changes, rebuild) = update.update(&set(&[]), &vec![]);
    assert!(changes.changed && rebuild);
    assert!(update.backends.is_empty());
    let changes = update.update_backends(&set(&[]));
    assert!(!changes.changed);
}
