use http::{HeaderMap, HeaderValue};
use linkerd_app_outbound::addr::{Addr, IpAddr, NameAddr, SocketAddr};
use linkerd_app_outbound::classify::Code;
use linkerd_app_outbound::detect::{after_detection, should_detect, Detected, Serve, Skip, Version};
use linkerd_app_outbound::discover::{
    origdst_policy, profile_policy, resolve, synthesize_balance_policy, synthesize_forward_policy,
    watch_step, AllowResolve, ClientPolicy, Discovery, HttpPolicy, LookupError, Protocol,
    Resolution, WatchAction, WatchEvent,
};
use linkerd_app_outbound::endpoint::{
    dispatch, Balance, ClientParams, ClientSettings, ClientTls, ConcreteEndpoint, Connect, DefaultAuthority,
    Dispatched, Endpoint, NoClientTls, ServerParams, SessionProtocol,
};
use linkerd_app_outbound::ingress::{
    ingress_profile_policy, ingress_resolve, opaq_logical, policy_routes, try_route,
    IngressResolution, OpaqLogical, RequestTarget, RequestVersion, RouteError, SelectTarget,
};
use linkerd_app_outbound::logical::policy::{
    BackendDispatcher, PolicyDistribution, PolicyParams, Queue,
};
use linkerd_app_outbound::logical::profile::{default_ewma_config, Profile, Target};
use linkerd_app_outbound::logical::Routes;
use linkerd_app_outbound::target::{Dispatch, KnownEndpoint, Meta, Metadata, ProtocolHint};
use linkerd_app_outbound::time::Duration;
use std::sync::Arc;

type TestPolicy = ClientPolicy<u8, u8, u8, u8, u8, u8, u8>;
type TestProfile = Profile<u8, u8>;

fn name(name: &str, port: u16) -> NameAddr {
    NameAddr { name: name.to_string(), port }
}

fn sock(last: u8, port: u16) -> SocketAddr {
    SocketAddr { ip: IpAddr::V4(0xc000_0200 + last as u32), port }
}

fn queue() -> Queue {
    Queue { capacity: 100, failfast_timeout: Duration::from_secs(3) }
}

fn endpoint(last: u8) -> KnownEndpoint {
    KnownEndpoint {
        addr: sock(last, 8080),
        metadata: Arc::new(Metadata::unknown()),
        endpoint_ref: Meta::new_default("pod"),
    }
}

fn profile() -> TestProfile {
    Profile {
        addr: None,
        http_routes: Arc::new(vec![]),
        targets: Arc::new(vec![]),
        endpoint: None,
    }
}

fn forward_addr(policy: &TestPolicy) -> SocketAddr {
    match &policy.backends[0].dispatcher {
        BackendDispatcher::Forward(e) => e.addr,
        other => panic!("unexpected dispatcher {other:?}"),
    }
}

#[test]
fn synthesized_policies_send_everything_to_one_backend() {
    let meta = Meta::new_default("m");
    let timeout = Duration::from_secs(10);
    let policy: TestPolicy = synthesize_forward_policy(&meta, timeout, queue(), endpoint(1));
    assert_eq!(*policy.parent, *meta);
    assert_eq!(forward_addr(&policy), sock(1, 8080));
    match &policy.protocol {
        Protocol::Detect { timeout: t, http1, http2, opaque } => {
            assert_eq!(*t, timeout);
            for http in [http1, http2] {
                assert!(http.failure_accrual.is_none());
                assert_eq!(http.routes.len(), 1);
                assert!(http.routes[0].hosts.is_empty());
                let rule = &http.routes[0].rules[0];
                assert_eq!(*rule.matches, vec![None]);
                assert!(rule.policy.filters.is_empty());
                match &rule.policy.distribution {
                    PolicyDistribution::FirstAvailable(bs) => assert_eq!(bs.len(), 1),
                    other => panic!("unexpected distribution {other:?}"),
                }
            }
            assert_eq!(opaque.len(), 1);
        }
        other => panic!("unexpected protocol {other:?}"),
    }
    let addr = name("web.ns.svc.cluster.local", 80);
    let policy: TestPolicy =
        synthesize_balance_policy(&meta, timeout, queue(), default_ewma_config(), &addr);
    match &policy.backends[0].dispatcher {
        BackendDispatcher::BalanceP2c { ewma, path } => {
            assert_eq!(*ewma, default_ewma_config());
            assert_eq!(*path, addr);
        }
        other => panic!("unexpected dispatcher {other:?}"),
    }
    assert_eq!(policy.backends[0].queue, queue());
}

fn lookup(status: Option<Code>) -> Result<u8, LookupError<&'static str>> {
    Err(LookupError { error: "policy", grpc_status: status })
}

#[test]
fn errors_propagate() {
    let r = resolve(Ok(Some(1)), lookup(Some(Code::Unavailable)));
    assert!(matches!(r, Resolution::Fail("policy")));
    let r = resolve(Ok(Some(1)), lookup(None));
    assert!(matches!(r, Resolution::Fail("policy")));
    let r = ingress_resolve(Ok(Some(1)), lookup(Some(Code::Internal)));
    assert!(matches!(r, IngressResolution::Fail("policy")));
}

#[test]
fn policies_come_first() {
    let r: Resolution<u8, u8, &str> = resolve(Ok(Some(1)), Ok(2));
    assert!(matches!(r, Resolution::Use(Some(1), 2)));
    let r: Resolution<u8, u8, &str> = resolve(Err("profile"), Ok(2));
    assert!(matches!(r, Resolution::Use(None, 2)));
    for status in [Code::NotFound, Code::Unimplemented] {
        let r = resolve(Ok(Some(1)), lookup(Some(status)));
        assert!(matches!(r, Resolution::FromProfile(1)));
        let r = resolve::<u8, u8, &str>(Err("profile"), lookup(Some(status)));
        assert!(matches!(r, Resolution::OrigDst));
        let r = ingress_resolve(Ok(Some(1)), lookup(Some(status)));
        assert!(matches!(r, IngressResolution::FromProfile(1)));
        let r = ingress_resolve::<u8, u8, &str>(Ok(None), lookup(Some(status)));
        assert!(matches!(r, IngressResolution::Fail("policy")));
    }
    let r: IngressResolution<u8, u8, &str> = ingress_resolve(Ok(None), Ok(2));
    assert!(matches!(r, IngressResolution::Use(None, 2)));
}

#[test]
fn policies_are_made_up_from_profiles() {
    let timeout = Duration::from_secs(1);
    let mut p = profile();
    let orig = sock(9, 8080);
    let orig_ref = Meta::new_default("orig");
    let policy: TestPolicy = profile_policy(&p, orig, &orig_ref, timeout, queue());
    assert_eq!(*policy.parent, *Meta::new_default("endpoint"));
    assert_eq!(forward_addr(&policy), orig);
    match &policy.backends[0].dispatcher {
        BackendDispatcher::Forward(e) => {
            assert_eq!(*e.metadata, Metadata::unknown());
            assert_eq!(*e.endpoint_ref, *orig_ref);
        }
        other => panic!("unexpected dispatcher {other:?}"),
    }
    let empty = || client_policy(Protocol::Opaque(vec![]));
    let policy: TestPolicy = ingress_profile_policy(&p, timeout, queue(), empty());
    assert_eq!(*policy.parent, *Meta::new_default("p"), "the empty policy is used");
    assert!(matches!(policy.protocol, Protocol::Opaque(_)));
    p.addr = Some(name("web", 80));
    let policy: TestPolicy = ingress_profile_policy(&p, timeout, queue(), empty());
    assert_eq!(*policy.parent, *Meta::new_default("profile"));
    p.endpoint = Some(endpoint(2));
    let policy: TestPolicy = profile_policy(&p, orig, &orig_ref, timeout, queue());
    assert_eq!(forward_addr(&policy), sock(2, 8080));
    let policy: TestPolicy = ingress_profile_policy(&p, timeout, queue(), empty());
    assert_eq!(*policy.parent, *Meta::new_default("endpoint"));
    let policy: TestPolicy = origdst_policy(orig, &orig_ref, timeout, queue());
    assert_eq!(*policy.parent, *Meta::new_default("fallback"));
    assert_eq!(forward_addr(&policy), orig);
    assert_eq!(watch_step(WatchEvent::ProfileChanged), WatchAction::Synthesize);
    assert_eq!(watch_step(WatchEvent::ProfileClosed), WatchAction::Stop);
    assert_eq!(watch_step(WatchEvent::PolicyClosed), WatchAction::Stop);
}

#[test]
fn discovery_is_no_identity() {
    let a = Discovery::new((Some(1), 2), "target");
    let b = Discovery::new((None, 3), "target");
    let c = Discovery::new((Some(1), 2), "other");
    assert_eq!(a, b);
    assert_ne!(a, c);
    assert_eq!(AllowResolve.filter(Some(Addr::Name(name("a", 1)))).unwrap(), Addr::Name(name("a", 1)));
    assert!(AllowResolve.filter(None).is_err());
}

#[test]
fn requests_choose_their_target() {
    let select = SelectTarget { orig_dst: sock(7, 443) };
    let r = select.select(Some(Ok(name("web.ns", 80))), RequestVersion::Http2).expect("a target");
    assert_eq!(r.version, Version::H2);
    assert_eq!(r.parent.discover_addr(), Addr::Name(name("web.ns", 80)));
    let r = select.select(None, RequestVersion::Http10).expect("a target");
    assert_eq!(r.version, Version::Http1);
    assert_eq!(r.parent.discover_addr(), Addr::Socket(sock(7, 443)));
    assert!(select.select(Some(Err(())), RequestVersion::Http11).is_err());
    let mut headers = HeaderMap::new();
    headers.insert("l5d-dst-override", HeaderValue::from_static("web.ns"));
    headers.insert("host", HeaderValue::from_static("web"));
    SelectTarget::strip_override(&mut headers);
    assert_eq!(headers.len(), 1);
}

fn http_policy(tag: &str) -> HttpPolicy<u8, u8, u8> {
    let policy: TestPolicy = synthesize_forward_policy(
        &Meta::new_default(tag),
        Duration::from_secs(1),
        queue(),
        endpoint(1),
    );
    match policy.protocol {
        Protocol::Detect { http1, .. } => http1,
        other => panic!("unexpected protocol {other:?}"),
    }
}

fn client_policy(protocol: Protocol<u8, u8, u8, u8, u8, u8, u8>) -> TestPolicy {
    ClientPolicy { parent: Meta::new_default("p"), protocol, backends: Arc::new(vec![]) }
}

#[test]
fn routes_of_policies_follow_the_protocol() {
    let addr = || Addr::Name(name("web", 80));
    let detect = client_policy(Protocol::Detect {
        timeout: Duration::from_secs(1),
        http1: http_policy("one"),
        http2: http_policy("two"),
        opaque: vec![],
    });
    let tag = |p: &TestPolicy, v| match policy_routes(addr(), v, p) {
        Some(PolicyParams::Http(r)) | Some(PolicyParams::Grpc(r)) => {
            r.routes[0].rules[0].policy.meta.clone()
        }
        None => Meta::new_default("none"),
    };
    assert_eq!(*tag(&detect, Version::Http1), *Meta::new_default("one"));
    assert_eq!(*tag(&detect, Version::H2), *Meta::new_default("two"));
    let http1 = client_policy(Protocol::Http1(http_policy("one")));
    assert_eq!(*tag(&http1, Version::H2), *Meta::new_default("one"));
    let http2 = client_policy(Protocol::Http2(http_policy("two")));
    assert_eq!(*tag(&http2, Version::H2), *Meta::new_default("two"));
    let grpc = client_policy(Protocol::Grpc(http_policy("rpc")));
    assert!(matches!(policy_routes(addr(), Version::H2, &grpc), Some(PolicyParams::Grpc(_))));
    let opaque = client_policy(Protocol::Opaque(vec![]));
    assert!(policy_routes(addr(), Version::H2, &opaque).is_none());
    let tls = client_policy(Protocol::Tls);
    assert!(policy_routes(addr(), Version::H2, &tls).is_none());
}

#[test]
fn ingress_routes_by_profile_then_policy() {
    let http = client_policy(Protocol::Http1(http_policy("one")));
    let opaque = client_policy(Protocol::Opaque(vec![]));
    let named = RequestTarget::Named(name("web", 80));
    let orig = RequestTarget::Orig(sock(3, 80));
    let mut p = profile();
    p.addr = Some(name("logical", 80));

    let r = try_route(Version::Http1, &named, Some(&p), &http).expect("the policy has routes");
    assert_eq!(r.parent.addr, Addr::Name(name("web", 80)));
    assert!(matches!(r.parent.routes, Routes::Policy(_)));
    let r = try_route::<u8, u8, _, _, _, _, _, _, _>(Version::H2, &orig, None, &http);
    assert_eq!(r.expect("the policy has routes").parent.addr, Addr::Socket(sock(3, 80)));
    match try_route(Version::H2, &named, Some(&p), &opaque) {
        Err(RouteError::DiscoveryRequired(n)) => assert_eq!(n, name("web", 80)),
        other => panic!("unexpected result {other:?}"),
    }
    match try_route(Version::H2, &orig, Some(&p), &opaque) {
        Err(RouteError::PolicyRequired(a)) => assert_eq!(a, sock(3, 80)),
        other => panic!("unexpected result {other:?}"),
    }
    p.targets = Arc::new(vec![Target { addr: name("t", 1), weight: 1 }]);
    let one = try_route(Version::H2, &orig, Some(&p), &opaque).expect("the profile has targets");
    assert_eq!(one.parent.addr, Addr::Name(name("logical", 80)));
    assert!(matches!(one.parent.routes, Routes::Profile(_)));
    let two = try_route(Version::H2, &named, Some(&p), &http).expect("the profile has targets");
    assert_eq!(one.parent, two.parent, "routes are no identity");
}

#[test]
fn opaque_connections_follow_the_profile() {
    let mut p = profile();
    assert!(matches!(opaq_logical::<u8, u8>(None, sock(1, 1)), OpaqLogical::OrigDst(a) if a == sock(1, 1)));
    assert!(matches!(opaq_logical(Some(&p), sock(1, 1)), OpaqLogical::OrigDst(_)));
    p.endpoint = Some(endpoint(2));
    assert!(matches!(opaq_logical(Some(&p), sock(1, 1)), OpaqLogical::Endpoint(_)));
    p.addr = Some(name("web", 80));
    assert!(matches!(opaq_logical(Some(&p), sock(1, 1)), OpaqLogical::Route(_)));
}

#[test]
fn detection() {
    assert!(should_detect(None));
    assert!(!should_detect(Some(Skip)));
    assert_eq!(after_detection(Detected::Protocol(Some(Version::H2))), Serve::Http(Version::H2));
    assert_eq!(after_detection(Detected::Protocol(None)), Serve::Opaque);
    assert_eq!(after_detection(Detected::TimedOut), Serve::Opaque);
}

fn concrete(hint: ProtocolHint, is_local: bool) -> ConcreteEndpoint<(), &'static str, u8> {
    ConcreteEndpoint {
        addr: sock(41, 2041),
        is_local,
        metadata: Arc::new(Metadata {
            protocol_hint: hint,
            tagged_transport_port: Some(4143),
            identity: Some("id".to_string()),
            authority_override: Some("over.example.com".to_string()),
        }),
        parent: Arc::new(()),
        queue: queue(),
        close_server_connection_on_remote_proxy_error: true,
        http1: Arc::new("pool"),
        http2: Arc::new(2),
    }
}

fn is_http1(params: ClientParams<&'static str, u8>) -> bool {
    matches!(params, ClientParams::Http1(a) if *a == "pool")
}

fn is_h2(params: ClientParams<&'static str, u8>) -> bool {
    matches!(params, ClientParams::H2(b) if *b == 2)
}

fn is_upgrade(params: ClientParams<&'static str, u8>) -> bool {
    matches!(params, ClientParams::OrigProtoUpgrade(b, a) if *b == 2 && *a == "pool")
}

#[test]
fn http11_forward() {
    for hint in [ProtocolHint::Unknown, ProtocolHint::Opaque] {
        assert!(is_http1(concrete(hint, false).client_params(Version::Http1)));
    }
}

#[test]
fn http2_forward() {
    let e = concrete(ProtocolHint::Unknown, false);
    assert!(is_h2(e.client_params(Version::H2)));
}

#[test]
fn orig_proto_upgrade() {
    let e = concrete(ProtocolHint::Http2, false);
    assert!(is_upgrade(e.client_params(Version::Http1)));
    let local = concrete(ProtocolHint::Http2, true);
    assert!(is_http1(local.client_params(Version::Http1)));
}

#[test]
fn orig_proto_http2_noop() {
    let e = concrete(ProtocolHint::Http2, false);
    assert!(is_h2(e.client_params(Version::H2)));
}

#[test]
fn endpoints_are_spoken_to_as_discovered() {
    let e = concrete(ProtocolHint::Http2, false);
    assert_eq!(e.port_override(), Some(4143));
    assert_eq!(e.authority_override().as_deref(), Some("over.example.com"));
    match e.client_tls() {
        ClientTls::Tls { server_id, transport_header } => {
            assert_eq!(server_id, "id");
            assert!(transport_header);
        }
        other => panic!("unexpected TLS {other:?}"),
    }
    let local = concrete(ProtocolHint::Http2, true);
    assert_eq!(local.port_override(), None);
    assert_eq!(local.authority_override(), None);
    assert!(matches!(local.client_tls(), ClientTls::Clear(NoClientTls::Loopback)));
    let mut bare = concrete(ProtocolHint::Unknown, false);
    bare.metadata = Arc::new(Metadata::unknown());
    assert!(matches!(
        bare.client_tls(),
        ClientTls::Clear(NoClientTls::NotProvidedByServiceDiscovery)
    ));
}

#[test]
fn concrete_backends_are_dispatched() {
    let inbound = vec![sock(5, 0).ip];
    let target = Dispatch::Forward(sock(5, 80), Arc::new(Metadata::unknown()));
    match dispatch(&target, Arc::new(()), queue(), &inbound, Arc::new(1u8), Arc::new(2u8)) {
        Dispatched::Forward(e) => {
            assert_eq!((*e.http1, *e.http2), (1, 2));
            assert!(e.is_local && e.close_server_connection_on_remote_proxy_error);
        }
        other => panic!("unexpected dispatch {other:?}"),
    }
    let target = Dispatch::Balance(name("web", 80), default_ewma_config());
    let h1 = || Arc::new(1u8);
    let h2 = || Arc::new(2u8);
    let balance: Balance<()> = match dispatch(&target, Arc::new(()), queue(), &inbound, h1(), h2()) {
        Dispatched::Balance(b) => b,
        other => panic!("unexpected dispatch {other:?}"),
    };
    let metadata = Arc::new(Metadata::unknown());
    let e = balance.endpoint(sock(6, 80), metadata, queue(), &inbound, h1(), h2());
    assert_eq!((*e.http1, *e.http2), (1, 2));
    assert!(!e.is_local && !e.close_server_connection_on_remote_proxy_error);
    let target = Dispatch::Fail { message: Arc::new("no".to_string()) };
    match dispatch(&target, Arc::new(()), queue(), &inbound, h1(), h2()) {
        Dispatched::Fail(m) => assert_eq!(*m, "no"),
        other => panic!("unexpected dispatch {other:?}"),
    }
}

#[test]
fn endpoints_from_metadata() {
    let metadata = || Metadata {
        protocol_hint: ProtocolHint::Http2,
        tagged_transport_port: None,
        identity: Some("id".to_string()),
        authority_override: None,
    };
    let inbound = vec![sock(5, 0).ip];
    let reason = NoClientTls::NotProvidedByServiceDiscovery;
    let local = Endpoint::from_metadata(sock(5, 80), metadata(), reason, false, &inbound);
    assert!(matches!(local.tls, ClientTls::Clear(NoClientTls::Loopback)));
    assert_eq!(local.metadata.protocol_hint, ProtocolHint::Unknown);
    let remote = Endpoint::from_metadata(sock(6, 80), metadata(), reason, true, &inbound);
    match &remote.tls {
        ClientTls::Tls { server_id, transport_header } => {
            assert_eq!(server_id, "id");
            assert!(!transport_header);
        }
        other => panic!("unexpected TLS {other:?}"),
    }
    assert!(remote.skip().is_some());
    assert_eq!(remote.port_override(), None);
    assert_eq!(remote.authority_override(), None);
    let http = remote.with_version(Version::Http1);
    assert!(http.skip().is_none());
    assert_eq!(http.client_settings(), ClientSettings::OrigProtoUpgrade);
    assert_eq!(http.session_protocol(), SessionProtocol::Http2);
    let DefaultAuthority(addr) = http.default_authority();
    assert_eq!(addr, Addr::Socket(sock(6, 80)));
    let plain = Endpoint::forward(sock(7, 80), NoClientTls::Disabled, false);
    assert!(matches!(plain.tls, ClientTls::Clear(NoClientTls::Disabled)));
    let http = plain.with_version(Version::Http1);
    assert_eq!(http.client_settings(), ClientSettings::Http1);
    assert_eq!(http.session_protocol(), SessionProtocol::Http1);
    let params = ServerParams::new(Version::H2, http.default_authority());
    assert!(!params.supports_orig_proto_downgrades);
    let connect = Connect { version: Version::H2, inner: () };
    assert_eq!(connect.session_protocol(), SessionProtocol::Http2);
}
