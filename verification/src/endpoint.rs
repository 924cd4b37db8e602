//! How an endpoint is spoken to.

use crate::addr::{IpAddr, NameAddr, SocketAddr};
use crate::detect::{Skip, Version};
use crate::logical::policy::Queue;
use crate::target::{Dispatch, EwmaConfig, Metadata, ProtocolHint};
use std::sync::Arc;
use vstd::prelude::*;

verus! {

/// Why a connection is in the clear.
#[derive(Clone, Copy, Debug, PartialEq, Eq, Structural)]
pub enum NoClientTls {
    Disabled,
    Loopback,
    NotProvidedByServiceDiscovery,
    IngressWithoutOverride,
    IngressNonHttp,
}

/// The TLS of a connection to an endpoint.
#[derive(Debug)]
pub enum ClientTls {
    /// To a known identity. `transport_header` says that the peer is told, by ALPN, to expect a
    /// transport header.
    Tls { server_id: String, transport_header: bool },
    Clear(NoClientTls),
}

impl Metadata {
    /// Whether connections carry a transport header: to an opaque port, or to a gateway.
    pub open spec fn transport_header(self) -> bool {
        self.tagged_transport_port is Some || self.authority_override is Some
    }

    /// A copy of what is known.
    pub fn copy(&self) -> (m: Metadata)
        ensures
            m == *self,
    {
        Metadata {
            protocol_hint: self.protocol_hint,
            tagged_transport_port: self.tagged_transport_port,
            identity: copy_text(&self.identity),
            authority_override: copy_text(&self.authority_override),
        }
    }

    pub open spec fn nothing_known() -> Metadata {
        Metadata {
            protocol_hint: ProtocolHint::Unknown,
            tagged_transport_port: None,
            identity: None,
            authority_override: None,
        }
    }

    /// An endpoint of which nothing is known.
    pub fn unknown() -> (m: Metadata)
        ensures
            m == Metadata::nothing_known(),
    {
        Metadata {
            protocol_hint: ProtocolHint::Unknown,
            tagged_transport_port: None,
            identity: None,
            authority_override: None,
        }
    }
}

fn copy_text(t: &Option<String>) -> (r: Option<String>)
    ensures
        r == *t,
{
    match t {
        Some(t) => Some(t.clone()),
        None => None,
    }
}

/// The TLS that discovery gives for an endpoint, or none for the given reason.
pub open spec fn discovered_tls(metadata: Metadata, reason: NoClientTls) -> ClientTls {
    match metadata.identity {
        Some(server_id) => ClientTls::Tls {
            server_id,
            transport_header: metadata.transport_header(),
        },
        None => ClientTls::Clear(reason),
    }
}

pub fn client_tls(metadata: &Metadata, reason: NoClientTls) -> (t: ClientTls)
    ensures
        t == discovered_tls(*metadata, reason),
{
    let use_transport_header = metadata.tagged_transport_port.is_some()
        || metadata.authority_override.is_some();
    match &metadata.identity {
        Some(server_id) => ClientTls::Tls {
            server_id: server_id.clone(),
            transport_header: use_transport_header,
        },
        None => ClientTls::Clear(reason),
    }
}

/// Whether an address is one of those that the proxy itself receives traffic on.
pub fn is_inbound(inbound_ips: &Vec<IpAddr>, ip: IpAddr) -> (b: bool)
    ensures
        b == inbound_ips@.contains(ip),
{
    let mut i: usize = 0;
    while i < inbound_ips.len()
        invariant
            i <= inbound_ips@.len(),
            forall|j: int| 0 <= j < i ==> inbound_ips@[j] != ip,
        decreases inbound_ips@.len() - i,
    {
        if inbound_ips[i] == ip {
            proof {
                assert(inbound_ips@[i as int] == ip);
            }
            return true;
        }
        i = i + 1;
    }
    false
}

/// An endpoint of a protocol.
#[derive(Debug)]
pub struct Endpoint<P> {
    pub addr: SocketAddr,
    pub tls: ClientTls,
    pub metadata: Metadata,
    pub logical_addr: Option<NameAddr>,
    pub protocol: P,
    pub opaque_protocol: bool,
}

impl Endpoint<()> {
    /// An endpoint of which only the address is known.
    pub fn forward(addr: SocketAddr, reason: NoClientTls, opaque_protocol: bool) -> (e: Endpoint<()>)
        ensures
            e.addr == addr,
            e.tls == ClientTls::Clear(reason),
            e.logical_addr is None,
            e.opaque_protocol == opaque_protocol,
            e.metadata == Metadata::nothing_known(),
    {
        Endpoint {
            addr,
            tls: ClientTls::Clear(reason),
            metadata: Metadata::unknown(),
            logical_addr: None,
            protocol: (),
            opaque_protocol,
        }
    }

    /// An endpoint that discovery knows. Traffic to the proxy's own addresses does not leave the
    /// host: it is in the clear, and its protocol is not upgraded.
    pub fn from_metadata(
        addr: SocketAddr,
        metadata: Metadata,
        reason: NoClientTls,
        opaque_protocol: bool,
        inbound_ips: &Vec<IpAddr>,
    ) -> (e: Endpoint<()>)
        ensures
            e.addr == addr,
            e.logical_addr is None,
            e.opaque_protocol == opaque_protocol,
            if inbound_ips@.contains(addr.ip) {
                &&& e.tls == ClientTls::Clear(NoClientTls::Loopback)
                &&& e.metadata == (Metadata { protocol_hint: ProtocolHint::Unknown, ..metadata })
            } else {
                &&& e.tls == discovered_tls(metadata, reason)
                &&& e.metadata == metadata
            },
            e.tls is Tls <==> metadata.identity is Some && !inbound_ips@.contains(addr.ip),
            e.metadata.protocol_hint is Http2 ==> !inbound_ips@.contains(addr.ip),
    {
        let mut metadata = metadata;
        let tls = if is_inbound(inbound_ips, addr.ip) {
            metadata.protocol_hint = ProtocolHint::Unknown;
            ClientTls::Clear(NoClientTls::Loopback)
        } else {
            client_tls(&metadata, reason)
        };
        Endpoint { addr, tls, metadata, logical_addr: None, protocol: (), opaque_protocol }
    }

    /// The same endpoint, once it is known to speak HTTP. It is then not opaque.
    pub fn with_version(self, version: Version) -> (e: Endpoint<Version>)
        ensures
            e.addr == self.addr,
            e.tls == self.tls,
            e.metadata == self.metadata,
            e.logical_addr == self.logical_addr,
            e.protocol == version,
            !e.opaque_protocol,
    {
        Endpoint {
            addr: self.addr,
            tls: self.tls,
            metadata: self.metadata,
            logical_addr: self.logical_addr,
            protocol: version,
            opaque_protocol: false,
        }
    }
}

impl<P> Endpoint<P> {
    /// Whether the protocol of connections is left alone.
    pub fn skip(&self) -> (s: Option<Skip>)
        ensures
            s is Some <==> self.opaque_protocol,
    {
        if self.opaque_protocol {
            Some(Skip)
        } else {
            None
        }
    }

    pub fn port_override(&self) -> (p: Option<u16>)
        ensures
            p == self.metadata.tagged_transport_port,
    {
        self.metadata.tagged_transport_port
    }

    pub fn authority_override(&self) -> (a: Option<String>)
        ensures
            a == self.metadata.authority_override,
    {
        copy_text(&self.metadata.authority_override)
    }
}

/// How an HTTP client speaks.
#[derive(Clone, Copy, Debug, PartialEq, Eq, Structural)]
pub enum ClientSettings {
    Http1,
    H2,
    /// HTTP/1 requests are carried over HTTP/2 between proxies.
    OrigProtoUpgrade,
}

/// The protocol that a transport header announces.
#[derive(Clone, Copy, Debug, PartialEq, Eq, Structural)]
pub enum SessionProtocol {
    Http1,
    Http2,
}

/// How a client of a version of HTTP speaks to a peer. Requests are upgraded only for a proxy that
/// is known to speak HTTP/2.
pub open spec fn settings_for(version: Version, hint: ProtocolHint) -> ClientSettings {
    match version {
        Version::H2 => ClientSettings::H2,
        Version::Http1 => if hint == ProtocolHint::Http2 {
            ClientSettings::OrigProtoUpgrade
        } else {
            ClientSettings::Http1
        },
    }
}

impl Endpoint<Version> {
    pub fn client_settings(&self) -> (c: ClientSettings)
        ensures
            c == settings_for(self.protocol, self.metadata.protocol_hint),
    {
        match self.protocol {
            Version::H2 => ClientSettings::H2,
            Version::Http1 => match self.metadata.protocol_hint {
                ProtocolHint::Unknown | ProtocolHint::Opaque => ClientSettings::Http1,
                ProtocolHint::Http2 => ClientSettings::OrigProtoUpgrade,
            },
        }
    }

    /// The protocol of the connection, which is HTTP/2 for requests that are upgraded.
    pub fn session_protocol(&self) -> (s: SessionProtocol)
        ensures
            s == if settings_for(self.protocol, self.metadata.protocol_hint)
                == ClientSettings::Http1 {
                SessionProtocol::Http1
            } else {
                SessionProtocol::Http2
            },
            s is Http1 <==> self.protocol is Http1 && !(self.metadata.protocol_hint is Http2),
    {
        match self.protocol {
            Version::H2 => SessionProtocol::Http2,
            Version::Http1 => match self.metadata.protocol_hint {
                ProtocolHint::Http2 => SessionProtocol::Http2,
                ProtocolHint::Unknown | ProtocolHint::Opaque => SessionProtocol::Http1,
            },
        }
    }

    /// The address that requests without an authority get as theirs.
    pub fn default_authority(&self) -> (a: DefaultAuthority)
        ensures
            a == match self.logical_addr {
                Some(name) => DefaultAuthority(crate::addr::Addr::Name(name)),
                None => DefaultAuthority(crate::addr::Addr::Socket(self.addr)),
            },
    {
        match &self.logical_addr {
            Some(name) => DefaultAuthority(crate::addr::Addr::Name(name.copy())),
            None => DefaultAuthority(crate::addr::Addr::Socket(self.addr)),
        }
    }
}

/// The address that requests without an authority get as theirs.
#[derive(Debug)]
pub struct DefaultAuthority(pub crate::addr::Addr);

/// How a connection from the application is served.
#[derive(Debug)]
pub struct ServerParams {
    pub version: Version,
    pub supports_orig_proto_downgrades: bool,
    pub default_authority: DefaultAuthority,
}

impl ServerParams {
    /// The application is no proxy, so its requests are never ones that were upgraded.
    pub fn new(version: Version, default_authority: DefaultAuthority) -> (p: ServerParams)
        ensures
            p.version == version,
            !p.supports_orig_proto_downgrades,
            p.default_authority == default_authority,
    {
        ServerParams { version, supports_orig_proto_downgrades: false, default_authority }
    }
}

/// A connection of a version of HTTP.
#[derive(Clone, Copy, Debug)]
pub struct Connect<T> {
    pub version: Version,
    pub inner: T,
}

impl<T> Connect<T> {
    pub fn session_protocol(&self) -> (s: SessionProtocol)
        ensures
            s == match self.version {
                Version::Http1 => SessionProtocol::Http1,
                Version::H2 => SessionProtocol::Http2,
            },
    {
        match self.version {
            Version::Http1 => SessionProtocol::Http1,
            Version::H2 => SessionProtocol::Http2,
        }
    }
}

/// How an HTTP client speaks, with its settings for HTTP/1 and HTTP/2.
#[derive(Debug)]
pub enum ClientParams<A, B> {
    Http1(Arc<A>),
    H2(Arc<B>),
    /// HTTP/1 requests are carried over HTTP/2 between proxies.
    OrigProtoUpgrade(Arc<B>, Arc<A>),
}

/// An endpoint of a concrete backend, with the settings of its clients for HTTP/1 and HTTP/2.
#[derive(Debug)]
pub struct ConcreteEndpoint<T, A, B> {
    pub addr: SocketAddr,
    pub is_local: bool,
    pub metadata: Arc<Metadata>,
    pub parent: Arc<T>,
    pub queue: Queue,
    pub close_server_connection_on_remote_proxy_error: bool,
    pub http1: Arc<A>,
    pub http2: Arc<B>,
}

/// A balancer over the endpoints of a name.
#[derive(Debug)]
pub struct Balance<T> {
    pub addr: NameAddr,
    pub ewma: EwmaConfig,
    pub parent: Arc<T>,
    pub queue: Queue,
}

/// The stack that serves a concrete backend.
#[derive(Debug)]
pub enum Dispatched<T, A, B> {
    Balance(Balance<T>),
    Forward(ConcreteEndpoint<T, A, B>),
    Fail(Arc<String>),
}

/// Chooses the stack for a concrete backend. When an endpoint is forwarded to, the errors of its
/// proxy close the connections of clients. `http1` and `http2` are the settings of clients, the
/// latter with what the metadata of the endpoint asks for put over them.
pub fn dispatch<T, A, B>(
    target: &Dispatch,
    parent: Arc<T>,
    queue: Queue,
    inbound_ips: &Vec<IpAddr>,
    http1: Arc<A>,
    http2: Arc<B>,
) -> (d: Dispatched<T, A, B>)
    ensures
        match *target {
            Dispatch::Balance(addr, ewma) => d == Dispatched::<T, A, B>::Balance(
                Balance { addr, ewma, parent, queue },
            ),
            Dispatch::Forward(addr, metadata) => d == Dispatched::Forward(
                ConcreteEndpoint {
                    addr,
                    is_local: inbound_ips@.contains(addr.ip),
                    metadata,
                    parent,
                    queue,
                    close_server_connection_on_remote_proxy_error: true,
                    http1,
                    http2,
                },
            ),
            Dispatch::Fail { message } => d == Dispatched::<T, A, B>::Fail(message),
        },
{
    match target {
        Dispatch::Balance(addr, ewma) => Dispatched::Balance(
            Balance { addr: addr.copy(), ewma: *ewma, parent, queue },
        ),
        Dispatch::Forward(addr, metadata) => {
            let is_local = is_inbound(inbound_ips, addr.ip);
            Dispatched::Forward(
                ConcreteEndpoint {
                    addr: *addr,
                    is_local,
                    metadata: metadata.clone(),
                    parent,
                    queue,
                    close_server_connection_on_remote_proxy_error: true,
                    http1,
                    http2,
                },
            )
        },
        Dispatch::Fail { message } => Dispatched::Fail(message.clone()),
    }
}

impl<T> Balance<T> {
    /// An endpoint that the balancer found. The errors of its proxy leave the connections of
    /// clients alone, as other endpoints serve them too.
    pub fn endpoint<A, B>(
        &self,
        addr: SocketAddr,
        metadata: Arc<Metadata>,
        http_queue: Queue,
        inbound_ips: &Vec<IpAddr>,
        http1: Arc<A>,
        http2: Arc<B>,
    ) -> (e: ConcreteEndpoint<T, A, B>)
        ensures
            e == (ConcreteEndpoint {
                addr,
                is_local: inbound_ips@.contains(addr.ip),
                metadata,
                parent: self.parent,
                queue: http_queue,
                close_server_connection_on_remote_proxy_error: false,
                http1,
                http2,
            }),
    {
        let is_local = is_inbound(inbound_ips, addr.ip);
        ConcreteEndpoint {
            addr,
            is_local,
            metadata,
            parent: self.parent.clone(),
            queue: http_queue,
            close_server_connection_on_remote_proxy_error: false,
            http1,
            http2,
        }
    }
}

impl<T, A, B> ConcreteEndpoint<T, A, B> {
    /// The port of the proxy that takes tagged connections, unless the endpoint is local.
    pub fn port_override(&self) -> (p: Option<u16>)
        ensures
            p == if self.is_local {
                None
            } else {
                self.metadata.tagged_transport_port
            },
            p is Some <==> !self.is_local && self.metadata.tagged_transport_port is Some,
    {
        if self.is_local {
            return None;
        }
        self.metadata.tagged_transport_port
    }

    /// The authority that requests have to carry, unless the endpoint is local.
    pub fn authority_override(&self) -> (a: Option<String>)
        ensures
            a == if self.is_local {
                None
            } else {
                self.metadata.authority_override
            },
            a is Some <==> !self.is_local && self.metadata.authority_override is Some,
    {
        if self.is_local {
            return None;
        }
        copy_text(&self.metadata.authority_override)
    }

    /// The TLS of connections. A local endpoint needs none.
    pub open spec fn tls(self) -> ClientTls {
        if self.is_local {
            ClientTls::Clear(NoClientTls::Loopback)
        } else {
            discovered_tls(*self.metadata, NoClientTls::NotProvidedByServiceDiscovery)
        }
    }

    pub fn client_tls(&self) -> (t: ClientTls)
        ensures
            t == self.tls(),
    {
        if self.is_local {
            return ClientTls::Clear(NoClientTls::Loopback);
        }
        client_tls(&self.metadata, NoClientTls::NotProvidedByServiceDiscovery)
    }

    /// How requests of a version of HTTP are sent. Those to a local endpoint are not upgraded.
    pub open spec fn params(self, version: Version) -> ClientParams<A, B> {
        let hint = if self.is_local {
            ProtocolHint::Unknown
        } else {
            self.metadata.protocol_hint
        };
        match settings_for(version, hint) {
            ClientSettings::Http1 => ClientParams::Http1(self.http1),
            ClientSettings::H2 => ClientParams::H2(self.http2),
            ClientSettings::OrigProtoUpgrade => ClientParams::OrigProtoUpgrade(
                self.http2,
                self.http1,
            ),
        }
    }

    pub fn client_params(&self, version: Version) -> (c: ClientParams<A, B>)
        ensures
            c == self.params(version),
    {
        match version {
            Version::H2 => ClientParams::H2(self.http2.clone()),
            Version::Http1 => {
                if self.is_local {
                    return ClientParams::Http1(self.http1.clone());
                }
                match self.metadata.protocol_hint {
                    ProtocolHint::Unknown | ProtocolHint::Opaque => ClientParams::Http1(
                        self.http1.clone(),
                    ),
                    ProtocolHint::Http2 => ClientParams::OrigProtoUpgrade(
                        self.http2.clone(),
                        self.http1.clone(),
                    ),
                }
            },
        }
    }
}

/// HTTP/2 requests are never carried in another way than as HTTP/2, whatever the peer is known to
/// speak.
pub proof fn http2_is_never_upgraded<T, A, B>(e: ConcreteEndpoint<T, A, B>, hint: ProtocolHint)
    ensures
        e.params(Version::H2) == ClientParams::<A, B>::H2(e.http2),
        settings_for(Version::H2, hint) == ClientSettings::H2,
{
}

/// Traffic to a local endpoint stays in the clear and keeps its version.
pub proof fn local_traffic_stays_plain<T, A, B>(e: ConcreteEndpoint<T, A, B>)
    requires
        e.is_local,
    ensures
        e.tls() == ClientTls::Clear(NoClientTls::Loopback),
        e.params(Version::Http1) == ClientParams::<A, B>::Http1(e.http1),
{
}

/// Either of a port for tagged connections and an authority to carry calls for a transport header,
/// and nothing else does.
pub proof fn transport_headers_are_for_tagged_ports_and_gateways(metadata: Metadata)
    ensures
        metadata.tagged_transport_port is Some ==> metadata.transport_header(),
        metadata.authority_override is Some ==> metadata.transport_header(),
        metadata.tagged_transport_port is None && metadata.authority_override is None
            ==> !metadata.transport_header(),
{
}

/// Connections to an endpoint with an identity are encrypted, to that identity. Those to one
/// without are in the clear, for the reason that is given.
pub proof fn known_identities_are_used(metadata: Metadata, reason: NoClientTls)
    ensures
        metadata.identity matches Some(id) ==> (discovered_tls(metadata, reason) matches ClientTls::Tls {
            server_id,
            transport_header,
        } && server_id@ == id@ && (transport_header <==> metadata.tagged_transport_port is Some
            || metadata.authority_override is Some)),
        metadata.identity is None ==> (discovered_tls(metadata, reason) matches ClientTls::Clear(why)
            && why == reason),
{
}

/// HTTP/1 requests are upgraded exactly if the peer is known to speak HTTP/2; HTTP/2 requests stay
/// what they are.
pub proof fn upgrades_are_for_peers_that_speak_http2(hint: ProtocolHint)
    ensures
        settings_for(Version::Http1, ProtocolHint::Http2) is OrigProtoUpgrade,
        settings_for(Version::Http1, ProtocolHint::Unknown) is Http1,
        settings_for(Version::Http1, ProtocolHint::Opaque) is Http1,
        settings_for(Version::H2, hint) is H2,
{
}

/// What discovery knows of a remote endpoint is used: its identity, and whether it speaks HTTP/2.
pub proof fn remote_traffic_goes_by_discovery<T, A, B>(e: ConcreteEndpoint<T, A, B>)
    requires
        !e.is_local,
    ensures
        e.metadata.identity matches Some(id) ==> (e.tls() matches ClientTls::Tls { server_id, .. }
            && server_id@ == id@),
        e.metadata.identity is None ==> (e.tls() matches ClientTls::Clear(why)
            && why is NotProvidedByServiceDiscovery),
        e.metadata.protocol_hint is Http2 ==> (e.params(Version::Http1)
            matches ClientParams::OrigProtoUpgrade(h2, h1) && h2 == e.http2 && h1 == e.http1),
        !(e.metadata.protocol_hint is Http2) ==> (e.params(Version::Http1)
            matches ClientParams::Http1(h1) && h1 == e.http1),
        e.params(Version::H2) matches ClientParams::H2(h2) && h2 == e.http2,
{
}

} // verus!
