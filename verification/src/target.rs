//! Where requests go: references to policies, endpoints, and concrete backends.

use crate::addr::{NameAddr, SocketAddr};
use crate::client_policy::FailureAccrual;
use crate::time::Duration;
use std::sync::Arc;
use vstd::prelude::*;
use vstd::std_specs::cmp::PartialEqSpec;

verus! {

/// What a policy is about: a resource of the cluster, or something that only has a name.
#[derive(Debug, Hash)]
pub enum Meta {
    Default { name: String },
    Resource {
        group: String,
        kind: String,
        namespace: String,
        name: String,
        section: Option<String>,
        port: Option<u16>,
    },
}

impl Meta {
    pub open spec fn is_default(self, text: Seq<char>) -> bool {
        self matches Meta::Default { name } && name@ == text
    }

    pub fn new_default(name: &str) -> (m: Arc<Meta>)
        ensures
            m.is_default(name@),
    {
        Arc::new(Meta::Default { name: name.to_owned() })
    }

    /// Whether two references are to the same thing.
    pub open spec fn same(self, other: Meta) -> bool {
        match (self, other) {
            (Meta::Default { name: a }, Meta::Default { name: b }) => a@ == b@,
            (
                Meta::Resource { group: g1, kind: k1, namespace: ns1, name: n1, section: s1, port: p1 },
                Meta::Resource { group: g2, kind: k2, namespace: ns2, name: n2, section: s2, port: p2 },
            ) => {
                &&& g1@ == g2@
                &&& k1@ == k2@
                &&& ns1@ == ns2@
                &&& n1@ == n2@
                &&& p1 == p2
                &&& match (s1, s2) {
                    (Some(a), Some(b)) => a@ == b@,
                    (None, None) => true,
                    _ => false,
                }
            },
            _ => false,
        }
    }
}

impl PartialEq for Meta {
    fn eq(&self, other: &Meta) -> (b: bool) {
        match (self, other) {
            (Meta::Default { name: a }, Meta::Default { name: b }) => *a == *b,
            (
                Meta::Resource { group: g1, kind: k1, namespace: ns1, name: n1, section: s1, port: p1 },
                Meta::Resource { group: g2, kind: k2, namespace: ns2, name: n2, section: s2, port: p2 },
            ) => {
                let same_section = match (s1, s2) {
                    (Some(a), Some(b)) => *a == *b,
                    (None, None) => true,
                    _ => false,
                };
                let same_port = match (p1, p2) {
                    (Some(a), Some(b)) => *a == *b,
                    (None, None) => true,
                    _ => false,
                };
                *g1 == *g2 && *k1 == *k2 && *ns1 == *ns2 && *n1 == *n2 && same_section && same_port
            },
            _ => false,
        }
    }
}

impl vstd::std_specs::cmp::PartialEqSpecImpl for Meta {
    open spec fn obeys_eq_spec() -> bool {
        true
    }

    open spec fn eq_spec(&self, other: &Meta) -> bool {
        self.same(*other)
    }
}

impl Eq for Meta {

}

/// What the proxy in front of an endpoint is known to speak.
#[derive(Clone, Copy, Debug, PartialEq, Eq, Hash, Structural)]
pub enum ProtocolHint {
    Unknown,
    Http2,
    /// The proxy forwards connections without looking into them.
    Opaque,
}

/// What discovery knows of an endpoint.
#[derive(Debug, Hash)]
pub struct Metadata {
    pub protocol_hint: ProtocolHint,
    /// The port of the proxy that takes connections with a transport header.
    pub tagged_transport_port: Option<u16>,
    /// The TLS identity of the endpoint.
    pub identity: Option<String>,
    /// The authority that requests to the endpoint have to carry.
    pub authority_override: Option<String>,
}

/// Whether two optional texts are the same.
pub open spec fn same_text(a: Option<String>, b: Option<String>) -> bool {
    match (a, b) {
        (Some(a), Some(b)) => a@ == b@,
        (None, None) => true,
        _ => false,
    }
}

fn eq_text(a: &Option<String>, b: &Option<String>) -> (r: bool)
    ensures
        r == same_text(*a, *b),
{
    match (a, b) {
        (Some(a), Some(b)) => *a == *b,
        (None, None) => true,
        _ => false,
    }
}

impl Metadata {
    /// Whether the same is known of two endpoints.
    pub open spec fn same(self, other: Metadata) -> bool {
        &&& self.protocol_hint == other.protocol_hint
        &&& self.tagged_transport_port == other.tagged_transport_port
        &&& same_text(self.identity, other.identity)
        &&& same_text(self.authority_override, other.authority_override)
    }
}

impl PartialEq for Metadata {
    fn eq(&self, other: &Metadata) -> (b: bool) {
        let same_port = match (self.tagged_transport_port, other.tagged_transport_port) {
            (Some(a), Some(b)) => a == b,
            (None, None) => true,
            _ => false,
        };
        self.protocol_hint == other.protocol_hint && same_port && eq_text(
            &self.identity,
            &other.identity,
        ) && eq_text(&self.authority_override, &other.authority_override)
    }
}

impl vstd::std_specs::cmp::PartialEqSpecImpl for Metadata {
    open spec fn obeys_eq_spec() -> bool {
        true
    }

    open spec fn eq_spec(&self, other: &Metadata) -> bool {
        self.same(*other)
    }
}

impl Eq for Metadata {

}

/// An endpoint and what is known of it. `endpoint_ref` is what it is called in metrics.
#[derive(Debug)]
pub struct KnownEndpoint {
    pub addr: SocketAddr,
    pub metadata: Arc<Metadata>,
    pub endpoint_ref: Arc<Meta>,
}

impl KnownEndpoint {
    pub fn copy(&self) -> (r: KnownEndpoint)
        ensures
            r == *self,
    {
        KnownEndpoint {
            addr: self.addr,
            metadata: self.metadata.clone(),
            endpoint_ref: self.endpoint_ref.clone(),
        }
    }
}

/// How the latency of endpoints is averaged.
#[derive(Clone, Copy, Debug, PartialEq, Eq, Hash, Structural)]
pub struct EwmaConfig {
    pub default_rtt: Duration,
    pub decay: Duration,
}

/// How requests get to a backend.
#[derive(Debug, Hash)]
pub enum Dispatch {
    /// Balanced over the endpoints of a name.
    Balance(NameAddr, EwmaConfig),
    /// To a single endpoint.
    Forward(SocketAddr, Arc<Metadata>),
    /// Not at all.
    Fail { message: Arc<String> },
}

impl Dispatch {
    /// Whether requests get to the same place in the same way.
    pub open spec fn same(self, other: Dispatch) -> bool {
        match (self, other) {
            (Dispatch::Balance(a, x), Dispatch::Balance(b, y)) => a.name@ == b.name@ && a.port
                == b.port && x == y,
            (Dispatch::Forward(a, x), Dispatch::Forward(b, y)) => a == b && (*x).same(*y),
            (Dispatch::Fail { message: a }, Dispatch::Fail { message: b }) => a@ == b@,
            _ => false,
        }
    }

    pub fn copy(&self) -> (r: Dispatch)
        ensures
            r == *self,
    {
        match self {
            Dispatch::Balance(addr, ewma) => Dispatch::Balance(addr.copy(), *ewma),
            Dispatch::Forward(addr, metadata) => Dispatch::Forward(*addr, metadata.clone()),
            Dispatch::Fail { message } => Dispatch::Fail { message: message.clone() },
        }
    }
}

impl PartialEq for Dispatch {
    fn eq(&self, other: &Dispatch) -> (b: bool) {
        match (self, other) {
            (Dispatch::Balance(a, x), Dispatch::Balance(b, y)) => *a == *b && *x == *y,
            (Dispatch::Forward(a, x), Dispatch::Forward(b, y)) => *a == *b && **x == **y,
            (Dispatch::Fail { message: a }, Dispatch::Fail { message: b }) => **a == **b,
            _ => false,
        }
    }
}

impl vstd::std_specs::cmp::PartialEqSpecImpl for Dispatch {
    open spec fn obeys_eq_spec() -> bool {
        true
    }

    open spec fn eq_spec(&self, other: &Dispatch) -> bool {
        self.same(*other)
    }
}

impl Eq for Dispatch {

}

/// The longest hint of a server that a backend honors.
#[derive(Clone, Copy, Debug, PartialEq, Eq, Structural)]
pub struct RetryAfterConfig {
    pub max_duration: Duration,
}

/// What tells one backend from another.
#[derive(Debug, Hash)]
pub struct Backend<T> {
    pub target: Dispatch,
    /// The address that requests carry as their authority.
    pub authority: Option<NameAddr>,
    pub parent: Arc<T>,
    pub parent_ref: Arc<Meta>,
    pub backend_ref: Arc<Meta>,
}

/// A backend and how its circuit breaker is set up, which is no part of its identity.
#[derive(Debug)]
pub struct Concrete<T> {
    pub backend: Backend<T>,
    pub failure_accrual: Option<FailureAccrual>,
    pub retry_after: Option<RetryAfterConfig>,
}

pub open spec fn same_authority(a: Option<NameAddr>, b: Option<NameAddr>) -> bool {
    match (a, b) {
        (Some(a), Some(b)) => a.name@ == b.name@ && a.port == b.port,
        (None, None) => true,
        _ => false,
    }
}

pub fn copy_authority(a: &Option<NameAddr>) -> (r: Option<NameAddr>)
    ensures
        r == *a,
{
    match a {
        Some(a) => Some(a.copy()),
        None => None,
    }
}

impl<T> Backend<T> {
    pub fn copy(&self) -> (r: Backend<T>)
        ensures
            r == *self,
    {
        Backend {
            target: self.target.copy(),
            authority: copy_authority(&self.authority),
            parent: self.parent.clone(),
            parent_ref: self.parent_ref.clone(),
            backend_ref: self.backend_ref.clone(),
        }
    }
}

impl<T> Concrete<T> {
    /// What services of the backend are cached under.
    pub fn key(&self) -> (k: &Backend<T>)
        ensures
            *k == self.backend,
    {
        &self.backend
    }

    pub fn copy(&self) -> (r: Concrete<T>)
        ensures
            r == *self,
    {
        Concrete {
            backend: self.backend.copy(),
            failure_accrual: self.failure_accrual,
            retry_after: self.retry_after,
        }
    }
}

impl<T: PartialEq> Backend<T> {
    /// Whether two backends are the same.
    pub open spec fn same(self, other: Backend<T>) -> bool {
        &&& self.target.same(other.target)
        &&& same_authority(self.authority, other.authority)
        &&& PartialEqSpec::eq_spec(&*self.parent, &*other.parent)
        &&& self.parent_ref.same(*other.parent_ref)
        &&& self.backend_ref.same(*other.backend_ref)
    }
}

impl<T: PartialEq> PartialEq for Backend<T> {
    fn eq(&self, other: &Backend<T>) -> (b: bool) {
        let same_authority = match (&self.authority, &other.authority) {
            (Some(a), Some(b)) => *a == *b,
            (None, None) => true,
            _ => false,
        };
        self.target == other.target && same_authority && *self.parent == *other.parent
            && *self.parent_ref == *other.parent_ref && *self.backend_ref == *other.backend_ref
    }
}

impl<T: PartialEq> vstd::std_specs::cmp::PartialEqSpecImpl for Backend<T> {
    open spec fn obeys_eq_spec() -> bool {
        <T as PartialEqSpec>::obeys_eq_spec()
    }

    open spec fn eq_spec(&self, other: &Backend<T>) -> bool {
        self.same(*other)
    }
}

impl<T: Eq> Eq for Backend<T> {

}

impl<T: PartialEq> PartialEq for Concrete<T> {
    fn eq(&self, other: &Concrete<T>) -> (b: bool) {
        self.backend == other.backend
    }
}

impl<T: PartialEq> vstd::std_specs::cmp::PartialEqSpecImpl for Concrete<T> {
    open spec fn obeys_eq_spec() -> bool {
        <T as PartialEqSpec>::obeys_eq_spec()
    }

    open spec fn eq_spec(&self, other: &Concrete<T>) -> bool {
        self.backend.same(other.backend)
    }
}

impl<T: Eq> Eq for Concrete<T> {

}

/// How its circuit breaker is set up does not tell a backend from another: two that differ only in
/// that are equal, and equal to the same others.
pub proof fn breaker_config_is_no_identity<T: PartialEq>(
    a: Concrete<T>,
    b: Concrete<T>,
    other: Concrete<T>,
)
    requires
        a.backend == b.backend,
    ensures
        PartialEqSpec::eq_spec(&a, &other) == PartialEqSpec::eq_spec(&b, &other),
        PartialEqSpec::eq_spec(&other, &a) == PartialEqSpec::eq_spec(&other, &b),
{
}

/// Two references are the same only if they are of one sort and agree in every part. What only has
/// a name is never a resource.
pub proof fn references_agree_in_every_part(a: Meta, b: Meta)
    ensures
        a.same(a),
        a.same(b) <==> b.same(a),
        a is Default && b is Resource ==> !a.same(b),
        a is Default && b is Default ==> (a.same(b) <==> a->Default_name@ == b->Default_name@),
        a is Resource && b is Resource && a.same(b) ==> {
            &&& a->group@ == b->group@
            &&& a->kind@ == b->kind@
            &&& a->namespace@ == b->namespace@
            &&& a->Resource_name@ == b->Resource_name@
            &&& a->port == b->port
            &&& a->section is Some <==> b->section is Some
            &&& a->section is Some ==> a->section->0@ == b->section->0@
        },
        a is Resource && b is Resource && a->group@ == b->group@ && a->kind@ == b->kind@
            && a->namespace@ == b->namespace@ && a->Resource_name@ == b->Resource_name@ && a->port
            == b->port && a->section == b->section ==> a.same(b),
{
}

/// The same is known of two endpoints only if every part of what is known agrees.
pub proof fn knowledge_agrees_in_every_part(a: Metadata, b: Metadata)
    ensures
        a.same(a),
        a.same(b) <==> b.same(a),
        a.same(b) ==> {
            &&& a.protocol_hint == b.protocol_hint
            &&& a.tagged_transport_port == b.tagged_transport_port
            &&& a.identity is Some <==> b.identity is Some
            &&& a.identity is Some ==> a.identity->0@ == b.identity->0@
            &&& a.authority_override is Some <==> b.authority_override is Some
            &&& a.authority_override is Some ==> a.authority_override->0@ == b.authority_override->0@
        },
        a.protocol_hint == b.protocol_hint && a.tagged_transport_port == b.tagged_transport_port
            && a.identity == b.identity && a.authority_override == b.authority_override ==> a.same(b),
{
}

/// Requests get to the same place in the same way only if both are balanced over one name with one
/// estimate, or forwarded to one address of which the same is known, or fail with one message.
pub proof fn ways_agree_in_every_part(a: Dispatch, b: Dispatch)
    ensures
        a.same(a),
        a.same(b) <==> b.same(a),
        a.same(b) ==> {
            &&& a is Balance <==> b is Balance
            &&& a is Forward <==> b is Forward
            &&& a is Fail <==> b is Fail
        },
        a is Balance && b is Balance ==> (a.same(b) <==> a->Balance_0.name@ == b->Balance_0.name@
            && a->Balance_0.port == b->Balance_0.port && a->Balance_1.default_rtt
            == b->Balance_1.default_rtt && a->Balance_1.decay == b->Balance_1.decay),
        a is Forward && b is Forward ==> (a.same(b) <==> a->Forward_0.ip == b->Forward_0.ip
            && a->Forward_0.port == b->Forward_0.port && (*a->Forward_1).same(*b->Forward_1)),
        a is Fail && b is Fail ==> (a.same(b) <==> a->message@ == b->message@),
{
}

/// Two backends are the same only if requests get to them in the same way, carry the same
/// authority, and have the same parent and references.
pub proof fn backends_agree_in_every_part<T: PartialEq>(a: Backend<T>, b: Backend<T>)
    ensures
        PartialEqSpec::eq_spec(&a, &b) <==> {
            &&& a.target.same(b.target)
            &&& a.authority is Some <==> b.authority is Some
            &&& a.authority is Some ==> a.authority->0.name@ == b.authority->0.name@
                && a.authority->0.port == b.authority->0.port
            &&& PartialEqSpec::eq_spec(&*a.parent, &*b.parent)
            &&& (*a.parent_ref).same(*b.parent_ref)
            &&& (*a.backend_ref).same(*b.backend_ref)
        },
{
}

} // verus!
