//! Addresses.

use vstd::prelude::*;
use vstd::std_specs::cmp::PartialEqSpec;

verus! {

/// An IP address.
#[derive(Clone, Copy, Debug, PartialEq, Eq, Hash, Structural)]
pub enum IpAddr {
    V4(u32),
    V6(u128),
}

/// An IP address and a port.
#[derive(Clone, Copy, Debug, PartialEq, Eq, Hash, Structural)]
pub struct SocketAddr {
    pub ip: IpAddr,
    pub port: u16,
}

/// A DNS name and a port.
#[derive(Debug, Hash)]
pub struct NameAddr {
    pub name: String,
    pub port: u16,
}

impl NameAddr {
    /// A copy of the address.
    pub fn copy(&self) -> (r: NameAddr)
        ensures
            r == *self,
    {
        NameAddr { name: self.name.clone(), port: self.port }
    }
}

impl Clone for NameAddr {
    fn clone(&self) -> (r: NameAddr)
        ensures
            r == *self,
    {
        self.copy()
    }
}

/// Names are compared as they are written.
impl PartialEq for NameAddr {
    fn eq(&self, other: &NameAddr) -> (b: bool) {
        self.name == other.name && self.port == other.port
    }
}

impl vstd::std_specs::cmp::PartialEqSpecImpl for NameAddr {
    open spec fn obeys_eq_spec() -> bool {
        true
    }

    open spec fn eq_spec(&self, other: &NameAddr) -> bool {
        self.name@ == other.name@ && self.port == other.port
    }
}

impl Eq for NameAddr {

}

/// Either kind of address.
#[derive(Debug, Hash)]
pub enum Addr {
    Name(NameAddr),
    Socket(SocketAddr),
}

impl Addr {
    pub fn copy(&self) -> (r: Addr)
        ensures
            r == *self,
    {
        match self {
            Addr::Name(n) => Addr::Name(n.copy()),
            Addr::Socket(s) => Addr::Socket(*s),
        }
    }
}

impl Clone for Addr {
    fn clone(&self) -> (r: Addr)
        ensures
            r == *self,
    {
        self.copy()
    }
}

impl PartialEq for Addr {
    fn eq(&self, other: &Addr) -> (b: bool) {
        match (self, other) {
            (Addr::Name(a), Addr::Name(b)) => a == b,
            (Addr::Socket(a), Addr::Socket(b)) => *a == *b,
            _ => false,
        }
    }
}

impl vstd::std_specs::cmp::PartialEqSpecImpl for Addr {
    open spec fn obeys_eq_spec() -> bool {
        true
    }

    open spec fn eq_spec(&self, other: &Addr) -> bool {
        match (self, other) {
            (Addr::Name(a), Addr::Name(b)) => a.name@ == b.name@ && a.port == b.port,
            (Addr::Socket(a), Addr::Socket(b)) => *a == *b,
            _ => false,
        }
    }
}

impl Eq for Addr {

}

/// Two names are the same exactly if they are written the same and have the same port. A name is
/// never the same as an address.
pub proof fn addresses_agree_in_every_part(a: NameAddr, b: NameAddr, s: SocketAddr, t: SocketAddr)
    ensures
        PartialEqSpec::eq_spec(&a, &b) <==> a.name@ == b.name@ && a.port == b.port,
        PartialEqSpec::eq_spec(&Addr::Name(a), &Addr::Name(b)) <==> a.name@ == b.name@ && a.port
            == b.port,
        PartialEqSpec::eq_spec(&Addr::Socket(s), &Addr::Socket(t)) <==> s.ip == t.ip && s.port
            == t.port,
        !PartialEqSpec::eq_spec(&Addr::Name(a), &Addr::Socket(s)),
        !PartialEqSpec::eq_spec(&Addr::Socket(s), &Addr::Name(a)),
{
}

} // verus!
