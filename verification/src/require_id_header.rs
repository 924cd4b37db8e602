//! Requests that ask for a particular peer.

use crate::headers::{
    bytes_of, first_value, header_fields, header_get, header_key, header_remove, is_text,
    is_text_value, lower_case_names_are_kept,
};
use http::{HeaderMap, HeaderValue};
use vstd::prelude::*;

verus! {

/// The TLS identity of a peer. Without one, traffic is in the clear.
#[derive(Debug)]
pub enum ConditionalClientTls {
    Tls { server_id: String },
    Clear,
}

/// The peer is not the one that the request asks for.
#[derive(Debug)]
pub struct IdentityRequired {
    pub required: String,
    pub found: Option<String>,
}

/// A stack whose services check the identity of peers.
#[derive(Clone, Debug)]
pub struct NewRequireIdentity<N> {
    pub inner: N,
}

/// A service that checks the identity of its peer.
#[derive(Debug)]
pub struct RequireIdentity<N> {
    pub tls: ConditionalClientTls,
    pub inner: N,
}

impl<N> NewRequireIdentity<N> {
    pub fn new(inner: N) -> (s: NewRequireIdentity<N>)
        ensures
            s.inner == inner,
    {
        NewRequireIdentity { inner }
    }

    pub fn new_service<S>(&self, tls: ConditionalClientTls, inner: S) -> (s: RequireIdentity<S>)
        ensures
            s.tls == tls,
            s.inner == inner,
    {
        RequireIdentity { tls, inner }
    }
}

/// Whether a peer is the required one.
pub open spec fn satisfies(tls: ConditionalClientTls, required: Seq<char>) -> bool {
    match tls {
        ConditionalClientTls::Tls { server_id } => server_id@ == required,
        ConditionalClientTls::Clear => false,
    }
}

/// The text in the field that names the required peer.
pub open spec fn required_text(fields: Map<Seq<char>, Seq<Seq<u8>>>) -> Option<Seq<u8>> {
    match first_value(fields, "l5d-require-id"@) {
        Some(v) if is_text(v) => Some(v),
        _ => None,
    }
}

impl<S> RequireIdentity<S> {
    /// Takes the field that names the required peer out of the request, so that it is not passed
    /// on, and hands back its text.
    pub fn extract_id(headers: &mut HeaderMap<HeaderValue>) -> (r: Option<Vec<u8>>)
        ensures
            bytes_of(r) == required_text(header_fields(*old(headers))),
            header_fields(*final(headers)) == header_fields(*old(headers)).remove(
                header_key("l5d-require-id"@),
            ),
    {
        match header_remove(headers, "l5d-require-id") {
            Some(v) => if is_text_value(&v) {
                Some(v)
            } else {
                None
            },
            None => None,
        }
    }

    /// The text of the field that names the required peer. The request keeps it.
    pub fn identity_from_header(headers: &HeaderMap<HeaderValue>) -> (r: Option<Vec<u8>>)
        ensures
            bytes_of(r) == required_text(header_fields(*headers)),
    {
        match header_get(headers, "l5d-require-id") {
            Some(v) => if is_text_value(&v) {
                Some(v)
            } else {
                None
            },
            None => None,
        }
    }

    /// Lets a request through if it requires no identity or that of the peer. `required` is the
    /// name that the field of the request stands for, none if it does not stand for a name.
    pub fn call(&self, required: Option<String>) -> (r: Result<(), IdentityRequired>)
        ensures
            r is Ok <==> (required matches Some(id) ==> satisfies(self.tls, id@)),
            r matches Err(e) ==> {
                &&& e.required@ == required->0@
                &&& match self.tls {
                    ConditionalClientTls::Tls { server_id } => e.found is Some && e.found->0@
                        == server_id@,
                    ConditionalClientTls::Clear => e.found is None,
                }
            },
            required is None ==> r is Ok,
            required is Some && self.tls is Clear ==> r is Err,
    {
        if let Some(require_id) = required {
            match &self.tls {
                ConditionalClientTls::Tls { server_id } => {
                    if require_id != *server_id {
                        return Err(
                            IdentityRequired {
                                required: require_id,
                                found: Some(server_id.clone()),
                            },
                        );
                    }
                },
                ConditionalClientTls::Clear => {
                    return Err(IdentityRequired { required: require_id, found: None });
                },
            }
        }
        Ok(())
    }
}

/// A peer satisfies a request exactly if it has an identity and that is the required one. Traffic
/// in the clear satisfies none.
pub proof fn only_the_required_peer_satisfies(server_id: String, required: Seq<char>)
    ensures
        satisfies(ConditionalClientTls::Tls { server_id }, required) <==> server_id@ == required,
        !satisfies(ConditionalClientTls::Clear, required),
{
}

/// A request requires what its first `l5d-require-id` field says, if that is text, and nothing
/// otherwise.
pub proof fn first_field_says_what_is_required(fields: Map<Seq<char>, Seq<Seq<u8>>>)
    ensures
        !fields.contains_key("l5d-require-id"@) ==> required_text(fields) is None,
        fields.contains_key("l5d-require-id"@) && is_text(fields["l5d-require-id"@][0])
            ==> required_text(fields) == Some(fields["l5d-require-id"@][0]),
        fields.contains_key("l5d-require-id"@) && !is_text(fields["l5d-require-id"@][0])
            ==> required_text(fields) is None,
{
    reveal_strlit("l5d-require-id");
    lower_case_names_are_kept("l5d-require-id"@);
}

} // verus!
