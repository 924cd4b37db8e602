//! What a peer proxy says about its connections, and what is passed on of it.

use crate::headers::{first_value, header_fields, header_get, header_key, header_remove};
use crate::text::eq_bytes;
use http::{HeaderMap, HeaderValue};
use vstd::prelude::*;
use vstd::string::StringSliceAdditionalSpecFns;

verus! {

/// A stack whose services watch for errors of peer proxies.
#[derive(Clone, Debug)]
pub struct NewHandleProxyError<N> {
    pub inner: N,
}

/// A service that watches for errors of peer proxies.
#[derive(Clone, Debug)]
pub struct HandleProxyError<N> {
    pub inner: N,
}

impl<N> NewHandleProxyError<N> {
    pub fn new(inner: N) -> (s: NewHandleProxyError<N>)
        ensures
            s.inner == inner,
    {
        NewHandleProxyError { inner }
    }

    pub fn new_service<S>(&self, inner: S) -> (s: HandleProxyError<S>)
        ensures
            s.inner == inner,
    {
        HandleProxyError { inner }
    }
}

impl<S> HandleProxyError<S> {
    /// Whether the connection of the client is closed after a response: if the peer proxy met an
    /// error, and there is a client.
    pub fn closes_client(&self, headers: &HeaderMap<HeaderValue>, has_client: bool) -> (b: bool)
        ensures
            b == (has_client && first_value(header_fields(*headers), "l5d-proxy-error"@) is Some),
    {
        match header_get(headers, "l5d-proxy-error") {
            Some(_) => has_client,
            None => false,
        }
    }
}

/// Both a stack and a service, which closes the connection of the client when the peer proxy met
/// an error.
#[derive(Clone, Debug)]
pub struct PeerProxyErrors<N> {
    pub inner: N,
}

impl<N> PeerProxyErrors<N> {
    pub fn new(inner: N) -> (s: PeerProxyErrors<N>)
        ensures
            s.inner == inner,
    {
        PeerProxyErrors { inner }
    }

    /// Whether the connection of the client is closed after a response.
    pub fn closes_client(&self, headers: &HeaderMap<HeaderValue>) -> (b: bool)
        ensures
            b == (first_value(header_fields(*headers), "l5d-proxy-error"@) is Some),
    {
        match header_get(headers, "l5d-proxy-error") {
            Some(_) => true,
            None => false,
        }
    }
}

/// Both a stack and a service, which closes the connection of the client when the peer proxy asks
/// for that.
#[derive(Clone, Debug)]
pub struct ProxyConnectionClose<N> {
    pub inner: N,
}

impl<N> ProxyConnectionClose<N> {
    pub fn new(inner: N) -> (s: ProxyConnectionClose<N>)
        ensures
            s.inner == inner,
    {
        ProxyConnectionClose { inner }
    }

    /// Whether the connection of the client is closed after a response.
    pub fn closes_client(&self, headers: &HeaderMap<HeaderValue>) -> (b: bool)
        ensures
            b == (first_value(header_fields(*headers), "l5d-proxy-connection"@) == Some(
                "close".spec_bytes(),
            )),
    {
        match header_get(headers, "l5d-proxy-connection") {
            Some(v) => eq_bytes(&v, "close".as_bytes()),
            None => false,
        }
    }
}

/// A stack whose services may keep the errors of the proxy to themselves.
#[derive(Clone, Debug)]
pub struct NewStripProxyError<N> {
    pub strip: bool,
    pub inner: N,
}

impl<N> NewStripProxyError<N> {
    /// Errors are passed on only if informational headers are.
    pub fn new(emit_headers: bool, inner: N) -> (s: NewStripProxyError<N>)
        ensures
            s.strip == !emit_headers,
            s.inner == inner,
    {
        NewStripProxyError { strip: !emit_headers, inner }
    }

    /// Takes the error of the proxy out of a response that must not carry it.
    pub fn strip_response(&self, headers: &mut HeaderMap<HeaderValue>)
        ensures
            header_fields(*final(headers)) == if self.strip {
                header_fields(*old(headers)).remove(header_key("l5d-proxy-error"@))
            } else {
                header_fields(*old(headers))
            },
    {
        if self.strip {
            let _ = header_remove(headers, "l5d-proxy-error");
        }
    }
}

} // verus!
