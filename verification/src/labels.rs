//! Labels of metrics.

use crate::classify::Code;
use crate::errors::{
    Cause, Error as RequestError, H2Error, Kind, CANCEL, ENHANCE_YOUR_CALM, REFUSED_STREAM,
};
use crate::headers::{known_code, number_of};
use crate::target::Meta;
use std::sync::Arc;
use vstd::prelude::*;

verus! {

/// The error that a request is counted under.
#[derive(Clone, Copy, Debug, PartialEq, Eq, Hash, Structural)]
pub enum Error {
    FailFast,
    LoadShed,
    RequestTimeout,
    ResponseHeadersTimeout,
    ResponseStreamTimeout,
    IdleTimeout,
    Cancel,
    Refused,
    EnhanceYourCalm,
    Reset,
    GoAway,
    Io,
    Unknown,
}

/// The label of an HTTP/2 error. The reason tells resets apart; other errors have none.
pub open spec fn h2_label(e: H2Error) -> Error {
    if e.is_reset {
        if e.reason == Some(CANCEL) {
            Error::Cancel
        } else if e.reason == Some(REFUSED_STREAM) {
            Error::Refused
        } else if e.reason == Some(ENHANCE_YOUR_CALM) {
            Error::EnhanceYourCalm
        } else {
            Error::Reset
        }
    } else if e.is_go_away {
        Error::GoAway
    } else if e.is_io {
        Error::Io
    } else {
        Error::Unknown
    }
}

/// The label of an error, or the status when the error was a response that a route made up. What
/// the error is caused by is looked for in a fixed order.
pub open spec fn label_or_status(error: RequestError) -> Result<Error, u16> {
    if error.caused_by(Kind::FailFast) {
        Ok(Error::FailFast)
    } else if error.caused_by(Kind::LoadShed) {
        Ok(Error::LoadShed)
    } else if error.caused_by(Kind::HttpRouteRedirect) {
        Err(error.find(Kind::HttpRouteRedirect)->0.cause->HttpRouteRedirect_0.status)
    } else if error.caused_by(Kind::HttpRouteInjectedFailure) {
        Err(error.find(Kind::HttpRouteInjectedFailure)->0.cause->HttpRouteInjectedFailure_0.status)
    } else if error.caused_by(Kind::GrpcRouteInjectedFailure) {
        Err(error.find(Kind::GrpcRouteInjectedFailure)->0.cause->GrpcRouteInjectedFailure_0.code)
    } else if error.caused_by(Kind::ResponseHeadersTimeout) {
        Ok(Error::ResponseHeadersTimeout)
    } else if error.caused_by(Kind::ResponseStreamTimeout) {
        Ok(Error::ResponseStreamTimeout)
    } else if error.caused_by(Kind::StreamDeadline) {
        Ok(Error::RequestTimeout)
    } else if error.caused_by(Kind::StreamIdle) {
        Ok(Error::IdleTimeout)
    } else if error.caused_by(Kind::H2) {
        Ok(h2_label(error.find(Kind::H2)->0.cause->H2_0))
    } else {
        Ok(Error::Unknown)
    }
}

impl Error {
    /// The label of an error, or the status that a route made up.
    pub fn new_or_status(error: &RequestError) -> (r: Result<Error, u16>)
        ensures
            r == label_or_status(*error),
    {
        if error.is_caused_by(Kind::FailFast) {
            return Ok(Error::FailFast);
        }
        if error.is_caused_by(Kind::LoadShed) {
            return Ok(Error::LoadShed);
        }
        if let Some(link) = error.cause_ref(Kind::HttpRouteRedirect) {
            if let Cause::HttpRouteRedirect(redirect) = &link.cause {
                return Err(redirect.status);
            }
        }
        if let Some(link) = error.cause_ref(Kind::HttpRouteInjectedFailure) {
            if let Cause::HttpRouteInjectedFailure(failure) = &link.cause {
                return Err(failure.status);
            }
        }
        if let Some(link) = error.cause_ref(Kind::GrpcRouteInjectedFailure) {
            if let Cause::GrpcRouteInjectedFailure(failure) = &link.cause {
                return Err(failure.code);
            }
        }
        if error.is_caused_by(Kind::ResponseHeadersTimeout) {
            return Ok(Error::ResponseHeadersTimeout);
        }
        if error.is_caused_by(Kind::ResponseStreamTimeout) {
            return Ok(Error::ResponseStreamTimeout);
        }
        if error.is_caused_by(Kind::StreamDeadline) {
            return Ok(Error::RequestTimeout);
        }
        if error.is_caused_by(Kind::StreamIdle) {
            return Ok(Error::IdleTimeout);
        }
        if let Some(link) = error.cause_ref(Kind::H2) {
            if let Cause::H2(h2e) = &link.cause {
                if h2e.is_reset {
                    return match h2e.reason {
                        Some(CANCEL) => Ok(Error::Cancel),
                        Some(REFUSED_STREAM) => Ok(Error::Refused),
                        Some(ENHANCE_YOUR_CALM) => Ok(Error::EnhanceYourCalm),
                        _ => Ok(Error::Reset),
                    };
                }
                if h2e.is_go_away {
                    return Ok(Error::GoAway);
                }
                if h2e.is_io {
                    return Ok(Error::Io);
                }
            }
        }
        Ok(Error::Unknown)
    }

    /// The value of the label.
    pub open spec fn text(self) -> Seq<char> {
        match self {
            Error::FailFast => "FAIL_FAST"@,
            Error::LoadShed => "LOAD_SHED"@,
            Error::RequestTimeout => "REQUEST_TIMEOUT"@,
            Error::ResponseHeadersTimeout => "RESPONSE_HEADERS_TIMEOUT"@,
            Error::ResponseStreamTimeout => "RESPONSE_STREAM_TIMEOUT"@,
            Error::IdleTimeout => "IDLE_TIMEOUT"@,
            Error::Cancel => "CANCEL"@,
            Error::Refused => "REFUSED"@,
            Error::EnhanceYourCalm => "ENHANCE_YOUR_CALM"@,
            Error::Reset => "RESET"@,
            Error::GoAway => "GO_AWAY"@,
            Error::Io => "IO"@,
            Error::Unknown => "UNKNOWN"@,
        }
    }

    pub fn as_str(&self) -> (s: &'static str)
        ensures
            s@ == self.text(),
    {
        match self {
            Error::FailFast => "FAIL_FAST",
            Error::LoadShed => "LOAD_SHED",
            Error::RequestTimeout => "REQUEST_TIMEOUT",
            Error::ResponseHeadersTimeout => "RESPONSE_HEADERS_TIMEOUT",
            Error::ResponseStreamTimeout => "RESPONSE_STREAM_TIMEOUT",
            Error::IdleTimeout => "IDLE_TIMEOUT",
            Error::Cancel => "CANCEL",
            Error::Refused => "REFUSED",
            Error::EnhanceYourCalm => "ENHANCE_YOUR_CALM",
            Error::Reset => "RESET",
            Error::GoAway => "GO_AWAY",
            Error::Io => "IO",
            Error::Unknown => "UNKNOWN",
        }
    }
}

/// The host of a URI in text, as `Uri::host` gives it.
pub uninterp spec fn uri_host(uri: Seq<char>) -> Option<Seq<char>>;

/// The characters of an optional text.
pub open spec fn chars_of(text: Option<String>) -> Option<Seq<char>> {
    match text {
        Some(t) => Some(t@),
        None => None,
    }
}

/// Calls `Uri::host` of the `http` crate on a URI in text. The claim: the host, and whether there
/// is one, depends on the text alone. A text that is no URI has no host. Which part of the text is
/// the host is not said here.
#[verifier::external_body]
fn host_of(uri: &str) -> (r: Option<String>)
    ensures
        chars_of(r) == uri_host(uri@),
{
    match uri.parse::<http::Uri>() {
        Ok(uri) => uri.host().map(str::to_owned),
        Err(_) => None,
    }
}

/// What a route is counted under. It has a host name only where host names are exported and the
/// host is a name.
#[derive(Debug, Hash)]
pub struct HttpRoute {
    pub parent: Arc<Meta>,
    pub route: Arc<Meta>,
    pub name: Option<String>,
}

impl HttpRoute {
    /// The host that a request is counted under if it is a DNS name.
    pub fn host(export_hostname_labels: bool, uri: &str) -> (r: Option<String>)
        ensures
            chars_of(r) == if export_hostname_labels {
                uri_host(uri@)
            } else {
                None
            },
    {
        if export_hostname_labels {
            host_of(uri)
        } else {
            None
        }
    }

    /// The labels of a route. `is_name` says whether the host is a DNS name.
    pub fn new(parent: Arc<Meta>, route: Arc<Meta>, host: Option<String>, is_name: bool) -> (r:
        HttpRoute)
        ensures
            r.parent == parent,
            r.route == route,
            r.name == if is_name {
                host
            } else {
                None
            },
    {
        HttpRoute {
            parent,
            route,
            name: if is_name {
                host
            } else {
                None
            },
        }
    }
}

impl HttpRoute {
    /// The labels of a route for a request with the given URI. `is_name` says whether the host of
    /// the URI is a DNS name.
    pub fn for_uri(
        parent: Arc<Meta>,
        route: Arc<Meta>,
        export_hostname_labels: bool,
        uri: &str,
        is_name: bool,
    ) -> (r: HttpRoute)
        ensures
            r.parent == parent,
            r.route == route,
            chars_of(r.name) == if export_hostname_labels && is_name {
                uri_host(uri@)
            } else {
                None
            },
    {
        let host = HttpRoute::host(export_hostname_labels, uri);
        HttpRoute::new(parent, route, host, is_name)
    }
}

/// What a gRPC route is counted under.
#[derive(Debug, Hash)]
pub struct GrpcRoute(pub Arc<Meta>, pub Arc<Meta>);

/// What a backend of a route is counted under: its parent, its route and itself.
#[derive(Debug, Hash)]
pub struct RouteBackend(pub Arc<Meta>, pub Arc<Meta>, pub Arc<Meta>);

/// What a response is counted under, next to what it came from.
#[derive(Clone, Copy, Debug, PartialEq, Eq, Hash)]
pub struct Rsp<P, L>(pub P, pub L);

/// What an HTTP response is counted under.
#[derive(Clone, Copy, Debug, PartialEq, Eq, Hash)]
pub struct HttpRsp {
    pub status: Option<u16>,
    pub error: Option<Error>,
}

/// What a gRPC response is counted under.
#[derive(Clone, Copy, Debug, PartialEq, Eq, Hash)]
pub struct GrpcRsp {
    pub status: Option<Code>,
    pub error: Option<Error>,
}

/// The name of a gRPC code. A response without one counts as unknown.
pub open spec fn grpc_status_text(status: Option<Code>) -> Seq<char> {
    match status {
        Some(Code::Okay) => "OK"@,
        Some(Code::Cancelled) => "CANCELLED"@,
        Some(Code::InvalidArgument) => "INVALID_ARGUMENT"@,
        Some(Code::DeadlineExceeded) => "DEADLINE_EXCEEDED"@,
        Some(Code::NotFound) => "NOT_FOUND"@,
        Some(Code::AlreadyExists) => "ALREADY_EXISTS"@,
        Some(Code::PermissionDenied) => "PERMISSION_DENIED"@,
        Some(Code::ResourceExhausted) => "RESOURCE_EXHAUSTED"@,
        Some(Code::FailedPrecondition) => "FAILED_PRECONDITION"@,
        Some(Code::Aborted) => "ABORTED"@,
        Some(Code::OutOfRange) => "OUT_OF_RANGE"@,
        Some(Code::Unimplemented) => "UNIMPLEMENTED"@,
        Some(Code::Internal) => "INTERNAL"@,
        Some(Code::Unavailable) => "UNAVAILABLE"@,
        Some(Code::DataLoss) => "DATA_LOSS"@,
        Some(Code::Unauthenticated) => "UNAUTHENTICATED"@,
        Some(Code::Unknown) => "UNKNOWN"@,
        None => "UNKNOWN"@,
    }
}

/// The value of an optional error label. Without an error it is empty.
pub open spec fn error_text(error: Option<Error>) -> Seq<char> {
    match error {
        Some(e) => e.text(),
        None => ""@,
    }
}

fn error_str(error: Option<Error>) -> (s: &'static str)
    ensures
        s@ == error_text(error),
{
    match error {
        Some(e) => e.as_str(),
        None => "",
    }
}

impl HttpRsp {
    /// The labels `http_status` and `error`, in this order.
    pub fn encode_label_set(&self) -> (r: (Option<u16>, &'static str))
        ensures
            r.0 == self.status,
            r.1@ == error_text(self.error),
    {
        (self.status, error_str(self.error))
    }
}

impl GrpcRsp {
    /// The labels `grpc_status` and `error`, in this order.
    pub fn encode_label_set(&self) -> (r: (&'static str, &'static str))
        ensures
            r.0@ == grpc_status_text(self.status),
            r.1@ == error_text(self.error),
    {
        let code = match self.status {
            Some(code) => code,
            None => Code::Unknown,
        };
        let status = match code {
            Code::Okay => "OK",
            Code::Cancelled => "CANCELLED",
            Code::InvalidArgument => "INVALID_ARGUMENT",
            Code::DeadlineExceeded => "DEADLINE_EXCEEDED",
            Code::NotFound => "NOT_FOUND",
            Code::AlreadyExists => "ALREADY_EXISTS",
            Code::PermissionDenied => "PERMISSION_DENIED",
            Code::ResourceExhausted => "RESOURCE_EXHAUSTED",
            Code::FailedPrecondition => "FAILED_PRECONDITION",
            Code::Aborted => "ABORTED",
            Code::OutOfRange => "OUT_OF_RANGE",
            Code::Unimplemented => "UNIMPLEMENTED",
            Code::Internal => "INTERNAL",
            Code::Unavailable => "UNAVAILABLE",
            Code::DataLoss => "DATA_LOSS",
            Code::Unauthenticated => "UNAUTHENTICATED",
            _ => "UNKNOWN",
        };
        (status, error_str(self.error))
    }
}

/// Follows an HTTP response to find out what it is counted under.
#[derive(Debug)]
pub struct LabelHttpRsp<P> {
    pub parent: P,
    pub status: Option<u16>,
    pub error: Option<Result<Error, u16>>,
}

impl<P> LabelHttpRsp<P> {
    pub fn new(parent: P) -> (l: LabelHttpRsp<P>)
        ensures
            l.parent == parent,
            l.status is None,
            l.error is None,
    {
        LabelHttpRsp { parent, status: None, error: None }
    }

    /// Notes the head of the response.
    pub fn init_response(&mut self, status: u16)
        ensures
            *final(self) == (LabelHttpRsp { status: Some(status), ..*old(self) }),
    {
        self.status = Some(status);
    }

    /// Notes how the response ended.
    pub fn end_response(&mut self, res: Result<(), &RequestError>)
        ensures
            final(self).parent == old(self).parent,
            final(self).status == old(self).status,
            final(self).error == match res {
                Ok(_) => old(self).error,
                Err(e) => Some(label_or_status(*e)),
            },
    {
        if let Err(e) = res {
            self.error = Some(Error::new_or_status(e));
        }
    }

    /// What the response is counted under: the status in its head and the error that ended it. A
    /// response that a route made up counts under the status of it.
    pub open spec fn labels(self) -> HttpRsp {
        match self.error {
            None => HttpRsp { status: self.status, error: None },
            Some(Ok(label)) => HttpRsp { status: self.status, error: Some(label) },
            Some(Err(code)) => HttpRsp { status: Some(code), error: None },
        }
    }

    pub fn status_labels(&self) -> (r: HttpRsp)
        ensures
            r == self.labels(),
    {
        match self.error {
            None => HttpRsp { status: self.status, error: None },
            Some(Ok(label)) => HttpRsp { status: self.status, error: Some(label) },
            Some(Err(code)) => HttpRsp { status: Some(code), error: None },
        }
    }
}

/// Follows a gRPC response to find out what it is counted under.
#[derive(Debug)]
pub struct LabelGrpcRsp<P> {
    pub parent: P,
    pub status: Option<Code>,
    pub error: Option<Result<Error, u16>>,
}

impl<P> LabelGrpcRsp<P> {
    pub fn new(parent: P) -> (l: LabelGrpcRsp<P>)
        ensures
            l.parent == parent,
            l.status is None,
            l.error is None,
    {
        LabelGrpcRsp { parent, status: None, error: None }
    }

    /// Notes the code in the head of the response, if there is one.
    pub fn init_response(&mut self, status: Option<Code>)
        ensures
            *final(self) == (LabelGrpcRsp { status, ..*old(self) }),
    {
        self.status = status;
    }

    /// Notes how the response ended, with the code in its trailers if there is one.
    pub fn end_response(&mut self, res: Result<Option<Code>, &RequestError>)
        ensures
            final(self).parent == old(self).parent,
            final(self).status == match res {
                Ok(Some(code)) => Some(code),
                _ => old(self).status,
            },
            final(self).error == match res {
                Ok(_) => old(self).error,
                Err(e) => Some(label_or_status(*e)),
            },
    {
        match res {
            Ok(Some(code)) => {
                self.status = Some(code);
            },
            Ok(None) => {},
            Err(e) => {
                self.error = Some(Error::new_or_status(e));
            },
        }
    }

    /// What the response is counted under: its code and the error that ended it. A response that
    /// a route made up counts under the code of it.
    pub fn status_labels(&self) -> (r: GrpcRsp)
        ensures
            match self.error {
                None => r == (GrpcRsp { status: self.status, error: None }),
                Some(Ok(label)) => r == (GrpcRsp { status: self.status, error: Some(label) }),
                Some(Err(code)) => r.error is None && number_of(r.status) == Some(
                    known_code(code as int),
                ),
            },
    {
        match self.error {
            None => GrpcRsp { status: self.status, error: None },
            Some(Ok(label)) => GrpcRsp { status: self.status, error: Some(label) },
            Some(Err(code)) => GrpcRsp { status: Some(Code::from_i32(code as i32)), error: None },
        }
    }
}

/// Resets of HTTP/2 streams are told apart by their reasons, 8, 7 and 11 of the protocol. Other
/// HTTP/2 errors have no use for one.
pub proof fn resets_go_by_reason(e: H2Error)
    ensures
        e.is_reset && e.reason == Some(8u32) ==> h2_label(e) is Cancel,
        e.is_reset && e.reason == Some(7u32) ==> h2_label(e) is Refused,
        e.is_reset && e.reason == Some(11u32) ==> h2_label(e) is EnhanceYourCalm,
        e.is_reset && e.reason != Some(8u32) && e.reason != Some(7u32) && e.reason != Some(11u32)
            ==> h2_label(e) is Reset,
        !e.is_reset && e.is_go_away ==> h2_label(e) is GoAway,
        !e.is_reset && !e.is_go_away && e.is_io ==> h2_label(e) is Io,
        !e.is_reset && !e.is_go_away && !e.is_io ==> h2_label(e) is Unknown,
{
}

/// An error is counted under the first of its causes in a fixed order, whatever else it is caused
/// by. What a route answered with is no error, but a status.
pub proof fn errors_are_counted_by_rank(error: RequestError)
    ensures
        error.caused_by(Kind::FailFast) ==> label_or_status(error) == Ok::<Error, u16>(Error::FailFast),
        error.caused_by(Kind::LoadShed)
            && !error.caused_by(Kind::FailFast) ==> label_or_status(error) == Ok::<Error, u16>(Error::LoadShed),
        error.caused_by(Kind::HttpRouteRedirect)
            && !error.caused_by(Kind::FailFast)
            && !error.caused_by(Kind::LoadShed) ==> (error.find(
            Kind::HttpRouteRedirect,
        )->0.cause matches Cause::HttpRouteRedirect(c) ==> label_or_status(error) == Err::<Error, u16>(c.status)),
        error.caused_by(Kind::HttpRouteInjectedFailure)
            && !error.caused_by(Kind::FailFast)
            && !error.caused_by(Kind::LoadShed)
            && !error.caused_by(Kind::HttpRouteRedirect) ==> (error.find(
            Kind::HttpRouteInjectedFailure,
        )->0.cause matches Cause::HttpRouteInjectedFailure(c) ==> label_or_status(error) == Err::<Error, u16>(c.status)),
        error.caused_by(Kind::GrpcRouteInjectedFailure)
            && !error.caused_by(Kind::FailFast)
            && !error.caused_by(Kind::LoadShed)
            && !error.caused_by(Kind::HttpRouteRedirect)
            && !error.caused_by(Kind::HttpRouteInjectedFailure) ==> (error.find(
            Kind::GrpcRouteInjectedFailure,
        )->0.cause matches Cause::GrpcRouteInjectedFailure(c) ==> label_or_status(error) == Err::<Error, u16>(c.code)),
        error.caused_by(Kind::ResponseHeadersTimeout)
            && !error.caused_by(Kind::FailFast)
            && !error.caused_by(Kind::LoadShed)
            && !error.caused_by(Kind::HttpRouteRedirect)
            && !error.caused_by(Kind::HttpRouteInjectedFailure)
            && !error.caused_by(Kind::GrpcRouteInjectedFailure) ==> label_or_status(error) == Ok::<Error, u16>(Error::ResponseHeadersTimeout),
        error.caused_by(Kind::ResponseStreamTimeout)
            && !error.caused_by(Kind::FailFast)
            && !error.caused_by(Kind::LoadShed)
            && !error.caused_by(Kind::HttpRouteRedirect)
            && !error.caused_by(Kind::HttpRouteInjectedFailure)
            && !error.caused_by(Kind::GrpcRouteInjectedFailure)
            && !error.caused_by(Kind::ResponseHeadersTimeout) ==> label_or_status(error) == Ok::<Error, u16>(Error::ResponseStreamTimeout),
        error.caused_by(Kind::StreamDeadline)
            && !error.caused_by(Kind::FailFast)
            && !error.caused_by(Kind::LoadShed)
            && !error.caused_by(Kind::HttpRouteRedirect)
            && !error.caused_by(Kind::HttpRouteInjectedFailure)
            && !error.caused_by(Kind::GrpcRouteInjectedFailure)
            && !error.caused_by(Kind::ResponseHeadersTimeout)
            && !error.caused_by(Kind::ResponseStreamTimeout) ==> label_or_status(error) == Ok::<Error, u16>(Error::RequestTimeout),
        error.caused_by(Kind::StreamIdle)
            && !error.caused_by(Kind::FailFast)
            && !error.caused_by(Kind::LoadShed)
            && !error.caused_by(Kind::HttpRouteRedirect)
            && !error.caused_by(Kind::HttpRouteInjectedFailure)
            && !error.caused_by(Kind::GrpcRouteInjectedFailure)
            && !error.caused_by(Kind::ResponseHeadersTimeout)
            && !error.caused_by(Kind::ResponseStreamTimeout)
            && !error.caused_by(Kind::StreamDeadline) ==> label_or_status(error) == Ok::<Error, u16>(Error::IdleTimeout),
        error.caused_by(Kind::H2)
            && !error.caused_by(Kind::FailFast)
            && !error.caused_by(Kind::LoadShed)
            && !error.caused_by(Kind::HttpRouteRedirect)
            && !error.caused_by(Kind::HttpRouteInjectedFailure)
            && !error.caused_by(Kind::GrpcRouteInjectedFailure)
            && !error.caused_by(Kind::ResponseHeadersTimeout)
            && !error.caused_by(Kind::ResponseStreamTimeout)
            && !error.caused_by(Kind::StreamDeadline)
            && !error.caused_by(Kind::StreamIdle) ==> (error.find(Kind::H2)->0.cause
            matches Cause::H2(e) ==> label_or_status(error) == Ok::<Error, u16>(h2_label(e))),
        !error.caused_by(Kind::FailFast)
            && !error.caused_by(Kind::LoadShed)
            && !error.caused_by(Kind::HttpRouteRedirect)
            && !error.caused_by(Kind::HttpRouteInjectedFailure)
            && !error.caused_by(Kind::GrpcRouteInjectedFailure)
            && !error.caused_by(Kind::ResponseHeadersTimeout)
            && !error.caused_by(Kind::ResponseStreamTimeout)
            && !error.caused_by(Kind::StreamDeadline)
            && !error.caused_by(Kind::StreamIdle)
            && !error.caused_by(Kind::H2) ==> label_or_status(error)
            == Ok::<Error, u16>(Error::Unknown),
{
}

/// A response is counted under its status and its error. One that a route answered with is counted
/// under the status of that answer, without an error.
pub proof fn responses_are_counted_by_status_and_error<P>(l: LabelHttpRsp<P>)
    ensures
        l.error is None ==> l.labels().status == l.status && l.labels().error is None,
        l.error matches Some(Ok(label)) ==> l.labels().status == l.status && l.labels().error == Some(
            label,
        ),
        l.error matches Some(Err(code)) ==> l.labels().status == Some(code) && l.labels().error
            is None,
{
}

/// Each error has a text of its own.
pub proof fn errors_have_texts(e: Error)
    ensures
        e is FailFast ==> e.text() == "FAIL_FAST"@,
        e is LoadShed ==> e.text() == "LOAD_SHED"@,
        e is RequestTimeout ==> e.text() == "REQUEST_TIMEOUT"@,
        e is ResponseHeadersTimeout ==> e.text() == "RESPONSE_HEADERS_TIMEOUT"@,
        e is ResponseStreamTimeout ==> e.text() == "RESPONSE_STREAM_TIMEOUT"@,
        e is IdleTimeout ==> e.text() == "IDLE_TIMEOUT"@,
        e is Cancel ==> e.text() == "CANCEL"@,
        e is Refused ==> e.text() == "REFUSED"@,
        e is EnhanceYourCalm ==> e.text() == "ENHANCE_YOUR_CALM"@,
        e is Reset ==> e.text() == "RESET"@,
        e is GoAway ==> e.text() == "GO_AWAY"@,
        e is Io ==> e.text() == "IO"@,
        e is Unknown ==> e.text() == "UNKNOWN"@,
        error_text(Some(e)) == e.text(),
        error_text(None).len() == 0,
{
    reveal_strlit("");
}

/// Each code has a text of its own, which is its name in gRPC. No code counts as unknown.
pub proof fn codes_have_texts(code: Code)
    ensures
        code is Okay ==> grpc_status_text(Some(code)) == "OK"@,
        code is Cancelled ==> grpc_status_text(Some(code)) == "CANCELLED"@,
        code is Unknown ==> grpc_status_text(Some(code)) == "UNKNOWN"@,
        code is InvalidArgument ==> grpc_status_text(Some(code)) == "INVALID_ARGUMENT"@,
        code is DeadlineExceeded ==> grpc_status_text(Some(code)) == "DEADLINE_EXCEEDED"@,
        code is NotFound ==> grpc_status_text(Some(code)) == "NOT_FOUND"@,
        code is AlreadyExists ==> grpc_status_text(Some(code)) == "ALREADY_EXISTS"@,
        code is PermissionDenied ==> grpc_status_text(Some(code)) == "PERMISSION_DENIED"@,
        code is ResourceExhausted ==> grpc_status_text(Some(code)) == "RESOURCE_EXHAUSTED"@,
        code is FailedPrecondition ==> grpc_status_text(Some(code)) == "FAILED_PRECONDITION"@,
        code is Aborted ==> grpc_status_text(Some(code)) == "ABORTED"@,
        code is OutOfRange ==> grpc_status_text(Some(code)) == "OUT_OF_RANGE"@,
        code is Unimplemented ==> grpc_status_text(Some(code)) == "UNIMPLEMENTED"@,
        code is Internal ==> grpc_status_text(Some(code)) == "INTERNAL"@,
        code is Unavailable ==> grpc_status_text(Some(code)) == "UNAVAILABLE"@,
        code is DataLoss ==> grpc_status_text(Some(code)) == "DATA_LOSS"@,
        code is Unauthenticated ==> grpc_status_text(Some(code)) == "UNAUTHENTICATED"@,
        grpc_status_text(None) == "UNKNOWN"@,
{
}

} // verus!
