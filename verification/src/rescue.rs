//! Which errors become responses, and what those responses are.

use crate::classify::Code;
use crate::errors::{Cause, Error, Kind};
use crate::headers::known_code;
use vstd::prelude::*;

verus! {

/// A response that stands for an error.
#[derive(Debug)]
pub enum SyntheticHttpResponse {
    GatewayTimeout(String),
    BadGateway(String),
    Unavailable(String),
    NotFound(String),
    Redirect(u16, String),
    /// A plain response with a status and a message.
    Response(u16, String),
    /// A gRPC response with a code and a message.
    Grpc(Code, String),
    UnexpectedError,
}

/// What becomes of an error at the edge of the proxy.
pub enum Rescued {
    /// A response with the message of the error as a whole.
    GatewayTimeout,
    BadGateway,
    Unavailable,
    NotFound,
    /// A response that a route made up, with the details of the error of this kind.
    Route(Kind),
    UnexpectedError,
    /// The error is handed on.
    Forward,
}

/// The response for an error, by the first of these that it is caused by.
pub open spec fn edge_verdict(error: Error) -> Rescued {
    if error.caused_by(Kind::ResponseTimeout) {
        Rescued::GatewayTimeout
    } else if error.caused_by(Kind::IdentityRequired) {
        Rescued::BadGateway
    } else if error.caused_by(Kind::FailFast) {
        Rescued::GatewayTimeout
    } else if error.caused_by(Kind::LoadShed) {
        Rescued::Unavailable
    } else if error.caused_by(Kind::DispatcherFailed) {
        Rescued::BadGateway
    } else if error.caused_by(Kind::NoRoute) {
        Rescued::NotFound
    } else if error.caused_by(Kind::HttpRouteRedirect) {
        Rescued::Route(Kind::HttpRouteRedirect)
    } else if error.caused_by(Kind::HttpRouteInjectedFailure) {
        Rescued::Route(Kind::HttpRouteInjectedFailure)
    } else if error.caused_by(Kind::GrpcRouteInjectedFailure) {
        Rescued::Route(Kind::GrpcRouteInjectedFailure)
    } else if error.caused_by(Kind::H2) {
        Rescued::Forward
    } else {
        Rescued::UnexpectedError
    }
}

/// Whether a result carries out a verdict on an error.
pub open spec fn carries_out(
    verdict: Rescued,
    error: Error,
    r: Result<SyntheticHttpResponse, Error>,
) -> bool {
    match verdict {
        Rescued::GatewayTimeout => r matches Ok(SyntheticHttpResponse::GatewayTimeout(m)) && m@
            == error.outer.message@,
        Rescued::BadGateway => r matches Ok(SyntheticHttpResponse::BadGateway(m)) && m@
            == error.outer.message@,
        Rescued::Unavailable => r matches Ok(SyntheticHttpResponse::Unavailable(m)) && m@
            == error.outer.message@,
        Rescued::NotFound => r matches Ok(SyntheticHttpResponse::NotFound(m)) && m@
            == error.outer.message@,
        Rescued::Route(kind) => match error.find(kind)->0.cause {
            Cause::HttpRouteRedirect(c) => r matches Ok(SyntheticHttpResponse::Redirect(s, l)) && s
                == c.status && l@ == c.location@,
            Cause::HttpRouteInjectedFailure(c) => r matches Ok(
                SyntheticHttpResponse::Response(s, m),
            ) && s == c.status && m@ == c.message@,
            Cause::GrpcRouteInjectedFailure(c) => r matches Ok(SyntheticHttpResponse::Grpc(s, m))
                && s.number() == known_code(c.code as int) && m@ == c.message@,
            _ => false,
        },
        Rescued::UnexpectedError => r matches Ok(SyntheticHttpResponse::UnexpectedError),
        Rescued::Forward => r matches Err(e) && e == error,
    }
}

/// Makes responses of errors where the proxy faces the application.
#[derive(Clone, Copy, Debug)]
pub struct ServerRescue {
    pub emit_headers: bool,
}

impl ServerRescue {
    pub fn rescue(&self, error: Error) -> (r: Result<SyntheticHttpResponse, Error>)
        ensures
            carries_out(edge_verdict(error), error, r),
    {
        if error.is_caused_by(Kind::ResponseTimeout) {
            return Ok(SyntheticHttpResponse::GatewayTimeout(error.outer.message));
        }
        if error.is_caused_by(Kind::IdentityRequired) {
            return Ok(SyntheticHttpResponse::BadGateway(error.outer.message));
        }
        if error.is_caused_by(Kind::FailFast) {
            return Ok(SyntheticHttpResponse::GatewayTimeout(error.outer.message));
        }
        if error.is_caused_by(Kind::LoadShed) {
            return Ok(SyntheticHttpResponse::Unavailable(error.outer.message));
        }
        if error.is_caused_by(Kind::DispatcherFailed) {
            return Ok(SyntheticHttpResponse::BadGateway(error.outer.message));
        }
        if error.is_caused_by(Kind::NoRoute) {
            return Ok(SyntheticHttpResponse::NotFound(error.outer.message));
        }
        if let Some(link) = error.cause_ref(Kind::HttpRouteRedirect) {
            if let Cause::HttpRouteRedirect(redirect) = &link.cause {
                return Ok(
                    SyntheticHttpResponse::Redirect(redirect.status, redirect.location.clone()),
                );
            }
        }
        if let Some(link) = error.cause_ref(Kind::HttpRouteInjectedFailure) {
            if let Cause::HttpRouteInjectedFailure(failure) = &link.cause {
                return Ok(SyntheticHttpResponse::Response(failure.status, failure.message.clone()));
            }
        }
        if let Some(link) = error.cause_ref(Kind::GrpcRouteInjectedFailure) {
            if let Cause::GrpcRouteInjectedFailure(failure) = &link.cause {
                let code = Code::from_i32(failure.code as i32);
                return Ok(SyntheticHttpResponse::Grpc(code, failure.message.clone()));
            }
        }
        if error.is_caused_by(Kind::H2) {
            return Err(error);
        }
        Ok(SyntheticHttpResponse::UnexpectedError)
    }
}

/// Makes responses of the errors of connections to endpoints. All others are handed on.
#[derive(Clone, Copy, Debug)]
pub struct ClientRescue {
    pub emit_headers: bool,
}

pub open spec fn client_verdict(error: Error) -> Rescued {
    if error.caused_by(Kind::DowngradedH2) || error.caused_by(Kind::Io) {
        Rescued::BadGateway
    } else if error.caused_by(Kind::ConnectTimeout) {
        Rescued::GatewayTimeout
    } else {
        Rescued::Forward
    }
}

impl ClientRescue {
    pub fn rescue(&self, error: Error) -> (r: Result<SyntheticHttpResponse, Error>)
        ensures
            carries_out(client_verdict(error), error, r),
    {
        if error.is_caused_by(Kind::DowngradedH2) {
            return Ok(SyntheticHttpResponse::BadGateway(error.outer.message));
        }
        if error.is_caused_by(Kind::Io) {
            return Ok(SyntheticHttpResponse::BadGateway(error.outer.message));
        }
        if error.is_caused_by(Kind::ConnectTimeout) {
            return Ok(SyntheticHttpResponse::GatewayTimeout(error.outer.message));
        }
        Err(error)
    }
}

/// Makes responses of the timeouts of a backend. All other errors are handed on.
#[derive(Clone, Copy, Debug)]
pub struct TimeoutRescue;

pub open spec fn timeout_verdict(error: Error) -> Rescued {
    if error.caused_by(Kind::ResponseTimeout) {
        Rescued::GatewayTimeout
    } else {
        Rescued::Forward
    }
}

impl TimeoutRescue {
    pub fn rescue(&self, error: Error) -> (r: Result<SyntheticHttpResponse, Error>)
        ensures
            carries_out(timeout_verdict(error), error, r),
    {
        if error.is_caused_by(Kind::ResponseTimeout) {
            return Ok(SyntheticHttpResponse::GatewayTimeout(error.outer.message));
        }
        Err(error)
    }
}

/// Makes responses of errors where requests are routed by logical address. The message is that of
/// the cause.
#[derive(Clone, Copy, Debug)]
pub struct LogicalRescue {
    pub emit_headers: bool,
}

pub open spec fn logical_verdict(error: Error) -> Option<Kind> {
    if error.caused_by(Kind::ResponseTimeout) {
        Some(Kind::ResponseTimeout)
    } else if error.caused_by(Kind::IdentityRequired) {
        Some(Kind::IdentityRequired)
    } else if error.caused_by(Kind::FailFast) {
        Some(Kind::FailFast)
    } else if error.caused_by(Kind::LoadShed) {
        Some(Kind::LoadShed)
    } else if error.caused_by(Kind::NoRoute) {
        Some(Kind::NoRoute)
    } else {
        None
    }
}

impl LogicalRescue {
    pub fn rescue(&self, error: Error) -> (r: Result<SyntheticHttpResponse, Error>)
        ensures
            match logical_verdict(error) {
                Some(Kind::ResponseTimeout) => r matches Ok(
                    SyntheticHttpResponse::GatewayTimeout(m),
                ) && m@ == error.find(Kind::ResponseTimeout)->0.message@,
                Some(Kind::IdentityRequired) => r matches Ok(SyntheticHttpResponse::BadGateway(m))
                    && m@ == error.find(Kind::IdentityRequired)->0.message@,
                Some(Kind::FailFast) => r matches Ok(SyntheticHttpResponse::GatewayTimeout(m)) && m@
                    == error.find(Kind::FailFast)->0.message@,
                Some(Kind::LoadShed) => r matches Ok(SyntheticHttpResponse::Unavailable(m)) && m@
                    == error.find(Kind::LoadShed)->0.message@,
                Some(_) => r matches Ok(SyntheticHttpResponse::NotFound(m)) && m@ == error.find(
                    Kind::NoRoute,
                )->0.message@,
                None => if error.caused_by(Kind::H2) {
                    r matches Err(e) && e == error
                } else {
                    r matches Ok(SyntheticHttpResponse::UnexpectedError)
                },
            },
            (r matches Ok(SyntheticHttpResponse::GatewayTimeout(_))) <==> error.caused_by(
                Kind::ResponseTimeout,
            ) || error.caused_by(Kind::FailFast) && !error.caused_by(Kind::IdentityRequired),
            (r matches Ok(SyntheticHttpResponse::BadGateway(_))) <==> error.caused_by(
                Kind::IdentityRequired,
            ) && !error.caused_by(Kind::ResponseTimeout),
            r is Err ==> error.caused_by(Kind::H2) && !error.caused_by(Kind::LoadShed)
                && !error.caused_by(Kind::NoRoute),
    {
        if let Some(cause) = error.cause_ref(Kind::ResponseTimeout) {
            return Ok(SyntheticHttpResponse::GatewayTimeout(cause.message.clone()));
        }
        if let Some(cause) = error.cause_ref(Kind::IdentityRequired) {
            return Ok(SyntheticHttpResponse::BadGateway(cause.message.clone()));
        }
        if let Some(cause) = error.cause_ref(Kind::FailFast) {
            return Ok(SyntheticHttpResponse::GatewayTimeout(cause.message.clone()));
        }
        if let Some(cause) = error.cause_ref(Kind::LoadShed) {
            return Ok(SyntheticHttpResponse::Unavailable(cause.message.clone()));
        }
        if let Some(cause) = error.cause_ref(Kind::NoRoute) {
            return Ok(SyntheticHttpResponse::NotFound(cause.message.clone()));
        }
        if error.is_caused_by(Kind::H2) {
            return Err(error);
        }
        Ok(SyntheticHttpResponse::UnexpectedError)
    }
}

pub const BAD_GATEWAY: u16 = 502;

pub const GATEWAY_TIMEOUT: u16 = 504;

/// A response that is the same for HTTP and gRPC clients.
#[derive(Debug)]
pub struct SyntheticResponse {
    pub http_status: u16,
    pub grpc_status: Code,
    pub close_connection: bool,
    pub message: String,
}

/// Makes responses of errors for clients of either protocol.
#[derive(Clone, Copy, Debug)]
pub struct Rescue;

impl Rescue {
    /// The response for an error. The error comes back if it has none of its own, so that the
    /// response is the usual one.
    pub fn rescue(&self, error: Error) -> (r: Result<SyntheticResponse, Error>)
        ensures
            if error.caused_by(Kind::DowngradedH2) || (!error.caused_by(Kind::ResponseTimeout)
                && error.caused_by(Kind::IdentityRequired)) {
                r matches Ok(s) && s.http_status == BAD_GATEWAY && s.grpc_status
                    == Code::Unavailable && s.close_connection && s.message@
                    == error.outer.message@
            } else if error.caused_by(Kind::ResponseTimeout) {
                r matches Ok(s) && s.http_status == GATEWAY_TIMEOUT && s.grpc_status
                    == Code::DeadlineExceeded && !s.close_connection && s.message@
                    == error.outer.message@
            } else {
                r matches Err(e) && e == error
            },
            r is Ok <==> error.caused_by(Kind::DowngradedH2) || error.caused_by(
                Kind::ResponseTimeout,
            ) || error.caused_by(Kind::IdentityRequired),
            r matches Ok(s) ==> {
                &&& s.http_status == 502 || s.http_status == 504
                &&& s.http_status == 502 <==> s.close_connection
                &&& s.http_status == 502 <==> s.grpc_status is Unavailable
                &&& s.http_status == 504 <==> s.grpc_status is DeadlineExceeded
            },
    {
        if error.is_caused_by(Kind::DowngradedH2) {
            return Ok(
                SyntheticResponse {
                    http_status: BAD_GATEWAY,
                    grpc_status: Code::Unavailable,
                    close_connection: true,
                    message: error.outer.message,
                },
            );
        }
        if error.is_caused_by(Kind::ResponseTimeout) {
            return Ok(
                SyntheticResponse {
                    http_status: GATEWAY_TIMEOUT,
                    grpc_status: Code::DeadlineExceeded,
                    close_connection: false,
                    message: error.outer.message,
                },
            );
        }
        if error.is_caused_by(Kind::IdentityRequired) {
            return Ok(
                SyntheticResponse {
                    http_status: BAD_GATEWAY,
                    grpc_status: Code::Unavailable,
                    close_connection: true,
                    message: error.outer.message,
                },
            );
        }
        Err(error)
    }
}

/// An HTTP/2 error that nothing else explains passes through the edge unchanged, so that the
/// stream is reset as the peer reset it.
pub proof fn plain_h2_errors_pass(error: Error)
    requires
        forall|kind: Kind| #[trigger] error.caused_by(kind) ==> kind == Kind::H2 || kind
            == Kind::Other,
        error.caused_by(Kind::H2),
    ensures
        edge_verdict(error) is Forward,
        client_verdict(error) is Forward,
        timeout_verdict(error) is Forward,
        logical_verdict(error) is None,
{
}

/// Only HTTP/2 errors pass the edge: every other error is answered.
pub proof fn only_h2_errors_pass_the_edge(error: Error)
    requires
        edge_verdict(error) is Forward,
    ensures
        error.caused_by(Kind::H2),
        !error.caused_by(Kind::FailFast),
        !error.caused_by(Kind::LoadShed),
{
}

/// At the edge, an error is answered by the gravest thing that it is caused by. From the gravest on
/// these are: a response that took too long, a peer with another identity, a fast failure, shed
/// load, a balancer that failed, a missing route, and what routes answer with. An HTTP/2 error is
/// handed on only if it is none of these, and anything else is unexpected.
pub proof fn edge_answers_the_gravest_cause(error: Error)
    ensures
        error.caused_by(Kind::ResponseTimeout) ==> edge_verdict(error) is GatewayTimeout,
        error.caused_by(Kind::IdentityRequired)
            && !error.caused_by(Kind::ResponseTimeout) ==> edge_verdict(error) is BadGateway,
        error.caused_by(Kind::FailFast)
            && !error.caused_by(Kind::ResponseTimeout)
            && !error.caused_by(Kind::IdentityRequired) ==> edge_verdict(error) is GatewayTimeout,
        error.caused_by(Kind::LoadShed)
            && !error.caused_by(Kind::ResponseTimeout)
            && !error.caused_by(Kind::IdentityRequired)
            && !error.caused_by(Kind::FailFast) ==> edge_verdict(error) is Unavailable,
        error.caused_by(Kind::DispatcherFailed)
            && !error.caused_by(Kind::ResponseTimeout)
            && !error.caused_by(Kind::IdentityRequired)
            && !error.caused_by(Kind::FailFast)
            && !error.caused_by(Kind::LoadShed) ==> edge_verdict(error) is BadGateway,
        error.caused_by(Kind::NoRoute)
            && !error.caused_by(Kind::ResponseTimeout)
            && !error.caused_by(Kind::IdentityRequired)
            && !error.caused_by(Kind::FailFast)
            && !error.caused_by(Kind::LoadShed)
            && !error.caused_by(Kind::DispatcherFailed) ==> edge_verdict(error) is NotFound,
        error.caused_by(Kind::HttpRouteRedirect)
            && !error.caused_by(Kind::ResponseTimeout)
            && !error.caused_by(Kind::IdentityRequired)
            && !error.caused_by(Kind::FailFast)
            && !error.caused_by(Kind::LoadShed)
            && !error.caused_by(Kind::DispatcherFailed)
            && !error.caused_by(Kind::NoRoute) ==> edge_verdict(error) == Rescued::Route(Kind::HttpRouteRedirect),
        error.caused_by(Kind::HttpRouteInjectedFailure)
            && !error.caused_by(Kind::ResponseTimeout)
            && !error.caused_by(Kind::IdentityRequired)
            && !error.caused_by(Kind::FailFast)
            && !error.caused_by(Kind::LoadShed)
            && !error.caused_by(Kind::DispatcherFailed)
            && !error.caused_by(Kind::NoRoute)
            && !error.caused_by(Kind::HttpRouteRedirect) ==> edge_verdict(error) == Rescued::Route(Kind::HttpRouteInjectedFailure),
        error.caused_by(Kind::GrpcRouteInjectedFailure)
            && !error.caused_by(Kind::ResponseTimeout)
            && !error.caused_by(Kind::IdentityRequired)
            && !error.caused_by(Kind::FailFast)
            && !error.caused_by(Kind::LoadShed)
            && !error.caused_by(Kind::DispatcherFailed)
            && !error.caused_by(Kind::NoRoute)
            && !error.caused_by(Kind::HttpRouteRedirect)
            && !error.caused_by(Kind::HttpRouteInjectedFailure) ==> edge_verdict(error) == Rescued::Route(Kind::GrpcRouteInjectedFailure),
        error.caused_by(Kind::H2)
            && !error.caused_by(Kind::ResponseTimeout)
            && !error.caused_by(Kind::IdentityRequired)
            && !error.caused_by(Kind::FailFast)
            && !error.caused_by(Kind::LoadShed)
            && !error.caused_by(Kind::DispatcherFailed)
            && !error.caused_by(Kind::NoRoute)
            && !error.caused_by(Kind::HttpRouteRedirect)
            && !error.caused_by(Kind::HttpRouteInjectedFailure)
            && !error.caused_by(Kind::GrpcRouteInjectedFailure) ==> edge_verdict(error) is Forward,
        !error.caused_by(Kind::ResponseTimeout)
            && !error.caused_by(Kind::IdentityRequired)
            && !error.caused_by(Kind::FailFast)
            && !error.caused_by(Kind::LoadShed)
            && !error.caused_by(Kind::DispatcherFailed)
            && !error.caused_by(Kind::NoRoute)
            && !error.caused_by(Kind::HttpRouteRedirect)
            && !error.caused_by(Kind::HttpRouteInjectedFailure)
            && !error.caused_by(Kind::GrpcRouteInjectedFailure)
            && !error.caused_by(Kind::H2) ==> edge_verdict(error)
            is UnexpectedError,
{
}

/// Where requests are routed, the same holds of fewer causes.
pub proof fn routing_answers_the_gravest_cause(error: Error)
    ensures
        error.caused_by(Kind::ResponseTimeout) ==> logical_verdict(error) == Some(Kind::ResponseTimeout),
        error.caused_by(Kind::IdentityRequired)
            && !error.caused_by(Kind::ResponseTimeout) ==> logical_verdict(error) == Some(Kind::IdentityRequired),
        error.caused_by(Kind::FailFast)
            && !error.caused_by(Kind::ResponseTimeout)
            && !error.caused_by(Kind::IdentityRequired) ==> logical_verdict(error) == Some(Kind::FailFast),
        error.caused_by(Kind::LoadShed)
            && !error.caused_by(Kind::ResponseTimeout)
            && !error.caused_by(Kind::IdentityRequired)
            && !error.caused_by(Kind::FailFast) ==> logical_verdict(error) == Some(Kind::LoadShed),
        error.caused_by(Kind::NoRoute)
            && !error.caused_by(Kind::ResponseTimeout)
            && !error.caused_by(Kind::IdentityRequired)
            && !error.caused_by(Kind::FailFast)
            && !error.caused_by(Kind::LoadShed) ==> logical_verdict(error) == Some(Kind::NoRoute),
        !error.caused_by(Kind::ResponseTimeout)
            && !error.caused_by(Kind::IdentityRequired)
            && !error.caused_by(Kind::FailFast)
            && !error.caused_by(Kind::LoadShed)
            && !error.caused_by(Kind::NoRoute) ==> logical_verdict(error) is None,
{
}

/// Errors of connections are answered: failures with 502 and timeouts with 504, of which failures
/// are the graver. No other error is answered there.
pub proof fn connection_errors_are_answered(error: Error)
    ensures
        error.caused_by(Kind::DowngradedH2) ==> client_verdict(error) is BadGateway,
        error.caused_by(Kind::Io) ==> client_verdict(error) is BadGateway,
        error.caused_by(Kind::ConnectTimeout) && !error.caused_by(Kind::DowngradedH2)
            && !error.caused_by(Kind::Io) ==> client_verdict(error) is GatewayTimeout,
        !error.caused_by(Kind::ConnectTimeout) && !error.caused_by(Kind::DowngradedH2)
            && !error.caused_by(Kind::Io) ==> client_verdict(error) is Forward,
        error.caused_by(Kind::ResponseTimeout) ==> timeout_verdict(error) is GatewayTimeout,
        !error.caused_by(Kind::ResponseTimeout) ==> timeout_verdict(error) is Forward,
{
}

/// An answer is the one that was decided on, with the message of the error, and an error that is
/// handed on stays as it is.
pub proof fn verdicts_are_carried_out(
    verdict: Rescued,
    error: Error,
    r: Result<SyntheticHttpResponse, Error>,
)
    requires
        carries_out(verdict, error, r),
    ensures
        r is Err <==> verdict is Forward,
        r is Err ==> r->Err_0 == error,
        verdict is GatewayTimeout ==> (r matches Ok(SyntheticHttpResponse::GatewayTimeout(m)) && m@
            == error.outer.message@),
        verdict is BadGateway ==> (r matches Ok(SyntheticHttpResponse::BadGateway(m)) && m@
            == error.outer.message@),
        verdict is Unavailable ==> (r matches Ok(SyntheticHttpResponse::Unavailable(m)) && m@
            == error.outer.message@),
        verdict is NotFound ==> (r matches Ok(SyntheticHttpResponse::NotFound(m)) && m@
            == error.outer.message@),
        verdict is UnexpectedError ==> (r matches Ok(SyntheticHttpResponse::UnexpectedError)),
{
}

/// What a route answers with is handed to the client as the route has it.
pub proof fn routes_answer_as_they_say(
    kind: Kind,
    error: Error,
    r: Result<SyntheticHttpResponse, Error>,
)
    requires
        carries_out(Rescued::Route(kind), error, r),
    ensures
        error.find(kind)->0.cause matches Cause::HttpRouteRedirect(c) ==> (r matches Ok(
            SyntheticHttpResponse::Redirect(status, location),
        ) && status == c.status && location@ == c.location@),
        error.find(kind)->0.cause matches Cause::HttpRouteInjectedFailure(c) ==> (r matches Ok(
            SyntheticHttpResponse::Response(status, message),
        ) && status == c.status && message@ == c.message@),
        error.find(kind)->0.cause matches Cause::GrpcRouteInjectedFailure(c) ==> (r matches Ok(
            SyntheticHttpResponse::Grpc(code, message),
        ) && (c.code <= 16 ==> code.number() == c.code) && (c.code > 16 ==> code == Code::Unknown)
            && message@ == c.message@),
{
}

} // verus!
