//! Classes of responses: what a response says about the health of the endpoint that sent it.

use vstd::prelude::*;

verus! {

pub const OK: u16 = 200;

pub const TOO_MANY_REQUESTS: u16 = 429;

/// Whether a status is in the 5xx range.
pub open spec fn server_error(status: u16) -> bool {
    500 <= status < 600
}

pub fn is_server_error(status: u16) -> (b: bool)
    ensures
        b == server_error(status),
{
    500 <= status && status < 600
}

/// The gRPC status codes.
#[derive(Clone, Copy, Debug, PartialEq, Eq, Hash, Structural)]
pub enum Code {
    Okay,
    Cancelled,
    Unknown,
    InvalidArgument,
    DeadlineExceeded,
    NotFound,
    AlreadyExists,
    PermissionDenied,
    ResourceExhausted,
    FailedPrecondition,
    Aborted,
    OutOfRange,
    Unimplemented,
    Internal,
    Unavailable,
    DataLoss,
    Unauthenticated,
}

/// The class of a response. `Ok` holds a status that the policy in force takes for healthy, and
/// `Err` one that it takes for a failure.
#[derive(Clone, Copy, Debug)]
pub enum Class {
    Http(Result<u16, u16>),
    Grpc(Result<Code, Code>),
    /// No response at all.
    Error,
}

impl Class {
    pub open spec fn success(self) -> bool {
        match self {
            Class::Http(r) => r is Ok,
            Class::Grpc(r) => r is Ok,
            Class::Error => false,
        }
    }

    pub fn is_success(&self) -> (b: bool)
        ensures
            b == self.success(),
    {
        match self {
            Class::Http(Ok(_)) => true,
            Class::Grpc(Ok(_)) => true,
            _ => false,
        }
    }

    pub fn is_failure(&self) -> (b: bool)
        ensures
            b == !self.success(),
    {
        !self.is_success()
    }

    /// Whether the response asks for less traffic: HTTP 429 or gRPC RESOURCE_EXHAUSTED, and in
    /// neither case counted as a failure.
    pub open spec fn rate_limited(self) -> bool {
        match self {
            Class::Http(Ok(status)) => status == TOO_MANY_REQUESTS,
            Class::Grpc(Ok(code)) => code == Code::ResourceExhausted,
            _ => false,
        }
    }

    pub fn is_rate_limit_signal(&self) -> (b: bool)
        ensures
            b == self.rate_limited(),
    {
        match self {
            Class::Http(Ok(status)) => *status == TOO_MANY_REQUESTS,
            Class::Grpc(Ok(code)) => *code == Code::ResourceExhausted,
            _ => false,
        }
    }
}

/// What makes a class a success, a rate-limit signal or a server error, by statuses and codes: a
/// success is whatever the policy in force let pass, whether HTTP or gRPC; only 429 and
/// RESOURCE_EXHAUSTED among the successes ask for less traffic.
pub proof fn classes_go_by_statuses_and_codes(class: Class, status: u16, code: Code)
    ensures
        Class::Http(Ok(status)).success(),
        Class::Grpc(Ok(code)).success(),
        !Class::Http(Err(status)).success(),
        !Class::Grpc(Err(code)).success(),
        !Class::Error.success(),
        Class::Http(Ok(status)).rate_limited() <==> status == 429,
        Class::Grpc(Ok(code)).rate_limited() <==> code == Code::ResourceExhausted,
        !class.success() ==> !class.rate_limited(),
        server_error(status) <==> status / 100 == 5,
{
}

} // verus!
