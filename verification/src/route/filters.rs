//! Filters that a route puts on requests and responses.

use crate::errors::{
    Cause, GrpcRouteInjectedFailure, HttpInvalidPolicy, HttpRouteInjectedFailure,
    HttpRouteInvalidRedirect, HttpRouteRedirect,
};
use vstd::prelude::*;

verus! {

/// A response that a filter gives in place of the backend.
#[derive(Debug)]
pub struct FailureResponse {
    pub status: u16,
    pub message: String,
}

/// What a redirect makes of a request.
#[derive(Debug)]
pub enum Redirection {
    To { status: u16, location: String },
    /// The redirect does not concern the request.
    Irrelevant,
    Invalid(String),
}

/// A filter of an HTTP route, with what it makes of the request at hand.
#[derive(Debug)]
pub enum HttpFilter {
    /// Fails requests, or lets this one pass.
    InjectFailure(Option<FailureResponse>),
    Redirect(Redirection),
    RequestHeaders,
    ResponseHeaders,
    /// A filter that cannot be applied.
    InternalError(String),
}

/// A failure that a filter gives to a gRPC request.
#[derive(Debug)]
pub struct GrpcFailure {
    pub code: u16,
    pub message: String,
}

/// A filter of a gRPC route, with what it makes of the request at hand.
#[derive(Debug)]
pub enum GrpcFilter {
    InjectFailure(Option<GrpcFailure>),
    RequestHeaders,
    InternalError(String),
}

impl HttpFilter {
    /// Whether the filter ends the request.
    pub open spec fn stops(self) -> bool {
        match self {
            HttpFilter::InjectFailure(f) => f is Some,
            HttpFilter::Redirect(r) => !(r is Irrelevant),
            HttpFilter::InternalError(_) => true,
            _ => false,
        }
    }

    /// Whether an error is the one that the filter gives.
    pub open spec fn gives(self, error: Cause) -> bool {
        match (self, error) {
            (
                HttpFilter::InjectFailure(Some(f)),
                Cause::HttpRouteInjectedFailure(e),
            ) => e.status == f.status && e.message@ == f.message@,
            (
                HttpFilter::Redirect(Redirection::To { status, location }),
                Cause::HttpRouteRedirect(e),
            ) => e.status == status && e.location@ == location@,
            (
                HttpFilter::Redirect(Redirection::Invalid(m)),
                Cause::HttpRouteInvalidRedirect(e),
            ) => e.0@ == m@,
            (HttpFilter::InternalError(m), Cause::HttpInvalidPolicy(e)) => e.0@ == m@,
            _ => false,
        }
    }
}

impl GrpcFilter {
    pub open spec fn stops(self) -> bool {
        match self {
            GrpcFilter::InjectFailure(f) => f is Some,
            GrpcFilter::InternalError(_) => true,
            _ => false,
        }
    }

    pub open spec fn gives(self, error: Cause) -> bool {
        match (self, error) {
            (
                GrpcFilter::InjectFailure(Some(f)),
                Cause::GrpcRouteInjectedFailure(e),
            ) => e.code == f.code && e.message@ == f.message@,
            (GrpcFilter::InternalError(m), Cause::HttpInvalidPolicy(e)) => e.0@ == m@,
            _ => false,
        }
    }
}

/// The places of the filters before `n` that change headers of the request, in order.
pub open spec fn http_request_changes(filters: Seq<HttpFilter>, n: int) -> Seq<usize>
    decreases n,
{
    if n <= 0 {
        Seq::empty()
    } else if filters[n - 1] is RequestHeaders {
        http_request_changes(filters, n - 1).push((n - 1) as usize)
    } else {
        http_request_changes(filters, n - 1)
    }
}

/// The places of the filters before `n` that change headers of the response, in order.
pub open spec fn http_response_changes(filters: Seq<HttpFilter>, n: int) -> Seq<usize>
    decreases n,
{
    if n <= 0 {
        Seq::empty()
    } else if filters[n - 1] is ResponseHeaders {
        http_response_changes(filters, n - 1).push((n - 1) as usize)
    } else {
        http_response_changes(filters, n - 1)
    }
}

pub open spec fn grpc_request_changes(filters: Seq<GrpcFilter>, n: int) -> Seq<usize>
    decreases n,
{
    if n <= 0 {
        Seq::empty()
    } else if filters[n - 1] is RequestHeaders {
        grpc_request_changes(filters, n - 1).push((n - 1) as usize)
    } else {
        grpc_request_changes(filters, n - 1)
    }
}

/// What filters do to a request: the places of those that change its headers, in the order in
/// which to apply them, and the error of the first filter that ends it. Filters behind that one
/// are not applied.
#[derive(Debug)]
pub struct Applied {
    pub changes: Vec<usize>,
    pub result: Result<(), Cause>,
}

/// Applies the filters of an HTTP route to a request.
pub fn apply_http_request(filters: &[HttpFilter]) -> (r: Applied)
    ensures
        match r.result {
            Ok(_) => {
                &&& forall|i: int| 0 <= i < filters@.len() ==> !(#[trigger] filters@[i]).stops()
                &&& r.changes@ == http_request_changes(filters@, filters@.len() as int)
            },
            Err(error) => exists|n: int|
                {
                    &&& 0 <= n < filters@.len()
                    &&& #[trigger] filters@[n].gives(error)
                    &&& filters@[n].stops()
                    &&& forall|i: int| 0 <= i < n ==> !(#[trigger] filters@[i]).stops()
                    &&& r.changes@ == http_request_changes(filters@, n)
                },
        },
{
    let mut changes: Vec<usize> = Vec::new();
    let mut i: usize = 0;
    while i < filters.len()
        invariant
            i <= filters@.len(),
            forall|j: int| 0 <= j < i ==> !(#[trigger] filters@[j]).stops(),
            changes@ == http_request_changes(filters@, i as int),
        decreases filters@.len() - i,
    {
        match &filters[i] {
            HttpFilter::InjectFailure(fail) => {
                if let Some(f) = fail {
                    let error = Cause::HttpRouteInjectedFailure(
                        HttpRouteInjectedFailure { status: f.status, message: f.message.clone() },
                    );
                    proof {
                        assert(filters@[i as int].gives(error));
                    }
                    return Applied { changes, result: Err(error) };
                }
            },
            HttpFilter::Redirect(redirection) => match redirection {
                Redirection::To { status, location } => {
                    let error = Cause::HttpRouteRedirect(
                        HttpRouteRedirect { status: *status, location: location.clone() },
                    );
                    proof {
                        assert(filters@[i as int].gives(error));
                    }
                    return Applied { changes, result: Err(error) };
                },
                Redirection::Invalid(m) => {
                    let error = Cause::HttpRouteInvalidRedirect(
                        HttpRouteInvalidRedirect(m.clone()),
                    );
                    proof {
                        assert(filters@[i as int].gives(error));
                    }
                    return Applied { changes, result: Err(error) };
                },
                Redirection::Irrelevant => {},
            },
            HttpFilter::RequestHeaders => {
                changes.push(i);
            },
            HttpFilter::InternalError(m) => {
                let error = Cause::HttpInvalidPolicy(HttpInvalidPolicy(m.clone()));
                proof {
                    assert(filters@[i as int].gives(error));
                }
                return Applied { changes, result: Err(error) };
            },
            HttpFilter::ResponseHeaders => {},
        }
        i = i + 1;
    }
    Applied { changes, result: Ok(()) }
}

/// Applies the filters of an HTTP route to a response. Only changes of response headers concern
/// it, and no filter fails it.
pub fn apply_http_response(filters: &[HttpFilter]) -> (r: Vec<usize>)
    ensures
        r@ == http_response_changes(filters@, filters@.len() as int),
{
    let mut changes: Vec<usize> = Vec::new();
    let mut i: usize = 0;
    while i < filters.len()
        invariant
            i <= filters@.len(),
            changes@ == http_response_changes(filters@, i as int),
        decreases filters@.len() - i,
    {
        match &filters[i] {
            HttpFilter::ResponseHeaders => {
                changes.push(i);
            },
            _ => {},
        }
        i = i + 1;
    }
    changes
}

/// Applies the filters of a gRPC route to a request.
pub fn apply_grpc_request(filters: &[GrpcFilter]) -> (r: Applied)
    ensures
        match r.result {
            Ok(_) => {
                &&& forall|i: int| 0 <= i < filters@.len() ==> !(#[trigger] filters@[i]).stops()
                &&& r.changes@ == grpc_request_changes(filters@, filters@.len() as int)
            },
            Err(error) => exists|n: int|
                {
                    &&& 0 <= n < filters@.len()
                    &&& #[trigger] filters@[n].gives(error)
                    &&& filters@[n].stops()
                    &&& forall|i: int| 0 <= i < n ==> !(#[trigger] filters@[i]).stops()
                    &&& r.changes@ == grpc_request_changes(filters@, n)
                },
        },
{
    let mut changes: Vec<usize> = Vec::new();
    let mut i: usize = 0;
    while i < filters.len()
        invariant
            i <= filters@.len(),
            forall|j: int| 0 <= j < i ==> !(#[trigger] filters@[j]).stops(),
            changes@ == grpc_request_changes(filters@, i as int),
        decreases filters@.len() - i,
    {
        match &filters[i] {
            GrpcFilter::InjectFailure(fail) => {
                if let Some(f) = fail {
                    let error = Cause::GrpcRouteInjectedFailure(
                        GrpcRouteInjectedFailure { code: f.code, message: f.message.clone() },
                    );
                    proof {
                        assert(filters@[i as int].gives(error));
                    }
                    return Applied { changes, result: Err(error) };
                }
            },
            GrpcFilter::RequestHeaders => {
                changes.push(i);
            },
            GrpcFilter::InternalError(m) => {
                let error = Cause::HttpInvalidPolicy(HttpInvalidPolicy(m.clone()));
                proof {
                    assert(filters@[i as int].gives(error));
                }
                return Applied { changes, result: Err(error) };
            },
        }
        i = i + 1;
    }
    Applied { changes, result: Ok(()) }
}

/// Applies the filters of a gRPC route to a response. None of them concerns responses.
pub fn apply_grpc_response(_filters: &[GrpcFilter]) -> (r: Vec<usize>)
    ensures
        r@.len() == 0,
{
    Vec::new()
}

/// A stack whose services apply filters.
#[derive(Clone, Debug)]
pub struct NewApplyFilters<N> {
    pub inner: N,
}

/// A service that applies filters.
#[derive(Debug)]
pub struct ApplyFilters<F, S> {
    pub filters: Vec<F>,
    pub inner: S,
}

impl<N> NewApplyFilters<N> {
    pub fn new_service<F, S>(&self, filters: Vec<F>, inner: S) -> (s: ApplyFilters<F, S>)
        ensures
            s.filters == filters,
            s.inner == inner,
    {
        ApplyFilters { filters, inner }
    }
}

/// All filters before `n` that change headers of the request are applied, in order and once, and no
/// others are.
pub proof fn all_http_request_changes_are_made(filters: Seq<HttpFilter>, n: int, i: int)
    requires
        0 <= n <= filters.len() <= usize::MAX,
    ensures
        0 <= i < n && filters[i] is RequestHeaders ==> http_request_changes(filters, n).contains(i as usize),
        forall|k: int|
            0 <= k < http_request_changes(filters, n).len() ==> (#[trigger] http_request_changes(filters, n)[k]) < n
                && filters[http_request_changes(filters, n)[k] as int] is RequestHeaders,
        forall|j: int, k: int|
            0 <= j < k < http_request_changes(filters, n).len() ==> (#[trigger] http_request_changes(filters, n)[j])
                < (#[trigger] http_request_changes(filters, n)[k]),
    decreases n,
{
    if n > 0 {
        all_http_request_changes_are_made(filters, n - 1, i);
        let before = http_request_changes(filters, n - 1);
        let after = http_request_changes(filters, n);
        if filters[n - 1] is RequestHeaders {
            assert(after[before.len() as int] == n - 1);
            if i == n - 1 {
                assert(after.contains(i as usize));
            } else if 0 <= i < n && filters[i] is RequestHeaders {
                let k = choose|k: int| 0 <= k < before.len() && before[k] == i as usize;
                assert(after[k] == i as usize);
            }
            assert forall|j: int, k: int| 0 <= j < k < after.len() implies (#[trigger] after[j]) < (
            #[trigger] after[k]) by {
                assert(after[j] == before[j]);
                if k < before.len() {
                    assert(after[k] == before[k]);
                }
            }
            assert forall|k: int| 0 <= k < after.len() implies (#[trigger] after[k]) < n
                && filters[after[k] as int] is RequestHeaders by {
                if k < before.len() {
                    assert(after[k] == before[k]);
                }
            }
        }
    }
}

/// The same of filters that change headers of the response.
pub proof fn all_http_response_changes_are_made(filters: Seq<HttpFilter>, n: int, i: int)
    requires
        0 <= n <= filters.len() <= usize::MAX,
    ensures
        0 <= i < n && filters[i] is ResponseHeaders ==> http_response_changes(filters, n).contains(i as usize),
        forall|k: int|
            0 <= k < http_response_changes(filters, n).len() ==> (#[trigger] http_response_changes(filters, n)[k]) < n
                && filters[http_response_changes(filters, n)[k] as int] is ResponseHeaders,
        forall|j: int, k: int|
            0 <= j < k < http_response_changes(filters, n).len() ==> (#[trigger] http_response_changes(filters, n)[j])
                < (#[trigger] http_response_changes(filters, n)[k]),
    decreases n,
{
    if n > 0 {
        all_http_response_changes_are_made(filters, n - 1, i);
        let before = http_response_changes(filters, n - 1);
        let after = http_response_changes(filters, n);
        if filters[n - 1] is ResponseHeaders {
            assert(after[before.len() as int] == n - 1);
            if i == n - 1 {
                assert(after.contains(i as usize));
            } else if 0 <= i < n && filters[i] is ResponseHeaders {
                let k = choose|k: int| 0 <= k < before.len() && before[k] == i as usize;
                assert(after[k] == i as usize);
            }
            assert forall|j: int, k: int| 0 <= j < k < after.len() implies (#[trigger] after[j]) < (
            #[trigger] after[k]) by {
                assert(after[j] == before[j]);
                if k < before.len() {
                    assert(after[k] == before[k]);
                }
            }
            assert forall|k: int| 0 <= k < after.len() implies (#[trigger] after[k]) < n
                && filters[after[k] as int] is ResponseHeaders by {
                if k < before.len() {
                    assert(after[k] == before[k]);
                }
            }
        }
    }
}

/// The same of filters of a gRPC route that change headers of the request.
pub proof fn all_grpc_request_changes_are_made(filters: Seq<GrpcFilter>, n: int, i: int)
    requires
        0 <= n <= filters.len() <= usize::MAX,
    ensures
        0 <= i < n && filters[i] is RequestHeaders ==> grpc_request_changes(filters, n).contains(i as usize),
        forall|k: int|
            0 <= k < grpc_request_changes(filters, n).len() ==> (#[trigger] grpc_request_changes(filters, n)[k]) < n
                && filters[grpc_request_changes(filters, n)[k] as int] is RequestHeaders,
        forall|j: int, k: int|
            0 <= j < k < grpc_request_changes(filters, n).len() ==> (#[trigger] grpc_request_changes(filters, n)[j])
                < (#[trigger] grpc_request_changes(filters, n)[k]),
    decreases n,
{
    if n > 0 {
        all_grpc_request_changes_are_made(filters, n - 1, i);
        let before = grpc_request_changes(filters, n - 1);
        let after = grpc_request_changes(filters, n);
        if filters[n - 1] is RequestHeaders {
            assert(after[before.len() as int] == n - 1);
            if i == n - 1 {
                assert(after.contains(i as usize));
            } else if 0 <= i < n && filters[i] is RequestHeaders {
                let k = choose|k: int| 0 <= k < before.len() && before[k] == i as usize;
                assert(after[k] == i as usize);
            }
            assert forall|j: int, k: int| 0 <= j < k < after.len() implies (#[trigger] after[j]) < (
            #[trigger] after[k]) by {
                assert(after[j] == before[j]);
                if k < before.len() {
                    assert(after[k] == before[k]);
                }
            }
            assert forall|k: int| 0 <= k < after.len() implies (#[trigger] after[k]) < n
                && filters[after[k] as int] is RequestHeaders by {
                if k < before.len() {
                    assert(after[k] == before[k]);
                }
            }
        }
    }
}

/// Injected failures, redirects that concern the request, redirects that make no sense and filters
/// that cannot be applied end a request. Nothing else does.
pub proof fn what_ends_a_request(f: FailureResponse, g: GrpcFailure, status: u16, text: String)
    ensures
        HttpFilter::InjectFailure(Some(f)).stops(),
        !HttpFilter::InjectFailure(None).stops(),
        HttpFilter::Redirect(Redirection::To { status, location: text }).stops(),
        HttpFilter::Redirect(Redirection::Invalid(text)).stops(),
        !HttpFilter::Redirect(Redirection::Irrelevant).stops(),
        HttpFilter::InternalError(text).stops(),
        !HttpFilter::RequestHeaders.stops(),
        !HttpFilter::ResponseHeaders.stops(),
        GrpcFilter::InjectFailure(Some(g)).stops(),
        !GrpcFilter::InjectFailure(None).stops(),
        GrpcFilter::InternalError(text).stops(),
        !GrpcFilter::RequestHeaders.stops(),
{
}

/// A request that is ended gets the error that its filter stands for, with what the filter says. A
/// filter that ends nothing gives no error.
pub proof fn errors_say_what_filters_say(http: HttpFilter, grpc: GrpcFilter, error: Cause)
    ensures
        http.gives(error) ==> http.stops() && match http {
            HttpFilter::InjectFailure(Some(f)) => error is HttpRouteInjectedFailure
                && error->HttpRouteInjectedFailure_0.status == f.status
                && error->HttpRouteInjectedFailure_0.message@ == f.message@,
            HttpFilter::Redirect(Redirection::To { status, location }) => error is HttpRouteRedirect
                && error->HttpRouteRedirect_0.status == status
                && error->HttpRouteRedirect_0.location@ == location@,
            HttpFilter::Redirect(Redirection::Invalid(m)) => error matches
                Cause::HttpRouteInvalidRedirect(e) && e.0@ == m@,
            HttpFilter::InternalError(m) => error matches Cause::HttpInvalidPolicy(e) && e.0@ == m@,
            _ => false,
        },
        grpc.gives(error) ==> grpc.stops() && match grpc {
            GrpcFilter::InjectFailure(Some(f)) => error is GrpcRouteInjectedFailure
                && error->GrpcRouteInjectedFailure_0.code == f.code
                && error->GrpcRouteInjectedFailure_0.message@ == f.message@,
            GrpcFilter::InternalError(m) => error matches Cause::HttpInvalidPolicy(e) && e.0@ == m@,
            _ => false,
        },
{
}

} // verus!
