//! Errors that a request can meet on its way, and the responses that are made of them.

use vstd::prelude::*;

verus! {

/// An HTTP/2 error.
#[derive(Clone, Copy, Debug, PartialEq, Eq, Structural)]
pub struct H2Error {
    pub is_reset: bool,
    pub is_go_away: bool,
    pub is_io: bool,
    pub reason: Option<u32>,
}

/// The reasons of HTTP/2 errors that matter here.
pub const REFUSED_STREAM: u32 = 7;

pub const CANCEL: u32 = 8;

pub const ENHANCE_YOUR_CALM: u32 = 11;

/// Which wait for a response was too long.
#[derive(Clone, Copy, Debug, PartialEq, Eq, Structural)]
pub enum ResponseTimeout {
    Headers,
    Response,
    Lifetime,
}

/// A route sends a client elsewhere.
#[derive(Debug)]
pub struct HttpRouteRedirect {
    pub status: u16,
    pub location: String,
}

/// A route answers requests with a failure on purpose.
#[derive(Debug)]
pub struct HttpRouteInjectedFailure {
    pub status: u16,
    pub message: String,
}

/// A route answers gRPC requests with a failure on purpose.
#[derive(Debug)]
pub struct GrpcRouteInjectedFailure {
    pub code: u16,
    pub message: String,
}

/// A route would send a client elsewhere but does not say where in a way that makes sense.
#[derive(Debug)]
pub struct HttpRouteInvalidRedirect(pub String);

/// A policy makes no sense.
#[derive(Debug)]
pub struct HttpInvalidPolicy(pub String);

/// What a link in a chain of errors is.
#[derive(Debug)]
pub enum Cause {
    FailFast,
    LoadShed,
    HttpRouteRedirect(HttpRouteRedirect),
    HttpRouteInvalidRedirect(HttpRouteInvalidRedirect),
    HttpRouteInjectedFailure(HttpRouteInjectedFailure),
    GrpcRouteInjectedFailure(GrpcRouteInjectedFailure),
    HttpInvalidPolicy(HttpInvalidPolicy),
    /// The response took too long.
    ResponseTimeout(ResponseTimeout),
    /// The head of the response took too long.
    ResponseHeadersTimeout,
    /// The response as a whole took too long.
    ResponseStreamTimeout,
    /// The stream as a whole took too long.
    StreamDeadline,
    /// The stream made no progress.
    StreamIdle,
    IdentityRequired,
    DispatcherFailed,
    NoRoute,
    DowngradedH2,
    ConnectTimeout,
    Io,
    H2(H2Error),
    Other,
}

/// A cause without its details.
#[derive(Clone, Copy, Debug, PartialEq, Eq, Structural)]
pub enum Kind {
    FailFast,
    LoadShed,
    HttpRouteRedirect,
    HttpRouteInvalidRedirect,
    HttpRouteInjectedFailure,
    GrpcRouteInjectedFailure,
    HttpInvalidPolicy,
    ResponseTimeout,
    ResponseHeadersTimeout,
    ResponseStreamTimeout,
    StreamDeadline,
    StreamIdle,
    IdentityRequired,
    DispatcherFailed,
    NoRoute,
    DowngradedH2,
    ConnectTimeout,
    Io,
    H2,
    Other,
}

impl Cause {
    pub open spec fn kind_of(self) -> Kind {
        match self {
            Cause::FailFast => Kind::FailFast,
            Cause::LoadShed => Kind::LoadShed,
            Cause::HttpRouteRedirect(_) => Kind::HttpRouteRedirect,
            Cause::HttpRouteInvalidRedirect(_) => Kind::HttpRouteInvalidRedirect,
            Cause::HttpRouteInjectedFailure(_) => Kind::HttpRouteInjectedFailure,
            Cause::GrpcRouteInjectedFailure(_) => Kind::GrpcRouteInjectedFailure,
            Cause::HttpInvalidPolicy(_) => Kind::HttpInvalidPolicy,
            Cause::ResponseTimeout(_) => Kind::ResponseTimeout,
            Cause::ResponseHeadersTimeout => Kind::ResponseHeadersTimeout,
            Cause::ResponseStreamTimeout => Kind::ResponseStreamTimeout,
            Cause::StreamDeadline => Kind::StreamDeadline,
            Cause::StreamIdle => Kind::StreamIdle,
            Cause::IdentityRequired => Kind::IdentityRequired,
            Cause::DispatcherFailed => Kind::DispatcherFailed,
            Cause::NoRoute => Kind::NoRoute,
            Cause::DowngradedH2 => Kind::DowngradedH2,
            Cause::ConnectTimeout => Kind::ConnectTimeout,
            Cause::Io => Kind::Io,
            Cause::H2(_) => Kind::H2,
            Cause::Other => Kind::Other,
        }
    }

    pub fn kind(&self) -> (k: Kind)
        ensures
            k == self.kind_of(),
    {
        match self {
            Cause::FailFast => Kind::FailFast,
            Cause::LoadShed => Kind::LoadShed,
            Cause::HttpRouteRedirect(_) => Kind::HttpRouteRedirect,
            Cause::HttpRouteInvalidRedirect(_) => Kind::HttpRouteInvalidRedirect,
            Cause::HttpRouteInjectedFailure(_) => Kind::HttpRouteInjectedFailure,
            Cause::GrpcRouteInjectedFailure(_) => Kind::GrpcRouteInjectedFailure,
            Cause::HttpInvalidPolicy(_) => Kind::HttpInvalidPolicy,
            Cause::ResponseTimeout(_) => Kind::ResponseTimeout,
            Cause::ResponseHeadersTimeout => Kind::ResponseHeadersTimeout,
            Cause::ResponseStreamTimeout => Kind::ResponseStreamTimeout,
            Cause::StreamDeadline => Kind::StreamDeadline,
            Cause::StreamIdle => Kind::StreamIdle,
            Cause::IdentityRequired => Kind::IdentityRequired,
            Cause::DispatcherFailed => Kind::DispatcherFailed,
            Cause::NoRoute => Kind::NoRoute,
            Cause::DowngradedH2 => Kind::DowngradedH2,
            Cause::ConnectTimeout => Kind::ConnectTimeout,
            Cause::Io => Kind::Io,
            Cause::H2(_) => Kind::H2,
            Cause::Other => Kind::Other,
        }
    }
}

/// One error in a chain, with its message.
#[derive(Debug)]
pub struct Link {
    pub cause: Cause,
    pub message: String,
}

/// An error and what caused it, from the outermost error to the innermost.
#[derive(Debug)]
pub struct Error {
    pub outer: Link,
    pub sources: Vec<Link>,
}

/// The place of the first link of a kind.
pub open spec fn first_of(links: Seq<Link>, kind: Kind) -> Option<int>
    decreases links.len(),
{
    if links.len() == 0 {
        None
    } else {
        match first_of(links.drop_last(), kind) {
            Some(i) => Some(i),
            None => if links.last().cause.kind_of() == kind {
                Some(links.len() - 1)
            } else {
                None
            },
        }
    }
}

proof fn lemma_first_of(links: Seq<Link>, kind: Kind)
    ensures
        first_of(links, kind) matches Some(i) ==> {
            &&& 0 <= i < links.len()
            &&& links[i].cause.kind_of() == kind
        },
        first_of(links, kind) is None ==> forall|i: int|
            0 <= i < links.len() ==> (#[trigger] links[i]).cause.kind_of() != kind,
    decreases links.len(),
{
    if links.len() > 0 {
        lemma_first_of(links.drop_last(), kind);
        assert forall|i: int|
            0 <= i < links.len() && first_of(links, kind) is None implies (
        #[trigger] links[i]).cause.kind_of() != kind by {
            if i < links.len() - 1 {
                assert(links.drop_last()[i] == links[i]);
            }
        }
    }
}

impl Error {
    /// The whole chain.
    pub open spec fn chain(self) -> Seq<Link> {
        seq![self.outer] + self.sources@
    }

    /// The first error of a kind in the chain.
    pub open spec fn find(self, kind: Kind) -> Option<Link> {
        match first_of(self.chain(), kind) {
            Some(i) => Some(self.chain()[i]),
            None => None,
        }
    }

    pub open spec fn caused_by(self, kind: Kind) -> bool {
        self.find(kind) is Some
    }

    pub fn cause_ref(&self, kind: Kind) -> (r: Option<&Link>)
        ensures
            match r {
                Some(link) => self.find(kind) == Some(*link) && link.cause.kind_of() == kind,
                None => self.find(kind) is None,
            },
    {
        proof {
            lemma_first_of(self.chain(), kind);
        }
        let ghost chain = self.chain();
        proof {
            assert(chain[0] == self.outer);
            assert(chain.take(1).drop_last() =~= Seq::<Link>::empty());
            assert(chain.take(1).last() == self.outer);
            assert(first_of(chain.take(1).drop_last(), kind) is None);
            lemma_first_of_prefix(chain, 1, kind);
        }
        if self.outer.cause.kind() == kind {
            return Some(&self.outer);
        }
        let mut i: usize = 0;
        while i < self.sources.len()
            invariant
                i <= self.sources@.len(),
                chain == self.chain(),
                first_of(chain.take(i + 1), kind) is None,
            decreases self.sources@.len() - i,
        {
            let link = &self.sources[i];
            proof {
                assert(chain[i + 1] == self.sources@[i as int]);
                assert(chain.take(i + 2).drop_last() =~= chain.take(i + 1));
                assert(chain.take(i + 2).last() == *link);
                lemma_first_of_prefix(chain, i + 2, kind);
            }
            if link.cause.kind() == kind {
                return Some(link);
            }
            i = i + 1;
        }
        proof {
            assert(chain.take(i + 1) =~= chain);
        }
        None
    }

    pub fn is_caused_by(&self, kind: Kind) -> (b: bool)
        ensures
            b == self.caused_by(kind),
    {
        match self.cause_ref(kind) {
            Some(_) => true,
            None => false,
        }
    }
}

proof fn lemma_first_of_prefix(links: Seq<Link>, n: int, kind: Kind)
    requires
        0 <= n <= links.len(),
    ensures
        first_of(links.take(n), kind) is Some ==> first_of(links, kind) == first_of(
            links.take(n),
            kind,
        ),
    decreases links.len(),
{
    if n == links.len() {
        assert(links.take(n) =~= links);
    } else {
        assert(links.drop_last().take(n) =~= links.take(n));
        lemma_first_of_prefix(links.drop_last(), n, kind);
    }
}

/// The kind of a cause is that of its name.
pub proof fn kinds_are_told_apart(cause: Cause)
    ensures
        cause.kind_of() == Kind::FailFast <==> cause is FailFast,
        cause.kind_of() == Kind::LoadShed <==> cause is LoadShed,
        cause.kind_of() == Kind::HttpRouteRedirect <==> cause is HttpRouteRedirect,
        cause.kind_of() == Kind::HttpRouteInvalidRedirect <==> cause is HttpRouteInvalidRedirect,
        cause.kind_of() == Kind::HttpRouteInjectedFailure <==> cause is HttpRouteInjectedFailure,
        cause.kind_of() == Kind::GrpcRouteInjectedFailure <==> cause is GrpcRouteInjectedFailure,
        cause.kind_of() == Kind::HttpInvalidPolicy <==> cause is HttpInvalidPolicy,
        cause.kind_of() == Kind::ResponseTimeout <==> cause is ResponseTimeout,
        cause.kind_of() == Kind::ResponseHeadersTimeout <==> cause is ResponseHeadersTimeout,
        cause.kind_of() == Kind::ResponseStreamTimeout <==> cause is ResponseStreamTimeout,
        cause.kind_of() == Kind::StreamDeadline <==> cause is StreamDeadline,
        cause.kind_of() == Kind::StreamIdle <==> cause is StreamIdle,
        cause.kind_of() == Kind::IdentityRequired <==> cause is IdentityRequired,
        cause.kind_of() == Kind::DispatcherFailed <==> cause is DispatcherFailed,
        cause.kind_of() == Kind::NoRoute <==> cause is NoRoute,
        cause.kind_of() == Kind::DowngradedH2 <==> cause is DowngradedH2,
        cause.kind_of() == Kind::ConnectTimeout <==> cause is ConnectTimeout,
        cause.kind_of() == Kind::Io <==> cause is Io,
        cause.kind_of() == Kind::H2 <==> cause is H2,
        cause.kind_of() == Kind::Other <==> cause is Other,
{
}

/// An error is looked for from the outermost link to the innermost, and the first of its kind is
/// what is found. If no link is of that kind, nothing is.
pub proof fn outermost_of_a_kind_is_found(error: Error, kind: Kind, i: int)
    requires
        0 <= i <= error.sources@.len(),
    ensures
        error.chain().len() == error.sources@.len() + 1,
        error.chain()[0] == error.outer,
        i > 0 ==> error.chain()[i] == error.sources@[i - 1],
        error.chain()[i].cause.kind_of() == kind && (forall|j: int|
            0 <= j < i ==> (#[trigger] error.chain()[j]).cause.kind_of() != kind) ==> error.find(kind)
            == Some(error.chain()[i]),
        error.chain()[i].cause.kind_of() == kind ==> error.caused_by(kind),
        (forall|j: int|
            0 <= j < error.chain().len() ==> (#[trigger] error.chain()[j]).cause.kind_of() != kind)
            ==> error.find(kind) is None && !error.caused_by(kind),
{
    let chain = error.chain();
    lemma_first_of(chain, kind);
    if chain[i].cause.kind_of() == kind && (forall|j: int|
        0 <= j < i ==> (#[trigger] chain[j]).cause.kind_of() != kind) {
        let prefix = chain.take(i + 1);
        assert(prefix.drop_last() =~= chain.take(i));
        assert(prefix.last() == chain[i]);
        lemma_first_of(chain.take(i), kind);
        if first_of(chain.take(i), kind) is Some {
            let k = first_of(chain.take(i), kind)->0;
            assert(chain.take(i)[k] == chain[k]);
        }
        assert(first_of(prefix, kind) == Some(i));
        lemma_first_of_prefix(chain, i + 1, kind);
    }
}

} // verus!
