use http::{HeaderMap, HeaderValue};
use linkerd_app_outbound::classify::Code;
use linkerd_app_outbound::errors::{
    Cause, Error, GrpcRouteInjectedFailure, H2Error, HttpRouteInjectedFailure, HttpRouteRedirect,
    Kind, Link, ResponseTimeout, CANCEL, ENHANCE_YOUR_CALM, REFUSED_STREAM,
};
use linkerd_app_outbound::labels::{self, GrpcRsp, HttpRoute, LabelGrpcRsp, LabelHttpRsp};
use linkerd_app_outbound::proxy_error::{
    NewHandleProxyError, NewStripProxyError, PeerProxyErrors, ProxyConnectionClose,
};
use linkerd_app_outbound::require_id_header::{
    ConditionalClientTls, NewRequireIdentity, RequireIdentity,
};
use linkerd_app_outbound::target::Meta;
use linkerd_app_outbound::rescue::{
    ClientRescue, LogicalRescue, Rescue, ServerRescue, SyntheticHttpResponse, TimeoutRescue,
};

fn error(cause: Cause) -> Error {
    Error {
        outer: Link { cause: Cause::Other, message: "outer".to_string() },
        sources: vec![Link { cause, message: "inner".to_string() }],
    }
}

fn h2(is_reset: bool, is_go_away: bool, is_io: bool, reason: Option<u32>) -> Error {
    error(Cause::H2(H2Error { is_reset, is_go_away, is_io, reason }))
}

fn redirect() -> Error {
    error(Cause::HttpRouteRedirect(HttpRouteRedirect {
        status: 302,
        location: "http://there/".to_string(),
    }))
}

fn injected() -> Error {
    error(Cause::HttpRouteInjectedFailure(HttpRouteInjectedFailure {
        status: 418,
        message: "teapot".to_string(),
    }))
}

fn grpc_injected() -> Error {
    error(Cause::GrpcRouteInjectedFailure(GrpcRouteInjectedFailure {
        code: 7,
        message: "denied".to_string(),
    }))
}

#[test]
fn errors_have_labels() {
    let label = |e: Error| labels::Error::new_or_status(&e);
    assert_eq!(label(error(Cause::FailFast)), Ok(labels::Error::FailFast));
    assert_eq!(label(error(Cause::LoadShed)), Ok(labels::Error::LoadShed));
    assert_eq!(label(redirect()), Err(302));
    assert_eq!(label(injected()), Err(418));
    assert_eq!(label(grpc_injected()), Err(7));
    assert_eq!(
        label(error(Cause::ResponseHeadersTimeout)),
        Ok(labels::Error::ResponseHeadersTimeout)
    );
    assert_eq!(
        label(error(Cause::ResponseStreamTimeout)),
        Ok(labels::Error::ResponseStreamTimeout)
    );
    assert_eq!(label(error(Cause::StreamDeadline)), Ok(labels::Error::RequestTimeout));
    assert_eq!(label(error(Cause::StreamIdle)), Ok(labels::Error::IdleTimeout));
    assert_eq!(label(h2(true, false, false, Some(CANCEL))), Ok(labels::Error::Cancel));
    assert_eq!(label(h2(true, false, false, Some(REFUSED_STREAM))), Ok(labels::Error::Refused));
    assert_eq!(
        label(h2(true, false, false, Some(ENHANCE_YOUR_CALM))),
        Ok(labels::Error::EnhanceYourCalm)
    );
    assert_eq!(label(h2(true, true, true, None)), Ok(labels::Error::Reset));
    assert_eq!(label(h2(false, true, true, Some(CANCEL))), Ok(labels::Error::GoAway));
    assert_eq!(label(h2(false, false, true, None)), Ok(labels::Error::Io));
    assert_eq!(label(h2(false, false, false, None)), Ok(labels::Error::Unknown));
    assert_eq!(label(error(Cause::Other)), Ok(labels::Error::Unknown));
    let mut both = error(Cause::StreamIdle);
    both.sources.push(Link { cause: Cause::FailFast, message: String::new() });
    assert_eq!(label(both), Ok(labels::Error::FailFast), "causes are ranked");
}

#[test]
fn labels_have_names() {
    let names: Vec<&str> = [
        labels::Error::FailFast,
        labels::Error::LoadShed,
        labels::Error::RequestTimeout,
        labels::Error::ResponseHeadersTimeout,
        labels::Error::ResponseStreamTimeout,
        labels::Error::IdleTimeout,
        labels::Error::Cancel,
        labels::Error::Refused,
        labels::Error::EnhanceYourCalm,
        labels::Error::Reset,
        labels::Error::GoAway,
        labels::Error::Io,
        labels::Error::Unknown,
    ]
    .iter()
    .map(|e| e.as_str())
    .collect();
    assert_eq!(
        names.join(" "),
        "FAIL_FAST LOAD_SHED REQUEST_TIMEOUT RESPONSE_HEADERS_TIMEOUT RESPONSE_STREAM_TIMEOUT \
         IDLE_TIMEOUT CANCEL REFUSED ENHANCE_YOUR_CALM RESET GO_AWAY IO UNKNOWN"
    );
}

#[test]
fn http_request_hostnames() {
    let host = |uri| HttpRoute::host(true, uri);
    assert_eq!(
        host("https://great.website/path/to/index.html#fragment").as_deref(),
        Some("great.website")
    );
    assert_eq!(host("https://great.website/another/index.html").as_deref(), Some("great.website"));
    assert_eq!(host("https://different.website/index.html").as_deref(), Some("different.website"));
    assert_eq!(host("https://[3fff::]/index.html").as_deref(), Some("[3fff::]"));
    assert_eq!(host("/index.html"), None);
    assert_eq!(host("not a uri"), None);
    assert_eq!(HttpRoute::host(false, "https://great.website/"), None);
    let meta = Meta::new_default("m");
    let named = HttpRoute::new(meta.clone(), meta.clone(), host("https://great.website/"), true);
    assert_eq!(named.name.as_deref(), Some("great.website"));
    let unnamed = HttpRoute::new(meta.clone(), meta, host("https://[3fff::]/index.html"), false);
    assert_eq!(unnamed.name, None);
    let name = |export, uri, is_name| {
        let meta = Meta::new_default("m");
        HttpRoute::for_uri(meta.clone(), meta, export, uri, is_name).name
    };
    assert_eq!(name(true, "https://great.website/x", true).as_deref(), Some("great.website"));
    assert_eq!(name(true, "https://[3fff::]/index.html", false), None);
    assert_eq!(name(false, "https://great.website/x", true), None);
    assert_eq!(name(true, "/x", true), None);
}

#[test]
fn tests_http_request_statuses() {
    let ghost = error(Cause::Other);
    let labels = |status: Option<u16>, end| {
        let mut label = LabelHttpRsp::new(());
        if let Some(status) = status {
            label.init_response(status);
        }
        label.end_response(end);
        label.status_labels().encode_label_set()
    };
    assert_eq!(labels(Some(200), Ok(())), (Some(200), ""));
    assert_eq!(labels(Some(204), Ok(())), (Some(204), ""));
    assert_eq!(labels(None, Err(&ghost)), (None, "UNKNOWN"));
    assert_eq!(labels(Some(200), Err(&ghost)), (Some(200), "UNKNOWN"));
    assert_eq!(labels(None, Err(&injected())), (Some(418), ""));
}

fn grpc_rsp(end: Result<Option<Code>, &Error>) -> GrpcRsp {
    let mut label = LabelGrpcRsp::new(());
    label.init_response(None);
    label.end_response(end);
    label.status_labels()
}

fn grpc_labels(end: Result<Option<Code>, &Error>) -> (&'static str, &'static str) {
    grpc_rsp(end).encode_label_set()
}

#[test]
fn tests_grpc_request_statuses_ok() {
    assert_eq!(grpc_labels(Ok(Some(Code::from_i32(0)))), ("OK", ""));
}

#[test]
fn tests_grpc_request_statuses_not_found() {
    assert_eq!(grpc_labels(Ok(Some(Code::from_i32(5)))), ("NOT_FOUND", ""));
}

#[test]
fn tests_grpc_request_statuses_error_response() {
    assert_eq!(grpc_labels(Err(&error(Cause::Other))), ("UNKNOWN", "UNKNOWN"));
    let rsp = grpc_rsp(Err(&error(Cause::Other)));
    assert_eq!(rsp, GrpcRsp { status: None, error: Some(labels::Error::Unknown) });
}

#[test]
fn tests_grpc_request_statuses_error_body() {
    assert_eq!(grpc_labels(Err(&error(Cause::Other))), ("UNKNOWN", "UNKNOWN"));
    assert_eq!(grpc_labels(Err(&grpc_injected())), ("PERMISSION_DENIED", ""));
}

#[test]
fn grpc_codes_have_names() {
    let names: Vec<&str> =
        (0..17).map(|n| grpc_labels(Ok(Some(Code::from_i32(n)))).0).collect();
    assert_eq!(
        names.join(" "),
        "OK CANCELLED UNKNOWN INVALID_ARGUMENT DEADLINE_EXCEEDED NOT_FOUND ALREADY_EXISTS \
         PERMISSION_DENIED RESOURCE_EXHAUSTED FAILED_PRECONDITION ABORTED OUT_OF_RANGE \
         UNIMPLEMENTED INTERNAL UNAVAILABLE DATA_LOSS UNAUTHENTICATED"
    );
    assert_eq!(grpc_labels(Ok(None)).0, "UNKNOWN");
    let mut label = LabelGrpcRsp::new("parent");
    label.init_response(Some(Code::Aborted));
    label.end_response(Ok(None));
    assert_eq!(label.status_labels().status, Some(Code::Aborted));
    assert_eq!(label.parent, "parent");
}

#[test]
fn errors_become_responses_at_the_edge() {
    let rescue = ServerRescue { emit_headers: true };
    let message = |e: Error| match rescue.rescue(e) {
        Ok(SyntheticHttpResponse::GatewayTimeout(m)) => format!("504 {m}"),
        Ok(SyntheticHttpResponse::BadGateway(m)) => format!("502 {m}"),
        Ok(SyntheticHttpResponse::Unavailable(m)) => format!("503 {m}"),
        Ok(SyntheticHttpResponse::NotFound(m)) => format!("404 {m}"),
        Ok(SyntheticHttpResponse::Redirect(s, l)) => format!("{s} {l}"),
        Ok(SyntheticHttpResponse::Response(s, m)) => format!("{s} {m}"),
        Ok(SyntheticHttpResponse::Grpc(c, m)) => format!("grpc {c:?} {m}"),
        Ok(SyntheticHttpResponse::UnexpectedError) => "500".to_string(),
        Err(e) => format!("forward {}", e.outer.message),
    };
    let timeout = || error(Cause::ResponseTimeout(ResponseTimeout::Response));
    assert_eq!(message(timeout()), "504 outer");
    assert_eq!(message(error(Cause::IdentityRequired)), "502 outer");
    assert_eq!(message(error(Cause::FailFast)), "504 outer");
    assert_eq!(message(error(Cause::LoadShed)), "503 outer");
    assert_eq!(message(error(Cause::DispatcherFailed)), "502 outer");
    assert_eq!(message(error(Cause::NoRoute)), "404 outer");
    assert_eq!(message(redirect()), "302 http://there/");
    assert_eq!(message(injected()), "418 teapot");
    assert_eq!(message(grpc_injected()), "grpc PermissionDenied denied");
    assert_eq!(message(h2(true, false, false, None)), "forward outer");
    assert_eq!(message(error(Cause::Io)), "500");
}

#[test]
fn other_rescues_hand_on_what_is_not_theirs() {
    let client = ClientRescue { emit_headers: true };
    for cause in [Cause::DowngradedH2, Cause::Io] {
        assert!(matches!(client.rescue(error(cause)), Ok(SyntheticHttpResponse::BadGateway(_))));
    }
    let r = client.rescue(error(Cause::ConnectTimeout));
    assert!(matches!(r, Ok(SyntheticHttpResponse::GatewayTimeout(_))));
    assert!(client.rescue(error(Cause::FailFast)).is_err());

    let timeout = || error(Cause::ResponseTimeout(ResponseTimeout::Headers));
    let r = TimeoutRescue.rescue(timeout());
    assert!(matches!(r, Ok(SyntheticHttpResponse::GatewayTimeout(m)) if m == "outer"));
    assert!(TimeoutRescue.rescue(error(Cause::LoadShed)).is_err());

    let logical = LogicalRescue { emit_headers: false };
    let r = logical.rescue(timeout());
    assert!(matches!(r, Ok(SyntheticHttpResponse::GatewayTimeout(m)) if m == "inner"));
    let r = logical.rescue(error(Cause::IdentityRequired));
    assert!(matches!(r, Ok(SyntheticHttpResponse::BadGateway(m)) if m == "inner"));
    let r = logical.rescue(error(Cause::FailFast));
    assert!(matches!(r, Ok(SyntheticHttpResponse::GatewayTimeout(_))));
    let r = logical.rescue(error(Cause::LoadShed));
    assert!(matches!(r, Ok(SyntheticHttpResponse::Unavailable(_))));
    let r = logical.rescue(error(Cause::NoRoute));
    assert!(matches!(r, Ok(SyntheticHttpResponse::NotFound(_))));
    assert!(logical.rescue(h2(false, false, false, None)).is_err());
    let r = logical.rescue(redirect());
    assert!(matches!(r, Ok(SyntheticHttpResponse::UnexpectedError)));

    let r = Rescue.rescue(error(Cause::DowngradedH2)).expect("a response");
    assert_eq!((r.http_status, r.grpc_status, r.close_connection), (502, Code::Unavailable, true));
    let r = Rescue.rescue(timeout()).expect("a response");
    assert_eq!(
        (r.http_status, r.grpc_status, r.close_connection),
        (504, Code::DeadlineExceeded, false)
    );
    let r = Rescue.rescue(error(Cause::IdentityRequired)).expect("a response");
    assert_eq!((r.http_status, r.close_connection), (502, true));
    assert!(Rescue.rescue(error(Cause::FailFast)).is_err());
}

#[test]
fn causes_are_found_from_the_outside_in() {
    let mut e = error(Cause::Io);
    e.sources.push(Link { cause: Cause::Io, message: "deeper".to_string() });
    assert_eq!(e.cause_ref(Kind::Io).expect("there").message, "inner");
    assert_eq!(e.cause_ref(Kind::Other).expect("there").message, "outer");
    assert!(e.cause_ref(Kind::H2).is_none());
    assert!(e.is_caused_by(Kind::Io));
}

fn headers(fields: &[(&'static str, &'static str)]) -> HeaderMap {
    let mut map = HeaderMap::new();
    for (k, v) in fields {
        map.insert(*k, HeaderValue::from_static(v));
    }
    map
}

#[test]
fn peer_proxy_errors_connection_closes_after_response_header() {
    let svc = PeerProxyErrors::new(());
    assert!(svc.closes_client(&headers(&[("l5d-proxy-error", "something bad happened")])));
    assert!(!svc.closes_client(&HeaderMap::new()));
    let svc = NewHandleProxyError::new(()).new_service(());
    let hdrs = headers(&[("l5d-proxy-error", "something bad happened")]);
    assert!(svc.closes_client(&hdrs, true));
    assert!(!svc.closes_client(&hdrs, false));
    assert!(!svc.closes_client(&HeaderMap::new(), true));
}

#[test]
fn proxy_connection_close_connection_closes_after_response_header() {
    let svc = ProxyConnectionClose::new(());
    assert!(svc.closes_client(&headers(&[("l5d-proxy-connection", "close")])));
    assert!(!svc.closes_client(&headers(&[("l5d-proxy-connection", "Close")])));
    assert!(!svc.closes_client(&headers(&[("l5d-proxy-error", "close")])));
}

#[test]
fn proxy_errors_are_stripped_where_headers_are_not_emitted() {
    let mut hdrs = headers(&[("l5d-proxy-error", "bad"), ("x-other", "kept")]);
    NewStripProxyError::new(true, ()).strip_response(&mut hdrs);
    assert_eq!(hdrs.len(), 2);
    NewStripProxyError::new(false, ()).strip_response(&mut hdrs);
    assert_eq!(hdrs.len(), 1);
    assert!(hdrs.contains_key("x-other"));
}

#[test]
fn required_identities_are_enforced() {
    let tls = ConditionalClientTls::Tls { server_id: "a.id".to_string() };
    let svc = NewRequireIdentity::new(()).new_service(tls, ());
    assert!(svc.call(None).is_ok());
    assert!(svc.call(Some("a.id".to_string())).is_ok());
    let e = svc.call(Some("b.id".to_string())).expect_err("another peer");
    assert_eq!((e.required.as_str(), e.found.as_deref()), ("b.id", Some("a.id")));
    let clear = NewRequireIdentity::new(()).new_service(ConditionalClientTls::Clear, ());
    assert!(clear.call(None).is_ok());
    let e = clear.call(Some("b.id".to_string())).expect_err("no peer identity");
    assert_eq!(e.found, None);

    let mut hdrs = headers(&[("l5d-require-id", "a.id")]);
    let seen = RequireIdentity::<()>::identity_from_header(&hdrs);
    assert_eq!(seen.as_deref(), Some(&b"a.id"[..]));
    let taken = RequireIdentity::<()>::extract_id(&mut hdrs);
    assert_eq!(taken.as_deref(), Some(&b"a.id"[..]));
    assert!(hdrs.is_empty());
    assert_eq!(RequireIdentity::<()>::extract_id(&mut hdrs), None);
}
