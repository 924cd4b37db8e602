use linkerd_app_outbound::client_policy::Timeouts;
use linkerd_app_outbound::route::deadline::{
    BodyPoll, EnforceTimeouts, Flush, Idle, NewSetStreamTimeoutsExtension, ResponsePoll,
    StreamLifetime, StreamTimeoutError, StreamTimeouts,
};
use linkerd_app_outbound::time::{Duration, Instant};

const TIMEOUT: u64 = 2;

fn secs(n: u64) -> Duration {
    Duration::from_secs(n)
}

fn start() -> Instant {
    Instant { nanos: 9_000_000_000 }
}

fn at(n: u64) -> Instant {
    start().after(secs(n))
}

fn limit() -> StreamTimeouts {
    StreamTimeouts {
        limit: Some(StreamLifetime::new(start(), secs(TIMEOUT))),
        ..StreamTimeouts::default()
    }
}

fn response() -> StreamTimeouts {
    StreamTimeouts {
        response_headers: Some(secs(TIMEOUT)),
        response_end: Some(secs(TIMEOUT)),
        ..StreamTimeouts::default()
    }
}

fn svc() -> EnforceTimeouts<()> {
    EnforceTimeouts { inner: () }
}

fn pending() -> Option<Result<u8, u8>> {
    None
}

#[test]
fn request_timeout_response_headers() {
    let (_, mut rsp) = svc().call(Some(limit()), start());
    assert!(matches!(rsp.poll(Flush::At(start()), pending(), at(1)), ResponsePoll::Pending));
    match rsp.poll(Flush::Pending, pending(), at(2)) {
        ResponsePoll::TimedOut(e) => assert_eq!(e, StreamTimeoutError::Lifetime(secs(TIMEOUT))),
        other => panic!("expected a timeout, got {other:?}"),
    }
}

#[test]
fn request_timeout_request_body() {
    let (mut body, mut rsp) = svc().call(Some(limit()), start());
    let mut last = start();
    assert!(matches!(body.poll_data(false, &mut last, at(1)), BodyPoll::Pending));
    match body.poll_data(false, &mut last, at(4)) {
        BodyPoll::TimedOut(e) => assert_eq!(e, StreamTimeoutError::Lifetime(secs(TIMEOUT))),
        other => panic!("expected a timeout, got {other:?}"),
    }
    assert!(matches!(body.poll_data(false, &mut last, at(5)), BodyPoll::Pending));
    match rsp.poll(Flush::Pending, pending(), at(4)) {
        ResponsePoll::TimedOut(e) => assert_eq!(e, StreamTimeoutError::Lifetime(secs(TIMEOUT))),
        other => panic!("expected a timeout, got {other:?}"),
    }
}

#[test]
fn request_timeout_response_body() {
    let (_, mut rsp) = svc().call(Some(limit()), start());
    let mut last = start();
    match rsp.poll::<u8, u8>(Flush::At(start()), Some(Ok(7)), start()) {
        ResponsePoll::Ready(7, mut body) => {
            assert!(matches!(body.poll_data(false, &mut last, at(1)), BodyPoll::Pending));
            match body.poll_trailers(false, &mut last, at(2)) {
                BodyPoll::TimedOut(e) => {
                    assert_eq!(e, StreamTimeoutError::Lifetime(secs(TIMEOUT)));
                }
                other => panic!("expected a timeout, got {other:?}"),
            }
        }
        other => panic!("expected a response, got {other:?}"),
    }
}

#[test]
fn response_timeout_response_headers() {
    let (_, mut rsp) = svc().call(Some(response()), start());
    assert!(matches!(rsp.poll(Flush::Pending, pending(), at(9)), ResponsePoll::Pending));
    assert!(matches!(rsp.poll(Flush::At(at(9)), pending(), at(10)), ResponsePoll::Pending));
    match rsp.poll(Flush::Pending, pending(), at(11)) {
        ResponsePoll::TimedOut(e) => {
            assert_eq!(e, StreamTimeoutError::ResponseHeaders(secs(TIMEOUT)));
        }
        other => panic!("expected a timeout, got {other:?}"),
    }
}

#[test]
fn response_timeout_response_body() {
    let (_, mut rsp) = svc().call(Some(response()), start());
    let mut last = start();
    match rsp.poll::<u8, u8>(Flush::At(start()), Some(Ok(7)), at(1)) {
        ResponsePoll::Ready(7, mut body) => match body.poll_data(false, &mut last, at(2)) {
            BodyPoll::TimedOut(e) => {
                assert_eq!(e, StreamTimeoutError::ResponseStream(secs(TIMEOUT)));
            }
            other => panic!("expected a timeout, got {other:?}"),
        },
        other => panic!("expected a response, got {other:?}"),
    }
}

#[test]
fn response_timeout_ignores_request_body() {
    let (mut body, mut rsp) = svc().call(Some(response()), start());
    let mut last = start();
    assert!(matches!(body.poll_data(false, &mut last, at(100)), BodyPoll::Pending));
    match rsp.poll::<u8, u8>(Flush::Pending, Some(Ok(7)), at(100)) {
        ResponsePoll::Ready(7, body) => assert_eq!(body.deadline.at, Some(at(102))),
        other => panic!("expected a response, got {other:?}"),
    }
}

#[test]
fn idle_timeout_response_body() {
    let timeouts = StreamTimeouts { idle: Some(secs(TIMEOUT)), ..StreamTimeouts::default() };
    let (mut req, mut rsp) = svc().call(Some(timeouts), start());
    let mut last = start();
    assert!(matches!(req.poll_data(true, &mut last, at(1)), BodyPoll::Ready { flushed: false }));
    assert_eq!(last, at(1));
    let mut body = match rsp.poll::<u8, u8>(Flush::Pending, Some(Ok(7)), at(1)) {
        ResponsePoll::Ready(7, body) => body,
        other => panic!("expected a response, got {other:?}"),
    };
    assert!(matches!(body.poll_data(true, &mut last, at(2)), BodyPoll::Ready { flushed: false }));
    assert!(matches!(req.poll_data(false, &mut last, at(3)), BodyPoll::Pending));
    match body.poll_data(false, &mut last, at(4)) {
        BodyPoll::TimedOut(e) => assert_eq!(e, StreamTimeoutError::Idle(secs(TIMEOUT))),
        other => panic!("expected a timeout, got {other:?}"),
    }
}

#[test]
fn earlier_headers_deadline_takes_over() {
    let timeouts = StreamTimeouts {
        response_headers: Some(secs(1)),
        response_end: Some(secs(50)),
        ..limit()
    };
    let (_, mut rsp) = svc().call(Some(timeouts), start());
    match rsp.poll(Flush::At(start()), pending(), at(1)) {
        ResponsePoll::TimedOut(e) => assert_eq!(e, StreamTimeoutError::ResponseHeaders(secs(1))),
        other => panic!("expected a timeout, got {other:?}"),
    }
    match rsp.poll::<u8, u8>(Flush::At(at(1)), Some(Ok(7)), at(1)) {
        ResponsePoll::Ready(7, body) => {
            assert_eq!(body.deadline.at, Some(at(2)), "the limit on the stream is sooner");
            assert_eq!(body.deadline.error, Some(StreamTimeoutError::Lifetime(secs(TIMEOUT))));
        }
        other => panic!("expected a response, got {other:?}"),
    }
}

#[test]
fn failures_of_the_inner_service_are_handed_on() {
    let (_, mut rsp) = svc().call(None, start());
    assert!(matches!(rsp.poll(Flush::Dropped, pending(), at(1_000)), ResponsePoll::Pending));
    assert!(matches!(
        rsp.poll::<u8, u8>(Flush::Pending, Some(Err(3)), at(1_000)),
        ResponsePoll::Failed(3)
    ));
}

#[test]
fn end_of_request_is_reported_once() {
    let (mut body, _) = svc().call(None, start());
    let mut last = start();
    assert!(matches!(body.poll_trailers(false, &mut last, at(1)), BodyPoll::Pending));
    assert!(matches!(body.poll_trailers(true, &mut last, at(1)), BodyPoll::Ready { flushed: true }));
    assert!(matches!(body.poll_trailers(true, &mut last, at(1)), BodyPoll::Ready { flushed: false }));
}

#[test]
fn idle_timer_is_set_anew_after_progress_elsewhere() {
    let mut idle = Idle { sleep_until: at(2), timeout: secs(2) };
    assert_eq!(idle.poll_idle(at(1), at(2)), None);
    assert_eq!(idle.sleep_until, at(3));
    assert_eq!(idle.poll_idle(at(1), at(3)), Some(StreamTimeoutError::Idle(secs(2))));
}

#[test]
fn policy_timeouts_become_deadlines() {
    let stack = NewSetStreamTimeoutsExtension { inner: () };
    let timeouts = Timeouts { response: Some(secs(1)), request: Some(secs(2)), idle: Some(secs(3)) };
    let t = stack.new_service(timeouts, ()).stream_timeouts(start());
    assert_eq!(t.response_headers, Some(secs(1)));
    assert_eq!(t.response_end, Some(secs(1)));
    assert_eq!(t.idle, Some(secs(3)));
    assert_eq!(t.limit, Some(StreamLifetime { deadline: at(2), lifetime: secs(2) }));
}
