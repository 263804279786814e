use blocking_client::channel::PendingRequest;
use blocking_client::error::{Error, ErrorKind};
use blocking_client::exchange::{resolve, send_request, KeepCoreThreadAlive, Response};
use blocking_client::launch::{conclude_startup, startup_wait};
use blocking_client::lifetime::WorkerState;
use blocking_client::timeout::{Span, Timeout};
use blocking_client::wait::Waited;
use tokio::sync::mpsc;

fn url() -> String {
    "http://example.test/slow".to_string()
}

#[test]
fn response_becomes_a_holder_of_the_worker() {
    let mut state = WorkerState::new("queue", "thread");
    let timeout = Timeout::bounded(Span::from_secs(7));
    let result = resolve(&mut state, Ok(Ok("body")), url(), timeout);
    let response = result.expect("the wait ended with a response");
    assert_eq!(response.inner, "body");
    assert_eq!(response.timeout, timeout);
    assert!(response.keep_alive.is_holding());
    assert_eq!(state.holders(), 2u64);
}

#[test]
fn engine_failure_is_returned_with_the_url() {
    let mut state = WorkerState::new("queue", "thread");
    let refused = Error::new(ErrorKind::Engine, "connection refused".to_string());
    let result: Result<Response<u8>, Error> = resolve(&mut state, Ok(Err(refused)), url(), Timeout::default());
    assert_eq!(
        result.err(),
        Some(Error { kind: ErrorKind::Engine, url: Some(url()), detail: "connection refused".to_string() })
    );
    assert_eq!(state.holders(), 1u64);
}

#[test]
fn timed_out_wait_is_a_timeout_error_with_the_url() {
    let mut state = WorkerState::new("queue", "thread");
    let timeout = Timeout::bounded(Span::from_millis(100));
    let result: Result<Response<u8>, Error> = resolve(&mut state, Err(Waited::TimedOut), url(), timeout);
    let error = result.err().expect("the wait ran out");
    assert!(error.is_timeout());
    assert!(!error.is_builder());
    assert_eq!(error.kind, ErrorKind::Timeout);
    assert_eq!(error.url, Some(url()));
    assert_eq!(error.detail, "operation timed out".to_string());
    assert_eq!(state.holders(), 1u64);
}

#[test]
fn body_failure_is_returned_with_the_url() {
    let mut state = WorkerState::new("queue", "thread");
    let broken = Error::new(ErrorKind::Engine, "broken pipe".to_string());
    let result: Result<Response<u8>, Error> =
        resolve(&mut state, Err(Waited::Inner(broken)), url(), Timeout::default());
    assert_eq!(
        result.err(),
        Some(Error { kind: ErrorKind::Engine, url: Some(url()), detail: "broken pipe".to_string() })
    );
    assert_eq!(state.holders(), 1u64);
}

#[test]
fn failure_replaces_an_earlier_url() {
    let mut state = WorkerState::new("queue", "thread");
    let redirected =
        Error::new(ErrorKind::Engine, "too many redirects".to_string()).with_url("http://other.test/".to_string());
    let result: Result<Response<u8>, Error> = resolve(&mut state, Ok(Err(redirected)), url(), Timeout::default());
    assert_eq!(result.err().expect("the engine failed").url, Some(url()));
}

#[test]
fn empty_keep_alive_holds_nothing() {
    assert!(!KeepCoreThreadAlive::empty().is_holding());
    let response = Response::new(5u8, Timeout::unbounded(), KeepCoreThreadAlive::empty());
    assert_eq!(response.inner, 5u8);
    assert_eq!(response.timeout, Timeout(None));
    assert!(!response.keep_alive.is_holding());
}

#[test]
fn request_is_sent_through_the_running_worker() {
    let (queue, mut worker_end) = mpsc::unbounded_channel::<PendingRequest<String, u32>>();
    let state = WorkerState::new(queue, "thread");
    assert!(state.is_running());
    let mut reader = send_request(&state, "GET /".to_string()).expect("the worker end is open");
    let pending = worker_end.try_recv().expect("the request was queued");
    assert_eq!(pending.request, "GET /".to_string());
    assert!(pending.slot.send(Ok(204)).is_ok());
    assert_eq!(reader.try_recv().expect("the reply was written"), Ok(204));
}

#[test]
fn request_to_a_vanished_worker_comes_back() {
    let (queue, worker_end) = mpsc::unbounded_channel::<PendingRequest<String, u32>>();
    let state = WorkerState::new(queue, "thread");
    drop(worker_end);
    assert_eq!(send_request(&state, "GET /".to_string()).err(), Some("GET /".to_string()));
}

#[test]
fn startup_wait_is_unbounded() {
    assert_eq!(startup_wait(), Timeout(None));
}

#[test]
fn good_report_starts_the_worker_with_one_holder() {
    let state = conclude_startup(Ok(()), "queue", "thread").expect("the worker reported success");
    assert!(state.is_running());
    assert_eq!(state.holders(), 1u64);
    assert_eq!(state.sender(), Some(&"queue"));
}

#[test]
fn bad_report_is_the_build_error() {
    let refused = Error::builder("invalid root certificate".to_string());
    let started = conclude_startup(Err(refused.clone()), "queue", "thread");
    let error = started.err().expect("the worker reported a failure");
    assert_eq!(error, refused);
    assert!(error.is_builder());
    assert_eq!(error.url, None);
}
