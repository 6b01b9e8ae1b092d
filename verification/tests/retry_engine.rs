use cdumay_http_client::context::{Context, CtxValue};
use cdumay_http_client::errors::TransportFailure;
use cdumay_http_client::executor::{AttemptOutcome, Decision, Executor};
use cdumay_http_client::kinds::ErrorKind;

fn response(status: u16) -> AttemptOutcome {
    AttemptOutcome::Response { status, body: "failed".to_string(), body_fields: None }
}

fn attempt_recorded(err: &cdumay_http_client::errors::ClassifiedError) -> u64 {
    match err.details.as_ref().expect("details attached").get("try") {
        Some(CtxValue::U64(n)) => *n,
        other => panic!("no attempt number recorded: {:?}", other),
    }
}

#[test]
fn success_returns_body() {
    let mut ex = Executor::new(3, 1, Vec::new(), Context::new());
    let d = ex.on_outcome(AttemptOutcome::Response {
        status: 200,
        body: "hello".to_string(),
        body_fields: None,
    });
    match d {
        Decision::Finish(Ok(body)) => assert_eq!(body, "hello"),
        other => panic!("expected success, got {:?}", other),
    }
    assert!(ex.is_finished());
    assert_eq!(ex.attempts_made(), 1);
}

#[test]
fn permanent_failure_consumes_all_attempts() {
    let mut ex = Executor::new(2, 1, Vec::new(), Context::new());
    match ex.on_outcome(response(422)) {
        Decision::Retry { delay } => assert_eq!(delay, 1),
        other => panic!("expected a retry, got {:?}", other),
    }
    let err = match ex.on_outcome(response(422)) {
        Decision::Finish(Err(err)) => err,
        other => panic!("expected the final error, got {:?}", other),
    };
    assert_eq!(err.kind, ErrorKind::UnprocessableEntity);
    assert_eq!(attempt_recorded(&err), 2);
    assert_eq!(ex.attempts_made(), 2);
}

#[test]
fn exemption_short_circuits_retry() {
    let mut ex = Executor::new(5, 1, vec![ErrorKind::UnprocessableEntity], Context::new());
    let err = match ex.on_outcome(response(422)) {
        Decision::Finish(Err(err)) => err,
        other => panic!("expected an immediate error, got {:?}", other),
    };
    assert_eq!(err.kind, ErrorKind::UnprocessableEntity);
    assert_eq!(attempt_recorded(&err), 1);
    assert_eq!(ex.attempts_made(), 1);
}

#[test]
fn unrelated_exemption_still_retries() {
    let mut ex = Executor::new(2, 3, vec![ErrorKind::NotFound], Context::new());
    match ex.on_outcome(response(422)) {
        Decision::Retry { delay } => assert_eq!(delay, 3),
        other => panic!("expected a retry, got {:?}", other),
    }
}

#[test]
fn error_keeps_seeded_context() {
    let mut seed = Context::new();
    seed.insert("url".to_string(), CtxValue::Str("https://api.example.com/x".to_string()));
    seed.insert("method".to_string(), CtxValue::Str("GET".to_string()));
    let mut ex = Executor::new(1, 0, Vec::new(), seed);
    let err = match ex.on_outcome(response(500)) {
        Decision::Finish(Err(err)) => err,
        other => panic!("expected an error, got {:?}", other),
    };
    let details = err.details.expect("details attached");
    match details.get("url") {
        Some(CtxValue::Str(u)) => assert_eq!(u, "https://api.example.com/x"),
        other => panic!("url not kept: {:?}", other),
    }
    match details.get("method") {
        Some(CtxValue::Str(m)) => assert_eq!(m, "GET"),
        other => panic!("method not kept: {:?}", other),
    }
}

#[test]
fn body_fields_fold_into_details() {
    let mut fields = Context::new();
    fields.insert("reason".to_string(), CtxValue::Str("quota exceeded".to_string()));
    let mut ex = Executor::new(1, 0, Vec::new(), Context::new());
    let err = match ex.on_outcome(AttemptOutcome::Response {
        status: 429,
        body: "{\"reason\":\"quota exceeded\"}".to_string(),
        body_fields: Some(fields),
    }) {
        Decision::Finish(Err(err)) => err,
        other => panic!("expected an error, got {:?}", other),
    };
    assert_eq!(err.kind, ErrorKind::TooManyRequests);
    let details = err.details.expect("details attached");
    match details.get("reason") {
        Some(CtxValue::Str(r)) => assert_eq!(r, "quota exceeded"),
        other => panic!("body field not folded in: {:?}", other),
    }
}

#[test]
fn body_fields_cannot_displace_context() {
    // A response body naming "url" must not overwrite the seeded URL.
    let mut seed = Context::new();
    seed.insert("url".to_string(), CtxValue::Str("https://real.example/x".to_string()));
    let mut fields = Context::new();
    fields.insert("url".to_string(), CtxValue::Str("spoof".to_string()));
    fields.insert("reason".to_string(), CtxValue::Str("quota exceeded".to_string()));
    let mut ex = Executor::new(1, 0, Vec::new(), seed);
    let err = match ex.on_outcome(AttemptOutcome::Response {
        status: 429,
        body: "{\"url\":\"spoof\"}".to_string(),
        body_fields: Some(fields),
    }) {
        Decision::Finish(Err(err)) => err,
        other => panic!("expected an error, got {:?}", other),
    };
    let details = err.details.expect("details attached");
    match details.get("url") {
        Some(CtxValue::Str(u)) => assert_eq!(u, "https://real.example/x"),
        other => panic!("seeded url lost: {:?}", other),
    }
    match details.get("reason") {
        Some(CtxValue::Str(r)) => assert_eq!(r, "quota exceeded"),
        other => panic!("body field not folded in: {:?}", other),
    }
}

#[test]
fn connect_failure_returns_at_once() {
    let mut ex = Executor::new(10, 30, Vec::new(), Context::new());
    let err = match ex.on_outcome(AttemptOutcome::Transport(TransportFailure::Connect {
        message: "connection refused".to_string(),
    })) {
        Decision::Finish(Err(err)) => err,
        other => panic!("expected an immediate error, got {:?}", other),
    };
    assert_eq!(err.kind, ErrorKind::NetworkConnection);
    assert_eq!(err.message, "connection refused");
    assert!(ex.is_finished());
    assert_eq!(ex.attempts_made(), 1);
}

#[test]
fn status_bearing_transport_failure_is_retryable() {
    let mut ex = Executor::new(2, 0, Vec::new(), Context::new());
    match ex.on_outcome(AttemptOutcome::Transport(TransportFailure::WithStatus {
        status: 503,
        message: "service unavailable".to_string(),
    })) {
        Decision::Retry { delay } => assert_eq!(delay, 0),
        other => panic!("expected a retry, got {:?}", other),
    }
    let err = match ex.on_outcome(AttemptOutcome::Transport(TransportFailure::WithStatus {
        status: 503,
        message: "service unavailable".to_string(),
    })) {
        Decision::Finish(Err(err)) => err,
        other => panic!("expected the final error, got {:?}", other),
    };
    assert_eq!(err.kind, ErrorKind::ServiceUnavailable);
}

#[test]
fn clone_failure_is_fatal() {
    let mut ex = Executor::new(10, 30, Vec::new(), Context::new());
    let err = match ex.on_outcome(AttemptOutcome::CloneFailed) {
        Decision::Finish(Err(err)) => err,
        other => panic!("expected an immediate error, got {:?}", other),
    };
    assert_eq!(err.kind, ErrorKind::GenericHttpClientError);
    assert_eq!(err.message, "Internal error, failed to clone request");
    // No transport call was made, so no attempt was consumed.
    assert_eq!(ex.attempts_made(), 0);
}
