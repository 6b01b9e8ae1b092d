use cdumay_http_client::auth::{AuthHandle, BasicAuth};
use cdumay_http_client::client::{prepare_request, BaseClient, ClientBuilder, HttpClient, Method,
    RestClient};
use cdumay_http_client::context::CtxValue;
use cdumay_http_client::executor::{AttemptOutcome, Decision};
use cdumay_http_client::headers::HeaderSet;
use cdumay_http_client::kinds::ErrorKind;

#[test]
fn new_client_has_documented_defaults() {
    let cli = HttpClient::new("https://api.example.com", None).unwrap();
    assert_eq!(*cli.timeout(), 10);
    assert_eq!(cli.retry_number(), 10);
    assert_eq!(cli.retry_delay(), 30);
    assert!(cli.ssl_verify());
    assert!(cli.auth().is_none());
    assert_eq!(
        cli.headers().get("User-Agent").unwrap(),
        "cdumay_http_client/1.0.0"
    );
}

#[test]
fn rest_client_adds_json_headers() {
    let cli = RestClient::new("https://api.example.com", None).unwrap();
    assert_eq!(cli.headers().get("Content-Type").unwrap(), "application/json");
    assert_eq!(cli.headers().get("Accept").unwrap(), "application/json");
    assert_eq!(
        cli.headers().get("User-Agent").unwrap(),
        "cdumay_http_client/1.0.0"
    );
}

#[test]
fn builder_setters_apply() {
    let cli = HttpClient::new("https://api.example.com", None)
        .unwrap()
        .set_timeout(30)
        .set_ssl_verify(false)
        .set_retry_number(3)
        .set_retry_delay(5);
    assert_eq!(*cli.timeout(), 30);
    assert!(!cli.ssl_verify());
    assert_eq!(cli.retry_number(), 3);
    assert_eq!(cli.retry_delay(), 5);
}

#[test]
fn set_headers_merges_over_defaults() {
    let mut extra = HeaderSet::new();
    extra.insert("User-Agent".to_string(), "custom/2".to_string());
    extra.insert("X-Trace".to_string(), "abc".to_string());
    let cli = HttpClient::new("https://api.example.com", None).unwrap().set_headers(extra);
    assert_eq!(cli.headers().get("User-Agent").unwrap(), "custom/2");
    assert_eq!(cli.headers().get("X-Trace").unwrap(), "abc");
}

#[test]
fn prepared_request_carries_everything() {
    let cli = HttpClient::new("https://api.example.com", None)
        .unwrap()
        .set_timeout(7)
        .set_auth(AuthHandle::Basic(BasicAuth::new("john.doe".to_string(), None)))
        .set_retry_number(2)
        .set_retry_delay(1);
    let mut overrides = HeaderSet::new();
    overrides.insert("X-Trace".to_string(), "abc".to_string());
    let prepared = prepare_request(
        &cli,
        Method::Get,
        "/users/search".to_string(),
        Some(vec![("page".to_string(), "1".to_string()), ("limit".to_string(), "10".to_string())]),
        None,
        Some(overrides),
        None,
        None,
        None,
    )
    .unwrap();
    assert_eq!(prepared.url, "https://api.example.com/users/search?limit=10&page=1");
    assert_eq!(prepared.method, Method::Get);
    assert_eq!(prepared.timeout, 7);
    assert!(prepared.ssl_verify);
    assert!(prepared.body.is_none());
    assert_eq!(prepared.headers.get("X-Trace").unwrap(), "abc");
    assert_eq!(prepared.headers.get("User-Agent").unwrap(), "cdumay_http_client/1.0.0");
    let (name, value) = prepared.auth_header.unwrap();
    assert_eq!(name, "Authorization");
    assert_eq!(value, "Basic am9obi5kb2U6");
}

#[test]
fn prepared_request_timeout_override() {
    let cli = HttpClient::new("https://api.example.com", None).unwrap();
    let prepared = prepare_request(
        &cli,
        Method::Get,
        "/a".to_string(),
        None,
        None,
        None,
        Some(99),
        None,
        None,
    )
    .unwrap();
    assert_eq!(prepared.timeout, 99);
}

#[test]
fn prepared_executor_reports_url_and_method() {
    let cli = HttpClient::new("https://api.example.com", None)
        .unwrap()
        .set_retry_number(1)
        .set_retry_delay(0);
    let prepared = prepare_request(
        &cli,
        Method::Post,
        "/things".to_string(),
        None,
        Some("{}".to_string()),
        None,
        None,
        None,
        None,
    )
    .unwrap();
    let mut ex = prepared.executor;
    let err = match ex.on_outcome(AttemptOutcome::Response {
        status: 422,
        body: "rejected".to_string(),
        body_fields: None,
    }) {
        Decision::Finish(Err(err)) => err,
        other => panic!("expected the final error, got {:?}", other),
    };
    assert_eq!(err.kind, ErrorKind::UnprocessableEntity);
    let details = err.details.expect("details attached");
    match details.get("url") {
        Some(CtxValue::Str(u)) => assert_eq!(u, "https://api.example.com/things"),
        other => panic!("url not seeded: {:?}", other),
    }
    match details.get("method") {
        Some(CtxValue::Str(m)) => assert_eq!(m, "POST"),
        other => panic!("method not seeded: {:?}", other),
    }
    match details.get("try") {
        Some(CtxValue::U64(n)) => assert_eq!(*n, 1),
        other => panic!("attempt not recorded: {:?}", other),
    }
}

#[test]
fn rest_context_names_server_path_method() {
    let cli = RestClient::new("https://dummyjson.com", None).unwrap();
    let ctx = cli.create_context("/todos/1".to_string(), Method::Get);
    match ctx.get("server") {
        Some(CtxValue::Str(s)) => assert_eq!(s, "https://dummyjson.com/"),
        other => panic!("server missing: {:?}", other),
    }
    match ctx.get("path") {
        Some(CtxValue::Str(p)) => assert_eq!(p, "/todos/1"),
        other => panic!("path missing: {:?}", other),
    }
    match ctx.get("method") {
        Some(CtxValue::Str(m)) => assert_eq!(m, "GET"),
        other => panic!("method missing: {:?}", other),
    }
}
