use cdumay_http_client::context::{Context, CtxValue};
use cdumay_http_client::errors::{http_error_serialize, http_resp_serialise, json_error_serialize,
    JsonFailure, TransportFailure};
use cdumay_http_client::kinds::{ErrorKind, HttpStatusCodeErrors};

#[test]
fn status_table_maps_standard_codes() {
    assert_eq!(HttpStatusCodeErrors::from_status(404), ErrorKind::NotFound);
    assert_eq!(HttpStatusCodeErrors::from_status(422), ErrorKind::UnprocessableEntity);
    assert_eq!(HttpStatusCodeErrors::from_status(500), ErrorKind::InternalServerError);
    assert_eq!(HttpStatusCodeErrors::from_status(301), ErrorKind::MovedPermanently);
    assert_eq!(HttpStatusCodeErrors::from_status(511), ErrorKind::NetworkAuthenticationRequired);
}

#[test]
fn kinds_carry_wire_shape() {
    assert_eq!(ErrorKind::NotFound.code(), 404);
    assert_eq!(ErrorKind::NotFound.msgid(), "Err-18430");
    assert_eq!(ErrorKind::NotFound.message(), "Not Found");
    assert_eq!(ErrorKind::InvalidUrl.code(), 400);
    assert_eq!(ErrorKind::InvalidUrl.msgid(), "Err-27071");
    assert_eq!(ErrorKind::JsonDataError.code(), 400);
    assert_eq!(ErrorKind::JsonDataError.msgid(), "JSON-15852");
    assert_eq!(ErrorKind::UnknownError.msgid(), "Err-79483");
}

#[test]
fn transport_failures_classify_by_category() {
    let builder = http_error_serialize(
        TransportFailure::Builder { message: "bad client".to_string() },
        None,
    );
    assert_eq!(builder.kind, ErrorKind::GenericHttpClientError);

    let content = http_error_serialize(
        TransportFailure::Content { message: "bad body".to_string() },
        None,
    );
    assert_eq!(content.kind, ErrorKind::ContentError);

    let timeout = http_error_serialize(
        TransportFailure::Timeout { message: "timed out".to_string() },
        None,
    );
    assert_eq!(timeout.kind, ErrorKind::NetworkConnection);

    let request = http_error_serialize(
        TransportFailure::Request { message: "request broke".to_string() },
        None,
    );
    assert_eq!(request.kind, ErrorKind::RequestError);

    let other = http_error_serialize(
        TransportFailure::Other { message: "???".to_string() },
        None,
    );
    assert_eq!(other.kind, ErrorKind::UnknownError);

    let status = http_error_serialize(
        TransportFailure::WithStatus { status: 403, message: "no".to_string() },
        None,
    );
    assert_eq!(status.kind, ErrorKind::Forbidden);
}

#[test]
fn response_classification_keeps_body_and_context() {
    let mut ctx = Context::new();
    ctx.insert("url".to_string(), CtxValue::Str("https://api.example.com/a".to_string()));
    let err = http_resp_serialise(404, "missing".to_string(), Some(ctx));
    assert_eq!(err.kind, ErrorKind::NotFound);
    assert_eq!(err.message, "missing");
    let details = err.details.expect("details attached");
    match details.get("url") {
        Some(CtxValue::Str(u)) => assert_eq!(u, "https://api.example.com/a"),
        other => panic!("context lost: {:?}", other),
    }
}

#[test]
fn classification_is_repeatable() {
    let first = http_resp_serialise(404, "missing".to_string(), None);
    let second = http_resp_serialise(404, "missing".to_string(), None);
    assert_eq!(first.kind, second.kind);
    assert_eq!(first.message, second.message);
}

#[test]
fn json_categories_map_to_their_kinds() {
    let io = json_error_serialize(JsonFailure::Io { message: "io".to_string() }, None);
    assert_eq!(io.kind, ErrorKind::JsonIoError);
    let syntax = json_error_serialize(JsonFailure::Syntax { message: "syn".to_string() }, None);
    assert_eq!(syntax.kind, ErrorKind::JsonSyntaxError);
    let data = json_error_serialize(JsonFailure::Data { message: "data".to_string() }, None);
    assert_eq!(data.kind, ErrorKind::JsonDataError);
    let eof = json_error_serialize(JsonFailure::Eof { message: "eof".to_string() }, None);
    assert_eq!(eof.kind, ErrorKind::JsonEof);
}

fn json_failure_of(err: serde_json::Error) -> JsonFailure {
    let message = err.to_string();
    match err.classify() {
        serde_json::error::Category::Io => JsonFailure::Io { message },
        serde_json::error::Category::Syntax => JsonFailure::Syntax { message },
        serde_json::error::Category::Data => JsonFailure::Data { message },
        serde_json::error::Category::Eof => JsonFailure::Eof { message },
    }
}

#[test]
fn wrong_shape_is_a_data_error() {
    // The body is valid JSON, but not of the shape the caller asked for.
    let err = serde_json::from_str::<u64>("{\"id\": 1}").unwrap_err();
    let classified = json_error_serialize(json_failure_of(err), None);
    assert_eq!(classified.kind, ErrorKind::JsonDataError);
    assert_ne!(classified.kind, ErrorKind::NetworkConnection);
    assert_ne!(classified.kind, ErrorKind::NotFound);
}

#[test]
fn truncated_json_is_an_eof_error() {
    let err = serde_json::from_str::<serde_json::Value>("{\"id\": ").unwrap_err();
    let classified = json_error_serialize(json_failure_of(err), None);
    assert_eq!(classified.kind, ErrorKind::JsonEof);
}

#[test]
fn malformed_json_is_a_syntax_error() {
    let err = serde_json::from_str::<serde_json::Value>("{id}").unwrap_err();
    let classified = json_error_serialize(json_failure_of(err), None);
    assert_eq!(classified.kind, ErrorKind::JsonSyntaxError);
}
