use cdumay_http_client::client::{BaseClient, ClientBuilder, HttpClient, RestClient};
use cdumay_http_client::context::CtxValue;
use cdumay_http_client::kinds::ErrorKind;
use cdumay_http_client::urls::build_url;

fn params(entries: &[(&str, &str)]) -> Option<Vec<(String, String)>> {
    Some(entries.iter().map(|(k, v)| (k.to_string(), v.to_string())).collect())
}

#[test]
fn builds_url_with_sorted_query() {
    let cli = HttpClient::new("https://api.example.com", None).unwrap();
    let url = build_url(
        cli.url_root(),
        "/users/search".to_string(),
        params(&[("page", "1"), ("limit", "10")]),
    )
    .unwrap();
    assert_eq!(url, "https://api.example.com/users/search?limit=10&page=1");
}

#[test]
fn query_order_is_deterministic() {
    let cli = HttpClient::new("https://api.example.com", None).unwrap();
    let a = build_url(
        cli.url_root(),
        "/users/search".to_string(),
        params(&[("page", "1"), ("limit", "10"), ("sort", "name")]),
    )
    .unwrap();
    let b = build_url(
        cli.url_root(),
        "/users/search".to_string(),
        params(&[("sort", "name"), ("limit", "10"), ("page", "1")]),
    )
    .unwrap();
    assert_eq!(a, b);
}

#[test]
fn builds_url_without_params() {
    let cli = HttpClient::new("https://api.example.com", None).unwrap();
    let url = build_url(cli.url_root(), "/users".to_string(), None).unwrap();
    assert_eq!(url, "https://api.example.com/users");
}

#[test]
fn drops_empty_path_segments() {
    let cli = HttpClient::new("https://api.example.com", None).unwrap();
    let url = build_url(cli.url_root(), "//users///search/".to_string(), None).unwrap();
    assert_eq!(url, "https://api.example.com/users/search");
}

#[test]
fn keeps_base_path_segments() {
    let cli = HttpClient::new("https://api.example.com/v2/", None).unwrap();
    let url = build_url(cli.url_root(), "/todos/1".to_string(), None).unwrap();
    assert_eq!(url, "https://api.example.com/v2/todos/1");
}

#[test]
fn keeps_explicit_port() {
    let cli = HttpClient::new("http://localhost:8080", None).unwrap();
    let url = build_url(cli.url_root(), "/health".to_string(), None).unwrap();
    assert_eq!(url, "http://localhost:8080/health");
}

#[test]
fn escapes_query_pairs() {
    let cli = HttpClient::new("https://api.example.com", None).unwrap();
    let url = build_url(
        cli.url_root(),
        "/search".to_string(),
        params(&[("q", "bar & baz")]),
    )
    .unwrap();
    assert_eq!(url, "https://api.example.com/search?q=bar+%26+baz");
}

#[test]
fn escapes_multibyte_query_values() {
    let cli = HttpClient::new("https://api.example.com", None).unwrap();
    let url = build_url(
        cli.url_root(),
        "/search".to_string(),
        params(&[("saison", "\u{c9}t\u{e9}+hiver")]),
    )
    .unwrap();
    assert_eq!(url, "https://api.example.com/search?saison=%C3%89t%C3%A9%2Bhiver");
}

#[test]
fn keeps_base_path_empty_segments() {
    // The base's own path is taken as parsed; a doubled slash in it stays.
    let cli = HttpClient::new("https://api.example.com/a//b", None).unwrap();
    let url = build_url(cli.url_root(), "/c".to_string(), None).unwrap();
    assert_eq!(url, "https://api.example.com/a//b/c");
}

#[test]
fn empty_params_add_no_query() {
    let cli = HttpClient::new("https://api.example.com", None).unwrap();
    let url = build_url(cli.url_root(), "/users".to_string(), Some(Vec::new())).unwrap();
    assert_eq!(url, "https://api.example.com/users");
}

#[test]
fn escapes_path_segments() {
    let cli = HttpClient::new("https://api.example.com", None).unwrap();
    let url = build_url(cli.url_root(), "/a b/c#d".to_string(), None).unwrap();
    assert_eq!(url, "https://api.example.com/a%20b/c%23d");
}

#[test]
fn ignores_dot_segments() {
    // The url crate's appender skips "." and ".." segments.
    let cli = HttpClient::new("https://api.example.com", None).unwrap();
    let url = build_url(cli.url_root(), "/a/./b/../c".to_string(), None).unwrap();
    assert_eq!(url, "https://api.example.com/a/b/c");
}

#[test]
fn keeps_userinfo_and_fragment() {
    let cli = HttpClient::new("https://user:pw@h.example/base#top", None).unwrap();
    let url = build_url(cli.url_root(), "/y".to_string(), params(&[("a", "1")])).unwrap();
    assert_eq!(url, "https://user:pw@h.example/base/y?a=1#top");
}

#[test]
fn rejects_non_hierarchical_base() {
    let cli = HttpClient::new("mailto:someone@example.com", None).unwrap();
    let err = build_url(cli.url_root(), "/users".to_string(), None).unwrap_err();
    assert_eq!(err.kind, ErrorKind::InvalidUrl);
    assert_eq!(err.message, "Cannot build url");
}

#[test]
fn new_rejects_unparsable_url() {
    let err = HttpClient::new("not a url at all", None).unwrap_err();
    assert_eq!(err.kind, ErrorKind::InvalidUrl);
    assert!(err.message.starts_with("Failed to parse URL: "));
    let details = err.details.expect("details attached");
    match details.get("url") {
        Some(CtxValue::Str(s)) => assert_eq!(s, "not a url at all"),
        other => panic!("unexpected url detail: {:?}", other),
    }
}

#[test]
fn new_trims_trailing_slashes() {
    let cli = RestClient::new("https://dummyjson.com/", None).unwrap();
    let url = build_url(cli.url_root(), "/todos/1".to_string(), None).unwrap();
    assert_eq!(url, "https://dummyjson.com/todos/1");
}
