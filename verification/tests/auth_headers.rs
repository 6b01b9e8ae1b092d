use cdumay_http_client::auth::{Authentication, AuthHandle, BasicAuth, NoAuth};
use cdumay_http_client::headers::{merge_headers, HeaderSet};

#[test]
fn basic_auth_without_password() {
    let auth = BasicAuth::new("john.doe".to_string(), None);
    let (name, value) = auth.as_header().expect("basic auth always yields a header");
    assert_eq!(name, "Authorization");
    assert_eq!(value, "Basic am9obi5kb2U6");
}

#[test]
fn basic_auth_with_password() {
    let auth = BasicAuth::new("username".to_string(), Some("password".to_string()));
    let (name, value) = auth.as_header().unwrap();
    assert_eq!(name, "Authorization");
    assert_eq!(value, "Basic dXNlcm5hbWU6cGFzc3dvcmQ=");
}

#[test]
fn basic_auth_exposes_credentials() {
    let auth = BasicAuth::new("john.doe".to_string(), Some("secret123".to_string()));
    assert_eq!(auth.username(), Some("john.doe".to_string()));
    assert_eq!(auth.password(), Some("secret123".to_string()));
}

#[test]
fn no_auth_yields_nothing() {
    assert!(NoAuth.username().is_none());
    assert!(NoAuth.password().is_none());
    assert!(NoAuth.as_header().is_none());
}

#[test]
fn auth_handle_dispatches() {
    let anon = AuthHandle::Anonymous(NoAuth);
    assert!(anon.as_header().is_none());
    let basic = AuthHandle::Basic(BasicAuth::new("john.doe".to_string(), None));
    let (_, value) = basic.as_header().unwrap();
    assert_eq!(value, "Basic am9obi5kb2U6");
}

#[test]
fn merge_override_wins() {
    let mut base = HeaderSet::new();
    base.insert("Content-Type".to_string(), "text/plain".to_string());
    base.insert("Accept".to_string(), "application/json".to_string());
    let mut overrides = HeaderSet::new();
    overrides.insert("Content-Type".to_string(), "application/json".to_string());
    let merged = merge_headers(&base, Some(overrides));
    assert_eq!(merged.get("Content-Type").unwrap(), "application/json");
    assert_eq!(merged.get("Accept").unwrap(), "application/json");
}

#[test]
fn merge_without_overrides_keeps_base() {
    let mut base = HeaderSet::new();
    base.insert("Accept".to_string(), "application/json".to_string());
    let merged = merge_headers(&base, None);
    assert_eq!(merged.get("Accept").unwrap(), "application/json");
    assert!(merged.get("Content-Type").is_none());
}
