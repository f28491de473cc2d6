use ha_bridge::errors::ServiceError;
use ha_bridge::url_norm::{parse_with_ws_scheme, validate_url};

fn url(u: &str) -> Result<String, ServiceError> {
    match url::Url::parse(u) {
        Ok(parsed) => Ok(parsed.as_str().to_string()),
        Err(e) => panic!("valid URL required! {e}"),
    }
}

#[test]
fn empty_address_returns_error() {
    let result = validate_url(None);
    assert!(matches!(result, Err(ServiceError::BadRequest(_))));
    let result = validate_url(Some(""));
    assert!(matches!(result, Err(ServiceError::BadRequest(_))));
    let result = validate_url(Some("  "));
    assert!(matches!(result, Err(ServiceError::BadRequest(_))));
}

#[test]
fn host_only() {
    assert_eq!(url("ws://test/"), validate_url(Some("test")));
}

#[test]
fn valid_address_returns_url() {
    assert_eq!(
        url("ws://homeassistant.local:8123/api/websocket"),
        validate_url(Some("ws://homeassistant.local:8123/api/websocket"))
    );
}

#[test]
fn address_with_spaces_are_trimmed() {
    assert_eq!(url("ws://test/"), validate_url(Some("  test   ")));
    assert_eq!(
        url("ws://homeassistant.local:8123/api/websocket"),
        validate_url(Some("  ws://homeassistant.local:8123/api/websocket   "))
    );
}

#[test]
fn host_only_with_port() {
    assert_eq!(url("ws://test:8123/"), validate_url(Some("test:8123")));
}

#[test]
fn ip_address_only() {
    assert_eq!(url("ws://127.0.0.1/"), validate_url(Some("127.0.0.1")));
}

#[test]
fn ip_address_only_with_port() {
    assert_eq!(url("ws://127.0.0.1:123/"), validate_url(Some("127.0.0.1:123")));
}

#[test]
fn add_scheme_if_missing() {
    assert_eq!(url("ws://test:123/foo"), validate_url(Some("test:123/foo")));
}

#[test]
fn force_ws_scheme_from_http() {
    assert_eq!(url("ws://test/"), validate_url(Some("http://test")));
    assert_eq!(url("wss://test/"), validate_url(Some("https://test")));
    assert_eq!(url("ws://test/"), validate_url(Some("HTTP://test")));
    assert_eq!(url("wss://test/"), validate_url(Some("HTTPS://test")));
}

#[test]
fn invalid_scheme_returns_error() {
    let result = validate_url(Some("foo://test"));
    assert!(matches!(result, Err(ServiceError::BadRequest(_))));
}

#[test]
fn normalization_is_idempotent() {
    for input in ["test", "test:8123", "HTTPS://homeassistant.local:8123/api/websocket",
        "http://test", " ws://x.example/path?q=1 "] {
        let once = validate_url(Some(input)).expect("accepted input");
        let twice = validate_url(Some(once.as_str())).expect("accepted output");
        assert_eq!(once, twice);
    }
}

#[test]
fn ws_scheme_prefix_parses_host() {
    assert_eq!(url("ws://test/"), parse_with_ws_scheme("test"));
    assert!(matches!(parse_with_ws_scheme(""), Err(ServiceError::BadRequest(_))));
}
