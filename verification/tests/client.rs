use orion_cli::client::{
    api_error_message, check_status, check_text_status, connection_hint, error_hint,
    str_eq_ignore_ascii_case, OrionClient,
};

fn json(s: &str) -> serde_json::Value {
    serde_json::from_str(s).unwrap()
}

#[test]
fn base_url_loses_trailing_slashes() {
    let c = OrionClient::new("http://localhost:8080///");
    assert_eq!(c.base_url(), "http://localhost:8080");
    assert_eq!(c.url("/health"), "http://localhost:8080/health");
    let again = OrionClient::new(c.base_url());
    assert_eq!(again.base_url(), c.base_url());
}

#[test]
fn auth_header_forms() {
    let c = OrionClient::new("http://h");
    assert_eq!(c.auth_header(), None);
    let bearer = OrionClient::new("http://h").with_api_key("k1".to_string(), None);
    assert_eq!(bearer.auth_header(), Some(("Authorization".to_string(), "Bearer k1".to_string())));
    let custom = OrionClient::new("http://h").with_api_key("k2".to_string(), Some("X-Api-Key".to_string()));
    assert_eq!(custom.auth_header(), Some(("X-Api-Key".to_string(), "k2".to_string())));
    let explicit = OrionClient::new("http://h").with_api_key("k3".to_string(), Some("AUTHORIZATION".to_string()));
    assert_eq!(explicit.auth_header(), Some(("Authorization".to_string(), "Bearer k3".to_string())));
    assert!(str_eq_ignore_ascii_case("AuThOrIzAtIoN", "authorization"));
}

#[test]
fn api_error_messages() {
    let body = json(r#"{"error":{"code":"NOT_FOUND","message":"no such workflow"}}"#);
    assert_eq!(
        api_error_message(404, "404 Not Found", &body),
        "[NOT_FOUND] no such workflow\n  Hint: Verify the resource ID exists with the corresponding 'list' command"
    );
    let bare = json(r#"{"error":{}}"#);
    assert_eq!(api_error_message(500, "500 Internal Server Error", &bare), "[UNKNOWN] Unknown error");
    assert_eq!(
        api_error_message(401, "401 Unauthorized", &serde_json::Value::Null),
        "Unauthorized (401 Unauthorized)\n  Hint: Check your --api-key or ORION_API_KEY environment variable"
    );
    assert_eq!(
        api_error_message(502, "502 Bad Gateway", &serde_json::Value::Null),
        "Request failed (502 Bad Gateway)"
    );
    assert_eq!(error_hint("CONFLICT"), "\n  Hint: A resource with this ID or name may already exist");
    assert_eq!(error_hint("OTHER"), "");
}

#[test]
fn status_checks() {
    assert!(check_status(200, "200 OK", &serde_json::Value::Null).is_ok());
    assert!(check_status(299, "299", &serde_json::Value::Null).is_ok());
    assert_eq!(check_status(300, "300", &serde_json::Value::Null).unwrap_err(), "Request failed (300)");
    assert_eq!(check_text_status(503, "503 Service Unavailable", "down").unwrap_err(), "Request failed (503 Service Unavailable): down");
    assert!(connection_hint("http://x/health").starts_with("Failed to connect to http://x/health\n  Hint:"));
}

#[test]
fn api_error_details_and_request_id() {
    let body = json(
        r#"{"error":{"code":"VALIDATION_ERROR","message":"m","details":[{"path":"tasks[0].function","message":"unknown","expected":"string","got":"number"},{"message":"x","got":3}]},"request_id":"req-1"}"#,
    );
    assert_eq!(
        api_error_message(422, "422 Unprocessable Entity", &body),
        "[VALIDATION_ERROR] m\n  - tasks[0].function: unknown (expected string, got number)\n  - x (expected null, got 3)\n  Request ID: req-1\n  Hint: Check the JSON structure. Use 'orion-cli workflows validate -f <file>' to validate"
    );
    let plain = json(r#"{"error":{"code":"E","message":"n","details":[{"path":"a","message":"b"}]}}"#);
    assert_eq!(api_error_message(400, "400 Bad Request", &plain), "[E] n\n  - a: b");
}
