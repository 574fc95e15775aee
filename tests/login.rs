use berry_auth::login::{
    device_auth_outcome, issue_session, rejection, session_from_fields, AuthConfig, AuthError,
};
use berry_auth::records::DeviceAuthBinary;
use berry_auth::store::StoreError;

const ISSUED: &str = r#"{"device_code":"dc-1","expires_in":1800,"interval":5,"user_code":"ABCD","verification_uri":"https://example.test/activate"}"#;

#[test]
fn rejected_request_carries_description() {
    let r = device_auth_outcome(400, r#"{"error_description": "invalid scope"}"#);
    let e = r.unwrap_err();
    assert!(matches!(e, AuthError::InvalidRequest(_)));
    assert_eq!(e.message(), "invalid scope");
}

#[test]
fn rejected_request_without_description() {
    let e = device_auth_outcome(400, r#"{"status": 400}"#).unwrap_err();
    assert_eq!(e.message(), "Unknown Error");
    let e = device_auth_outcome(400, "not json").unwrap_err();
    assert_eq!(e.message(), "Unknown Error");
}

#[test]
fn unexpected_status_names_the_code() {
    let e = device_auth_outcome(403, "").unwrap_err();
    assert!(matches!(e, AuthError::UnexpectedStatus(403)));
    assert!(e.message().contains("403"));
    assert_eq!(e.message(), "Unexpected response status: 403");
    assert_eq!(AuthError::UnexpectedStatus(0).message(), "Unexpected response status: 0");
    assert_eq!(AuthError::UnexpectedStatus(65535).message(), "Unexpected response status: 65535");
}

#[test]
fn accepted_request_gives_verified_session() {
    let s = device_auth_outcome(200, ISSUED).unwrap();
    assert_eq!(s.device_code, "dc-1");
    assert_eq!(s.expires_in, 1800);
    assert_eq!(s.interval, 5);
    assert_eq!(s.user_code, "ABCD");
    assert_eq!(s.verification_uri, "https://example.test/activate");
    assert!(s.has_verified);
}

#[test]
fn accepted_request_with_missing_member() {
    let e = device_auth_outcome(200, r#"{"device_code":"dc-1","expires_in":1800}"#).unwrap_err();
    assert!(matches!(e, AuthError::Json));
    let e = device_auth_outcome(200, "").unwrap_err();
    assert!(matches!(e, AuthError::Json));
}

#[test]
fn non_positive_durations_are_rejected() {
    let r = session_from_fields(
        Some("d".to_string()),
        Some(0),
        Some(5),
        Some("u".to_string()),
        Some("v".to_string()),
    );
    assert!(matches!(r, Err(AuthError::Json)));
    let r = session_from_fields(
        Some("d".to_string()),
        Some(10),
        Some(-1),
        Some("u".to_string()),
        Some("v".to_string()),
    );
    assert!(matches!(r, Err(AuthError::Json)));
    let r = session_from_fields(
        Some("d".to_string()),
        Some(i32::MAX as i64 + 1),
        Some(5),
        Some("u".to_string()),
        Some("v".to_string()),
    );
    assert!(matches!(r, Err(AuthError::Json)));
}

#[test]
fn rejection_text() {
    assert_eq!(rejection(Some("bad client".to_string())).message(), "bad client");
    assert_eq!(rejection(None).message(), "Unknown Error");
}

#[test]
fn issued_session_reads_back_verified() {
    let (s, bytes) = issue_session(200, ISSUED).unwrap();
    assert!(s.has_verified);
    let back = DeviceAuthBinary::from_bytes(&bytes).unwrap();
    assert!(back.has_verified);
    assert_eq!(back.device_code, "dc-1");
}

#[test]
fn issue_session_passes_errors_on() {
    assert!(matches!(issue_session(500, ""), Err(AuthError::UnexpectedStatus(500))));
}

#[test]
fn scope_parameter_is_space_joined() {
    let c = AuthConfig {
        client_id: "id".to_string(),
        scopes: vec!["bits:read".to_string(), "chat:read".to_string(), "user:edit".to_string()],
    };
    assert_eq!(c.scope_param(), "bits:read chat:read user:edit");
    let one = AuthConfig { client_id: "id".to_string(), scopes: vec!["chat:read".to_string()] };
    assert_eq!(one.scope_param(), "chat:read");
    let none = AuthConfig { client_id: "id".to_string(), scopes: vec![] };
    assert_eq!(none.scope_param(), "");
}

#[test]
fn other_error_messages() {
    assert_eq!(AuthError::Json.message(), "The answer does not hold a device-authorization session");
    assert_eq!(AuthError::Transport("timed out".to_string()).message(), "timed out");
    assert_eq!(
        AuthError::Store(StoreError::PathResolution).message(),
        "Failed to determine base directories"
    );
}
