use xfbridge::error::transport_result;
use xfbridge::models::auth::{AuthFromSessionError, AuthFromSessionResponse, User};
use xfbridge::{BridgeError, XfBridge};

#[test]
fn endpoint_addresses_append_paths() {
    let bridge = XfBridge::new("https://forum.example", "key", None);
    assert_eq!(bridge.stats_url(), "https://forum.example/api/stats");
    assert_eq!(bridge.auth_url(), "https://forum.example/api/auth");
    assert_eq!(
        bridge.session_auth_url(),
        "https://forum.example/api/auth/from-session"
    );
}

#[test]
fn base_url_is_not_normalised() {
    let bridge = XfBridge::new("https://forum.example/", "key", None);
    assert_eq!(bridge.stats_url(), "https://forum.example//api/stats");
}

#[test]
fn headers_carry_agent_key_and_content_type() {
    let bridge = XfBridge::new("https://forum.example", "secret-key", None);
    let headers = bridge.default_headers().unwrap();
    assert_eq!(headers.len(), 3);
    assert_eq!(headers.get("user-agent").unwrap(), "xfbridge");
    assert_eq!(headers.get("XF-Api-Key").unwrap(), "secret-key");
    assert_eq!(
        headers.get("content-type").unwrap(),
        "application/x-www-form-urlencoded"
    );
}

#[test]
fn super_user_header_present_when_configured() {
    let bridge = XfBridge::new("https://forum.example", "key", Some(7));
    let headers = bridge.default_headers().unwrap();
    assert_eq!(headers.len(), 4);
    assert_eq!(headers.get("XF-Api-User").unwrap(), "7");
}

#[test]
fn super_user_header_negative_id() {
    let bridge = XfBridge::new("https://forum.example", "key", Some(-12));
    let headers = bridge.default_headers().unwrap();
    assert_eq!(headers.get("xf-api-user").unwrap(), "-12");
}

#[test]
fn super_user_header_absent_when_unset() {
    let bridge = XfBridge::new("https://forum.example", "key", None);
    let headers = bridge.default_headers().unwrap();
    assert!(headers.get("xf-api-user").is_none());
    assert!(!headers.contains_key("XF-Api-User"));
}

#[test]
fn control_character_in_key_is_header_encoding_error() {
    let bridge = XfBridge::new("https://forum.example", "bad\nkey", None);
    assert_eq!(bridge.default_headers().unwrap_err(), BridgeError::HeaderEncoding);
    assert_eq!(bridge.build_client().unwrap_err(), BridgeError::HeaderEncoding);
}

#[test]
fn non_ascii_and_tab_in_key_are_accepted() {
    let bridge = XfBridge::new("https://forum.example", "k\tey-\u{e9}", None);
    assert!(bridge.default_headers().is_ok());
}

#[test]
fn building_a_client_needs_no_server() {
    // Nothing listens on this address; building must still succeed.
    let bridge = XfBridge::new("http://127.0.0.1:9", "key", Some(3));
    assert!(bridge.build_client().is_ok());
}

#[test]
fn password_login_body_is_url_encoded() {
    let body = XfBridge::password_login_body("alice", "p&ss word");
    assert_eq!(body, "login=alice&password=p%26ss+word");
}

#[test]
fn session_login_body_is_url_encoded() {
    let body = XfBridge::session_login_body("ab=cd");
    assert_eq!(body, "session_id=ab%3Dcd");
}

#[test]
fn login_bodies_escape_reserved_characters() {
    assert_eq!(
        XfBridge::password_login_body("a b&c", "p=1"),
        "login=a+b%26c&password=p%3D1"
    );
    assert_eq!(XfBridge::password_login_body("", ""), "login=&password=");
    assert_eq!(XfBridge::session_login_body("abc+/="), "session_id=abc%2B%2F%3D");
}

#[test]
fn session_answer_without_user_is_invalid_session() {
    let answer = AuthFromSessionResponse { user: None };
    assert_eq!(
        answer.into_user().unwrap_err(),
        BridgeError::Session(AuthFromSessionError::InvalidSession)
    );
}

#[test]
fn session_answer_with_user_returns_it() {
    let answer = AuthFromSessionResponse {
        user: Some(User {
            user_id: 1,
            username: "alice".to_string(),
        }),
    };
    let user = answer.into_user().unwrap();
    assert_eq!(user.user_id, 1);
    assert_eq!(user.username, "alice");
}

#[test]
fn transport_failure_is_transport_error() {
    let err = reqwest::Client::new().get("not a url").build().unwrap_err();
    let r: Result<u32, BridgeError> = transport_result(Err(err));
    assert_eq!(r.unwrap_err(), BridgeError::Transport);
    let ok: Result<u32, BridgeError> = transport_result(Ok(5));
    assert_eq!(ok.unwrap(), 5);
}
