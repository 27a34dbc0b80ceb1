use roblox_client::request::{build_outbound, HttpRequest, Method};
use roblox_client::session::{
    apply_probe_outcome, probe_request, AuthError, ProbeOutcome, SessionConfig,
};

#[test]
fn probe_request_shape() {
    let req = probe_request("raw-session-cookie");
    assert_eq!(req.method, Method::Post);
    assert_eq!(req.url, "auth.roblox.com/v2/logout");
    let headers = req.headers.expect("probe carries headers");
    assert_eq!(headers.len(), 1);
    assert_eq!(headers[0].0, "Cookie");
    assert_eq!(headers[0].1, "raw-session-cookie");
    assert_eq!(req.body.as_deref(), Some(""));
}

#[test]
fn accepted_probe_authenticates() {
    let outcome = ProbeOutcome::Response { status: 200, csrf_token: Some("tok123".to_string()) };
    let config = apply_probe_outcome("raw-session-cookie", outcome).expect("accepted probe");
    assert_eq!(config.cookie.as_deref(), Some("raw-session-cookie"));
    assert_eq!(config.csrf_token.as_deref(), Some("tok123"));
    assert!(config.persist_cookies);
}

#[test]
fn forbidden_probe_still_authenticates() {
    let outcome = ProbeOutcome::Response { status: 403, csrf_token: Some("tok456".to_string()) };
    let config = apply_probe_outcome("raw-session-cookie", outcome).expect("forbidden still yields a token");
    assert_eq!(config.csrf_token.as_deref(), Some("tok456"));
}

#[test]
fn rejected_probe_is_invalid_credential() {
    for status in [301u16, 400, 401, 404, 500] {
        let outcome = ProbeOutcome::Response { status, csrf_token: Some("tok".to_string()) };
        let err = apply_probe_outcome("raw-session-cookie", outcome).unwrap_err();
        assert_eq!(err, AuthError::InvalidCredential);
    }
}

#[test]
fn missing_token_is_reported() {
    let outcome = ProbeOutcome::Response { status: 200, csrf_token: None };
    let err = apply_probe_outcome("raw-session-cookie", outcome).unwrap_err();
    assert_eq!(err, AuthError::MissingAntiForgeryToken);
}

#[test]
fn transport_failure_is_network_error() {
    let outcome = ProbeOutcome::Transport("connection refused".to_string());
    let err = apply_probe_outcome("raw-session-cookie", outcome).unwrap_err();
    assert_eq!(err, AuthError::Network("connection refused".to_string()));
}

#[test]
fn error_descriptions() {
    assert_eq!(AuthError::InvalidCredential.describe(), "Invalid cookie");
    assert_eq!(
        AuthError::MissingAntiForgeryToken.describe(),
        "Failed to fetch X-CSRF-TOKEN"
    );
    assert_eq!(
        AuthError::Network("timed out".to_string()).describe(),
        "timed out"
    );
}

#[test]
fn anonymous_dispatch_carries_no_credentials() {
    let config = SessionConfig::anonymous();
    let req = HttpRequest {
        method: Method::Get,
        url: "users.roblox.com/v1/users/1".to_string(),
        headers: None,
        body: None,
    };
    let out = build_outbound(&config, req);
    assert_eq!(out.url, "https://users.roblox.com/v1/users/1");
    assert!(out.headers.is_empty());
    assert_eq!(out.body, "");
}

#[test]
fn authenticated_dispatch_carries_both_credentials() {
    let outcome = ProbeOutcome::Response { status: 200, csrf_token: Some("tok789".to_string()) };
    let config = apply_probe_outcome("raw-session-cookie", outcome).expect("accepted probe");
    let req = HttpRequest {
        method: Method::Get,
        url: "users.roblox.com/v1/users/authenticated".to_string(),
        headers: None,
        body: None,
    };
    let out = build_outbound(&config, req);
    assert_eq!(out.headers.len(), 2);
    assert_eq!(out.headers[0].0, "Cookie");
    assert_eq!(out.headers[0].1, "raw-session-cookie");
    assert_eq!(out.headers[1].0, "X-CSRF-TOKEN");
    assert_eq!(out.headers[1].1, "tok789");
    assert!(!out.headers[1].1.is_empty());
}

#[test]
fn deauthenticate_resets_to_anonymous() {
    let outcome = ProbeOutcome::Response { status: 200, csrf_token: Some("tok".to_string()) };
    let authenticated = apply_probe_outcome("raw-session-cookie", outcome).expect("accepted probe");
    assert!(authenticated.cookie.is_some());

    let config = SessionConfig::anonymous();
    assert!(config.cookie.is_none());
    assert!(config.csrf_token.is_none());
    assert!(!config.persist_cookies);

    let req = HttpRequest {
        method: Method::Get,
        url: "users.roblox.com/v1/users/1".to_string(),
        headers: None,
        body: None,
    };
    let out = build_outbound(&config, req);
    assert!(out.headers.iter().all(|(name, _)| name != "Cookie" && name != "X-CSRF-TOKEN"));
}

#[test]
fn request_specific_headers_follow_session_headers() {
    let outcome = ProbeOutcome::Response { status: 200, csrf_token: Some("tok".to_string()) };
    let config = apply_probe_outcome("raw-session-cookie", outcome).expect("accepted probe");
    let req = HttpRequest {
        method: Method::Post,
        url: "users.roblox.com/v1/users".to_string(),
        headers: Some(vec![("Content-Type".to_string(), "application/json".to_string())]),
        body: Some("{}".to_string()),
    };
    let out = build_outbound(&config, req);
    assert_eq!(out.headers.len(), 3);
    assert_eq!(out.headers[2].0, "Content-Type");
    assert_eq!(out.headers[2].1, "application/json");
    assert_eq!(out.body, "{}");
}
