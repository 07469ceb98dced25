use captcha_helper::{handle_request, Request, VERSION};

fn empty_request(action: &str) -> Request {
    Request {
        action: action.to_string(),
        site_key: None,
        site_key_type: None,
        challenge_type: None,
        callback_url: None,
        captcha_id: None,
        hoster: None,
        v3action: None,
        enterprise: None,
        site_url: None,
        site_domain: None,
        skip_type: None,
        test: None,
    }
}

#[test]
fn test_handle_request_status() {
    let request = empty_request("status");
    let response = handle_request(request);
    assert_eq!(response.status, "ok");
    assert_eq!(response.version, Some(VERSION.to_string()));
}

#[test]
fn test_handle_request_unknown_action() {
    let request = empty_request("unknown");
    let response = handle_request(request);
    assert_eq!(response.status, "error");
    assert!(response.error.unwrap().contains("Unknown action"));
}

#[test]
fn test_handle_request_captcha_new_invalid_site_key() {
    let mut request = empty_request("captcha_new");
    request.site_key = Some("".to_string());
    request.callback_url = Some("http://localhost:8080/captcha".to_string());
    let response = handle_request(request);
    assert_eq!(response.status, "error");
    assert!(response.error.unwrap().contains("Site key"));
}

#[test]
fn test_handle_request_captcha_new_invalid_callback_url() {
    let mut request = empty_request("captcha_new");
    request.site_key = Some("valid-key-123".to_string());
    request.callback_url = Some("http://evil.com/captcha".to_string());
    let response = handle_request(request);
    assert_eq!(response.status, "error");
    assert!(response.error.unwrap().contains("localhost"));
}

#[test]
fn test_handle_request_skip_invalid_url() {
    let mut request = empty_request("skip");
    request.callback_url = Some("http://evil.com/captcha".to_string());
    request.skip_type = Some("hoster".to_string());
    let response = handle_request(request);
    assert_eq!(response.status, "error");
}

#[test]
fn test_handle_request_cancel_invalid_url() {
    let mut request = empty_request("cancel");
    request.callback_url = Some("http://evil.com/captcha".to_string());
    let response = handle_request(request);
    assert_eq!(response.status, "error");
}

#[test]
fn test_handle_request_captcha_new_reports_site_key_first() {
    // Both fields invalid: the site-key failure is the one reported.
    let mut request = empty_request("captcha_new");
    request.site_key = Some("bad key!".to_string());
    request.callback_url = Some("http://evil.com/captcha".to_string());
    let response = handle_request(request);
    assert_eq!(response.status, "error");
    assert_eq!(response.error.unwrap(), "Invalid site key format");
}

#[test]
fn test_handle_request_unknown_action_includes_action() {
    let request = empty_request("frobnicate");
    let response = handle_request(request);
    assert_eq!(response.status, "error");
    assert_eq!(response.error.unwrap(), "Unknown action: frobnicate");
    assert!(response.token.is_none());
    assert!(response.version.is_none());
    assert!(response.skip_type.is_none());
}

#[test]
fn test_handle_request_captcha_new_valid_has_no_presenter() {
    // A fully valid challenge request reaches the job runner, whose
    // presenter cannot start in this build: the job is never started.
    let mut request = empty_request("captcha_new");
    request.site_key = Some("valid-key-123".to_string());
    request.callback_url = Some("http://localhost:8080/captcha".to_string());
    let response = handle_request(request);
    assert_eq!(response.status, "error");
    assert_eq!(
        response.error.unwrap(),
        "CAPTCHA solving only supported on Windows"
    );
}
