use captcha_helper::{dispatch_request, error_response, skip_response, skip_url, Dispatch, Request};

fn blank(action: &str) -> Request {
    Request {
        action: action.to_string(),
        site_key: None,
        site_key_type: None,
        challenge_type: None,
        callback_url: None,
        captcha_id: None,
        hoster: None,
        v3action: None,
        enterprise: None,
        site_url: None,
        site_domain: None,
        skip_type: None,
        test: None,
    }
}

#[test]
fn test_dispatch_request_builds_job() {
    let mut request = blank("captcha_new");
    request.site_key = Some("valid-key-123".to_string());
    request.callback_url = Some("http://localhost:8080/captcha".to_string());
    request.hoster = Some("TestHoster".to_string());
    match dispatch_request(request) {
        Dispatch::RunJob(job) => {
            assert_eq!(job.site_key, "valid-key-123");
            assert_eq!(job.callback_url, "http://localhost:8080/captcha");
            assert_eq!(job.hoster, Some("TestHoster".to_string()));
            assert!(!job.test);
        }
        Dispatch::Respond(r) => panic!("expected a job, got a reply: {}", r.status),
    }
}

#[test]
fn test_dispatch_request_answers_status_directly() {
    match dispatch_request(blank("status")) {
        Dispatch::Respond(r) => assert_eq!(r.status, "ok"),
        Dispatch::RunJob(_) => panic!("status never starts a job"),
    }
}

#[test]
fn test_skip_url_appends_query_parameters() {
    assert_eq!(
        skip_url("http://localhost/cb?id=1", "all"),
        "http://localhost/cb?id=1&do=skip&skiptype=all"
    );
}

#[test]
fn test_skip_response_translation() {
    let ok = skip_response("hoster", Ok("OK".to_string()));
    assert_eq!(ok.status, "ok");
    assert_eq!(ok.skip_type, Some("hoster".to_string()));
    assert!(ok.error.is_none());

    let err = skip_response("hoster", Err("connection refused".to_string()));
    assert_eq!(err.status, "error");
    assert_eq!(err.error, Some("Skip failed: connection refused".to_string()));
    assert!(err.skip_type.is_none());
}

#[test]
fn test_error_response_envelope() {
    let r = error_response("boom".to_string());
    assert_eq!(r.status, "error");
    assert_eq!(r.error, Some("boom".to_string()));
    assert!(r.token.is_none());
    assert!(r.version.is_none());
    assert!(r.skip_type.is_none());
}
