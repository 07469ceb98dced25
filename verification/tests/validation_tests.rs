use captcha_helper::{validate_callback_url, validate_site_key, validate_skip_type};

#[test]
fn test_validate_callback_url_localhost() {
    assert!(validate_callback_url("http://localhost:8080/captcha?id=123").is_ok());
    assert!(validate_callback_url("https://localhost/captcha").is_ok());
}

#[test]
fn test_validate_callback_url_127_0_0_1() {
    assert!(validate_callback_url("http://127.0.0.1:8080/captcha?id=123").is_ok());
    assert!(validate_callback_url("http://127.0.0.1/captcha").is_ok());
}

#[test]
fn test_validate_callback_url_127_subnet() {
    assert!(validate_callback_url("http://127.0.1.1:8080/captcha").is_ok());
    assert!(validate_callback_url("http://127.255.255.255/captcha").is_ok());
}

#[test]
fn test_validate_callback_url_ipv6_localhost() {
    assert!(validate_callback_url("http://[::1]:8080/captcha").is_ok());
}

#[test]
fn test_validate_callback_url_rejects_external() {
    assert!(validate_callback_url("http://example.com/captcha").is_err());
    assert!(validate_callback_url("http://192.168.1.1/captcha").is_err());
    assert!(validate_callback_url("http://10.0.0.1/captcha").is_err());
}

#[test]
fn test_validate_callback_url_rejects_invalid_scheme() {
    assert!(validate_callback_url("ftp://localhost/captcha").is_err());
    assert!(validate_callback_url("file:///etc/passwd").is_err());
}

#[test]
fn test_validate_callback_url_rejects_invalid_url() {
    assert!(validate_callback_url("not a url").is_err());
    assert!(validate_callback_url("").is_err());
}

#[test]
fn test_validate_skip_type_valid() {
    assert_eq!(validate_skip_type("hoster"), "hoster");
    assert_eq!(validate_skip_type("package"), "package");
    assert_eq!(validate_skip_type("all"), "all");
    assert_eq!(validate_skip_type("single"), "single");
}

#[test]
fn test_validate_skip_type_invalid_defaults_to_single() {
    assert_eq!(validate_skip_type("invalid"), "single");
    assert_eq!(validate_skip_type(""), "single");
    assert_eq!(validate_skip_type("HOSTER"), "single"); // Case sensitive
    assert_eq!(validate_skip_type("hoster; DROP TABLE"), "single");
}

#[test]
fn test_validate_skip_type_idempotent() {
    // Normalizing twice gives what normalizing once gives, whether the input
    // was an allowed literal or not.
    for input in ["hoster", "package", "all", "single", "", "HOSTER", "garbage"] {
        let once = validate_skip_type(input);
        let twice = validate_skip_type(&once);
        assert_eq!(twice, once);
    }
}

#[test]
fn test_validate_site_key_valid() {
    assert!(validate_site_key("6Le-wvkSAAAAAPBMRTvw0Q4Muexq9bi0DJwx_mJ-").is_ok());
    assert!(validate_site_key("abc123").is_ok());
    assert!(validate_site_key("test_key-123").is_ok());
}

#[test]
fn test_validate_site_key_rejects_empty() {
    assert!(validate_site_key("").is_err());
}

#[test]
fn test_validate_site_key_rejects_too_long() {
    let long_key = "a".repeat(257);
    assert!(validate_site_key(&long_key).is_err());
}

#[test]
fn test_validate_site_key_accepts_max_length() {
    let max_key = "a".repeat(256);
    assert!(validate_site_key(&max_key).is_ok());
}

#[test]
fn test_validate_site_key_rejects_invalid_chars() {
    assert!(validate_site_key("key with spaces").is_err());
    assert!(validate_site_key("key<script>").is_err());
    assert!(validate_site_key("key'or'1'='1").is_err());
    assert!(validate_site_key("key\"onclick").is_err());
}

#[test]
fn test_validate_site_key_rejects_non_ascii() {
    assert!(validate_site_key("clé").is_err());
    assert!(validate_site_key("ключ").is_err());
}

#[test]
fn test_validate_site_key_returns_key_unchanged() {
    assert_eq!(
        validate_site_key("test_key-123").unwrap(),
        "test_key-123".to_string()
    );
}

#[test]
fn test_validate_site_key_error_messages() {
    assert_eq!(validate_site_key("").unwrap_err(), "Site key cannot be empty");
    assert_eq!(
        validate_site_key(&"a".repeat(300)).unwrap_err(),
        "Site key too long (max 256 chars)"
    );
    assert_eq!(
        validate_site_key("bad key").unwrap_err(),
        "Invalid site key format"
    );
}

#[test]
fn test_validate_callback_url_returns_url_unchanged() {
    assert_eq!(
        validate_callback_url("http://localhost:8080/captcha?id=123").unwrap(),
        "http://localhost:8080/captcha?id=123".to_string()
    );
}

#[test]
fn test_validate_callback_url_error_messages() {
    assert!(validate_callback_url("")
        .unwrap_err()
        .starts_with("Invalid URL: "));
    assert_eq!(
        validate_callback_url("ftp://localhost/x").unwrap_err(),
        "Only http/https schemes allowed"
    );
    assert_eq!(
        validate_callback_url("http://example.com/x").unwrap_err(),
        "Only localhost callbacks allowed"
    );
}
