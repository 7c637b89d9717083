use campus_lms_cli::auth::{
    auth_next_steps, auth_status_report, auth_verify_report, check_import_inputs,
    check_login_inputs, check_secret_sources, check_secret_value, endpoint_url, live_check,
    normalize_base_url, strip_line_end, token_endpoint, token_outcome,
};
use campus_lms_cli::config::Profile;
use campus_lms_cli::error::CampusError;

fn profile() -> Profile {
    Profile {
        base_url: "https://example.ac.jp/moodle/".to_string(),
        username: "student".to_string(),
        service: "moodle_mobile_app".to_string(),
        cache_ttl_seconds: 300,
        cache_retention_seconds: 86400,
    }
}

#[test]
fn preserves_subdirectory_base_url_without_trailing_slash() {
    let url = normalize_base_url("https://example.ac.jp/moodle", false).unwrap();
    assert_eq!(
        endpoint_url(&url, "webservice/rest/server.php").unwrap(),
        "https://example.ac.jp/moodle/webservice/rest/server.php"
    );
}

#[test]
fn removes_query_fragment_and_rejects_credentials() {
    let url = normalize_base_url("https://example.ac.jp/lms?x=1#top", false).unwrap();
    assert_eq!(url, "https://example.ac.jp/lms/");
    assert!(normalize_base_url("https://user@example.ac.jp/lms", false).is_err());
}

#[test]
fn base_url_requires_https_except_local_development() {
    let err = normalize_base_url("http://example.ac.jp/", false).unwrap_err();
    assert_eq!(err.code(), "INVALID_ARGUMENT");
    assert_eq!(err.display_text(), "invalid argument: auth login requires HTTPS base_url.");
    assert_eq!(
        normalize_base_url("http://localhost:8080/moodle", true).unwrap(),
        "http://localhost:8080/moodle/"
    );
    assert!(normalize_base_url("http://localhost:8080/moodle", false).is_err());
    assert_eq!(normalize_base_url("https://example.ac.jp", false).unwrap(), "https://example.ac.jp/");
}

#[test]
fn unparsable_base_url_reports_the_parse_error() {
    let err = normalize_base_url("not a url", false).unwrap_err();
    match err {
        CampusError::InvalidArgument { message, hint, .. } => {
            assert!(message.starts_with("invalid base URL: "));
            assert_eq!(hint.as_deref(), Some("Use a full URL such as https://lms.example.ac.jp/moodle/"));
        }
        other => panic!("unexpected error {other:?}"),
    }
}

#[test]
fn token_endpoint_is_below_the_base_url() {
    assert_eq!(
        token_endpoint("https://example.ac.jp/moodle/").unwrap(),
        "https://example.ac.jp/moodle/login/token.php"
    );
}

#[test]
fn next_steps_follow_the_first_failed_check() {
    assert_eq!(auth_next_steps(false, false, None).len(), 2);
    assert_eq!(auth_next_steps(true, false, None)[0], "Run: campus-lms auth verify --json");
    assert_eq!(auth_next_steps(true, true, Some(false)).len(), 3);
    assert_eq!(
        auth_next_steps(true, true, Some(true)),
        vec!["Run: campus-lms doctor --json", "Run: campus-lms ai snapshot --days 14 --json"]
    );
}

#[test]
fn live_check_words() {
    assert_eq!(live_check("verified"), "ok");
    assert_eq!(live_check("failed"), "failed");
    assert_eq!(live_check("not_checked"), "not_checked");
    assert_eq!(live_check("not_requested"), "not_run");
}

#[test]
fn json_login_needs_non_interactive_inputs() {
    assert!(check_login_inputs(false, false, false, false, false).is_ok());
    let err = check_login_inputs(true, true, false, true, false).unwrap_err();
    assert!(err.json_requested());
    assert_eq!(err.display_text(), "invalid argument: auth login --json requires --base-url and --username.");
    let err = check_login_inputs(true, true, true, false, false).unwrap_err();
    assert_eq!(err.display_text(), "invalid argument: auth login --json requires --password-stdin or --password-env.");
    assert!(check_login_inputs(true, true, true, false, true).is_ok());
    assert!(check_import_inputs(true, false, false).is_err());
    assert!(check_import_inputs(true, true, false).is_ok());
}

#[test]
fn secrets_come_from_one_source_and_are_not_empty() {
    let err = check_secret_sources(true, true, "password", false).unwrap_err();
    assert_eq!(err.display_text(), "invalid argument: use only one of --password-stdin or --password-env");
    assert!(check_secret_sources(true, false, "password", false).is_ok());
    let err = check_secret_value("", "token", true).unwrap_err();
    assert_eq!(err.display_text(), "invalid argument: token must not be empty");
    assert!(err.json_requested());
    assert_eq!(strip_line_end("secret\r\n\n"), "secret");
    assert_eq!(strip_line_end("a\nb"), "a\nb");
}

#[test]
fn token_answer_gives_token_or_moodle_error() {
    assert_eq!(token_outcome(Some("t".to_string()), None, None, false).unwrap(), "t");
    let err = token_outcome(None, None, Some("invalidlogin".to_string()), true).unwrap_err();
    assert_eq!(err.code(), "MOODLE_API_ERROR");
    assert_eq!(err.display_text(), "Moodle API error: invalidlogin");
    let err = token_outcome(None, None, None, false).unwrap_err();
    assert_eq!(err.display_text(), "Moodle API error: login failed without a Moodle error message");
}

#[test]
fn status_without_profile_is_not_authenticated() {
    let out = auth_status_report(
        "default".to_string(),
        "default".to_string(),
        None,
        None,
        "unknown",
        true,
        &None,
        &None,
        "2026-05-08T00:00:00Z".to_string(),
    );
    assert!(!out.authenticated);
    assert_eq!(out.warnings.len(), 1);
    assert_eq!(out.warnings[0].code, "PROFILE_UNAVAILABLE");
    assert_eq!(out.live_status, "not_checked");
    assert_eq!(out.live_check, "not_checked");
    assert_eq!(out.live_ok, None);
    assert_eq!(out.next_steps[0], "Run: campus-lms auth login");
}

#[test]
fn status_with_failed_live_check_reports_the_error() {
    let p = profile();
    let out = auth_status_report(
        "default".to_string(),
        "default".to_string(),
        Some("/tmp/config.toml".to_string()),
        Some(&p),
        "apple-native",
        true,
        &Some(Ok(())),
        &Some(Err(CampusError::AuthExpired { json: false })),
        "now".to_string(),
    );
    assert!(!out.authenticated);
    assert!(out.token_readable);
    assert_eq!(out.live_ok, Some(false));
    assert_eq!(out.live_status, "failed");
    assert_eq!(out.warnings.len(), 1);
    assert_eq!(out.warnings[0].code, "AUTH_EXPIRED");
    let target = out.credential_target.unwrap();
    assert_eq!(target.service, "campus-lms:https://example.ac.jp/moodle:moodle_mobile_app");
    assert_eq!(target.account, "student");
    assert_eq!(target.backend, "apple-native");
}

#[test]
fn status_with_readable_token_and_no_live_check_is_authenticated() {
    let p = profile();
    let out = auth_status_report(
        "default".to_string(),
        "default".to_string(),
        None,
        Some(&p),
        "unknown",
        false,
        &Some(Ok(())),
        &None,
        "now".to_string(),
    );
    assert!(out.authenticated);
    assert_eq!(out.live_status, "not_requested");
    assert_eq!(out.live_check, "not_run");
    assert!(out.warnings.is_empty());
}

#[test]
fn status_distinguishes_missing_token_from_backend_failure() {
    let p = profile();
    let missing = auth_status_report(
        "p".to_string(), "p".to_string(), None, Some(&p), "unknown", false,
        &Some(Err(CampusError::AuthRequired { json: false })), &None, "now".to_string(),
    );
    assert_eq!(missing.warnings[0].code, "TOKEN_UNAVAILABLE");
    let broken = auth_status_report(
        "p".to_string(), "p".to_string(), None, Some(&p), "unknown", false,
        &Some(Err(CampusError::Keychain { message: "locked".to_string(), json: false })), &None, "now".to_string(),
    );
    assert_eq!(broken.warnings[0].code, "KEYCHAIN_UNAVAILABLE");
    assert_eq!(broken.warnings[0].message, "keychain unavailable: locked");
}

#[test]
fn verify_reports_roundtrip_then_token_then_live_warnings() {
    let p = profile();
    let out = auth_verify_report(
        "p".to_string(),
        "p".to_string(),
        None,
        Some(&p),
        "unknown",
        true,
        &Some(Err(CampusError::Keychain { message: "no store".to_string(), json: false })),
        &Some(Err(CampusError::AuthRequired { json: false })),
        &None,
        "now".to_string(),
    );
    assert!(out.profile_configured);
    assert!(!out.backend_roundtrip_ok);
    assert!(!out.credential_backend_ok);
    assert_eq!(out.warnings.len(), 2);
    assert_eq!(out.warnings[0].code, "KEYCHAIN_ROUNDTRIP_FAILED");
    assert_eq!(out.warnings[1].code, "TOKEN_UNAVAILABLE");
    assert_eq!(out.live_ok, Some(false));
    assert_eq!(out.live_status, "not_checked");
}

#[test]
fn normalized_base_urls_normalize_to_themselves() {
    for raw in ["https://example.ac.jp/moodle?x=1#y", "https://example.ac.jp", "http://127.0.0.1/m"] {
        let once = normalize_base_url(raw, true).unwrap();
        assert_eq!(normalize_base_url(&once, true).unwrap(), once);
        assert!(!once.contains('?') && !once.contains('#') && once.ends_with('/'));
    }
    assert!(normalize_base_url("https://:pw@example.ac.jp/", false).is_err());
}
