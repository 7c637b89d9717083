use campus_lms_cli::cli::{ensure_cache_flags, ensure_days, ensure_max_items, ensure_profile_name, normalize_course_filter};
use campus_lms_cli::config::validate_timezone;
use campus_lms_cli::error::CampusError;
use campus_lms_cli::keychain::{backend_name, legacy_service_name};
use campus_lms_cli::output::error_response;

#[test]
fn with_json_keeps_code_and_exit_code() {
    let e = CampusError::RateLimited { json: false };
    let code = e.code();
    let exit = e.exit_code();
    let j = e.with_json(true);
    assert!(j.json_requested());
    assert_eq!(j.code(), code);
    assert_eq!(j.exit_code(), exit);
    assert_eq!(exit, 13);
}

#[test]
fn each_error_kind_has_its_exit_code() {
    assert_eq!(CampusError::invalid_argument("x", None).exit_code(), 2);
    assert_eq!(CampusError::AuthRequired { json: false }.exit_code(), 10);
    assert_eq!(CampusError::NotFound { message: "x".to_string(), json: false }.exit_code(), 40);
    assert_eq!(CampusError::Unknown { message: "x".to_string(), json: false }.exit_code(), 1);
    assert!(!CampusError::cache("x").retryable());
    assert!(!CampusError::config("x").retryable());
    assert_eq!(CampusError::config("x").hint(), Some("Check campus-lms config.toml or run auth login again."));
    assert_eq!(CampusError::AuthExpired { json: false }.next_steps().len(), 3);
}

#[test]
fn error_document_carries_code_hint_and_steps() {
    let e = CampusError::keychain("locked");
    let doc = error_response(&e);
    assert_eq!(doc.schema_version, "campus-lms.error.v1");
    assert_eq!(doc.error.code, "KEYCHAIN_UNAVAILABLE");
    assert_eq!(doc.error.message, "keychain unavailable: locked");
    assert!(!doc.error.retryable);
    assert_eq!(doc.error.next_steps.len(), 3);
}

#[test]
fn argument_checks() {
    assert!(ensure_cache_flags(true, true).is_err());
    assert!(ensure_cache_flags(true, false).is_ok());
    assert!(ensure_days(0).is_err());
    assert!(ensure_days(365).is_ok());
    assert!(ensure_days(366).is_err());
    assert!(ensure_max_items(Some(0)).is_err());
    assert!(ensure_max_items(Some(501)).is_err());
    assert!(ensure_max_items(None).is_ok());
    assert!(ensure_profile_name("my-university.2").is_ok());
    assert!(ensure_profile_name("bad name").is_err());
    assert!(ensure_profile_name("").is_err());
    assert_eq!(normalize_course_filter("123").unwrap(), ("course:123".to_string(), 123));
    assert_eq!(normalize_course_filter("course:7").unwrap().1, 7);
    assert!(normalize_course_filter("course:x").is_err());
    assert!(validate_timezone("UTC").is_ok());
    assert!(validate_timezone("Europe/Paris").is_err());
}

#[test]
fn credential_service_names() {
    assert_eq!(legacy_service_name("https://lms.example/moodle//"), "campus-lms:https://lms.example/moodle");
    assert_eq!(backend_name("windows", false), "windows-native");
    assert_eq!(backend_name("macos", true), "apple-native");
    assert_eq!(backend_name("linux", true), "linux-native-sync-persistent");
    assert_eq!(backend_name("wasi", false), "unknown");
}

#[test]
fn generated_at_is_an_rfc3339_utc_time() {
    let t = campus_lms_cli::output::generated_at();
    let b: Vec<char> = t.chars().collect();
    assert!(b.len() >= 20 && b.len() <= 30);
    assert_eq!((b[4], b[7], b[10], b[13], b[16]), ('-', '-', 'T', ':', ':'));
    assert_eq!(*b.last().unwrap(), 'Z');
    assert!(t.starts_with("20"));
}
