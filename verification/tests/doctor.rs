use campus_lms_cli::config::Profile;
use campus_lms_cli::doctor::{required_function_names, run as doctor_report};
use campus_lms_cli::error::CampusError;
use campus_lms_cli::moodle::models::{SiteInfo, WebServiceFunction};

fn profile() -> Profile {
    Profile {
        base_url: "https://lms.example/".to_string(),
        username: "student".to_string(),
        service: "moodle_mobile_app".to_string(),
        cache_ttl_seconds: 300,
        cache_retention_seconds: 86400,
    }
}

fn site(functions: &[&str]) -> SiteInfo {
    SiteInfo {
        userid: 3,
        username: "student".to_string(),
        fullname: None,
        sitename: None,
        siteurl: None,
        downloadfiles: None,
        uploadfiles: None,
        functions: functions
            .iter()
            .map(|n| WebServiceFunction { name: n.to_string(), version: None })
            .collect(),
    }
}

#[test]
fn doctor_without_profile_requires_auth() {
    let out = doctor_report("default".to_string(), "default".to_string(), None, None, "unknown", false, &None, "now".to_string());
    assert!(!out.authenticated);
    assert_eq!(out.checks.len(), 1);
    assert!(!out.checks[0].ok);
    assert_eq!(out.missing_functions.len(), 5);
    assert_eq!(out.warnings[0].code, "AUTH_REQUIRED");
    assert_eq!(out.schema_version, "campus-lms.doctor.v1");
}

#[test]
fn doctor_without_token_stops_after_token_check() {
    let p = profile();
    let out = doctor_report("school".to_string(), "school".to_string(), None, Some(&p), "unknown", false, &None, "now".to_string());
    assert_eq!(out.checks.len(), 2);
    assert_eq!(out.checks[0].detail, "Profile school is configured.");
    assert_eq!(out.checks[1].name, "token");
    assert_eq!(out.warnings[0].code, "TOKEN_UNAVAILABLE");
    assert_eq!(out.base_url.as_deref(), Some("https://lms.example/"));
}

#[test]
fn doctor_reports_site_failure() {
    let p = profile();
    let out = doctor_report("p".to_string(), "p".to_string(), None, Some(&p), "unknown", true,
        &Some(Err(CampusError::Network { message: "timeout".to_string(), json: false })), "now".to_string());
    assert_eq!(out.checks.len(), 3);
    assert_eq!(out.checks[2].detail, "network error: timeout");
    assert_eq!(out.warnings[0].code, "SITE_INFO_UNAVAILABLE");
    assert!(!out.authenticated);
    assert_eq!(out.unchecked_functions.len(), 5);
}

#[test]
fn doctor_lists_missing_functions_in_order() {
    let p = profile();
    let s = site(&["core_webservice_get_site_info", "mod_assign_get_assignments"]);
    let out = doctor_report("p".to_string(), "p".to_string(), None, Some(&p), "unknown", true, &Some(Ok(s)), "now".to_string());
    assert!(out.authenticated);
    assert_eq!(out.checks.len(), 8);
    assert_eq!(out.checks[2].detail, "Connected as student on Moodle.");
    assert_eq!(
        out.missing_functions,
        vec![
            "core_enrol_get_users_courses",
            "mod_assign_get_submission_status",
            "core_calendar_get_action_events_by_timesort",
        ]
    );
    assert_eq!(out.warnings[0].code, "MOODLE_FUNCTIONS_MISSING");
    assert!(out.unchecked_functions.is_empty());
    for (i, name) in required_function_names().iter().enumerate() {
        assert_eq!(out.checks[3 + i].name, *name);
        assert_eq!(out.checks[3 + i].ok, !out.missing_functions.iter().any(|m| m == name));
    }
}

#[test]
fn doctor_with_all_functions_has_no_warning() {
    let p = profile();
    let names = required_function_names();
    let s = site(&names);
    let out = doctor_report("p".to_string(), "p".to_string(), None, Some(&p), "unknown", true, &Some(Ok(s)), "now".to_string());
    assert!(out.missing_functions.is_empty());
    assert!(out.warnings.is_empty());
    assert_eq!(out.next_steps[1], "Run: campus-lms ai snapshot --days 14 --json");
}
