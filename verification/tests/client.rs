use campus_lms_cli::moodle::client::{
    body_parse_error, classify_moodle_exception, http_failure, rest_endpoint, rest_failure,
    token_http_failure, whoami_output,
};
use campus_lms_cli::moodle::models::{MoodleException, SiteInfo};
use campus_lms_cli::moodle::params::{flatten_params, object, ParamValue};
use campus_lms_cli::error::CampusError;

fn exception(code: Option<&str>, message: Option<&str>) -> MoodleException {
    MoodleException {
        exception: Some("moodle_exception".to_string()),
        errorcode: code.map(|c| c.to_string()),
        message: message.map(|m| m.to_string()),
    }
}

#[test]
fn flattens_moodle_array_params() {
    let params = ParamValue::Object(vec![
        (
            "courseids".to_string(),
            ParamValue::Array(vec![ParamValue::Number(101), ParamValue::Number(102)]),
        ),
        (
            "options".to_string(),
            ParamValue::Object(vec![(
                "ids".to_string(),
                ParamValue::Array(vec![ParamValue::Number(7)]),
            )]),
        ),
    ]);
    let flattened = flatten_params(&params);
    assert!(flattened.contains(&("courseids[0]".to_string(), "101".to_string())));
    assert!(flattened.contains(&("courseids[1]".to_string(), "102".to_string())));
    assert!(flattened.contains(&("options[ids][0]".to_string(), "7".to_string())));
}

#[test]
fn flatten_encodes_scalars_and_skips_null() {
    let params = ParamValue::Object(vec![
        ("a".to_string(), ParamValue::Bool(true)),
        ("b".to_string(), ParamValue::Bool(false)),
        ("c".to_string(), ParamValue::Null),
        ("d".to_string(), ParamValue::Text("x y".to_string())),
        ("e".to_string(), ParamValue::Number(-3)),
    ]);
    let flattened = flatten_params(&params);
    assert_eq!(
        flattened,
        vec![
            ("a".to_string(), "1".to_string()),
            ("b".to_string(), "0".to_string()),
            ("d".to_string(), "x y".to_string()),
            ("e".to_string(), "-3".to_string()),
        ]
    );
    assert!(flatten_params(&ParamValue::Number(1)).is_empty());
}

#[test]
fn moodle_exceptions_are_classified_by_code() {
    assert!(matches!(classify_moodle_exception(exception(Some("invalidtoken"), None)), CampusError::AuthExpired { json: false }));
    assert!(matches!(classify_moodle_exception(exception(Some("nopermission"), None)), CampusError::PermissionDenied { .. }));
    assert!(matches!(classify_moodle_exception(exception(Some("accessexception"), None)), CampusError::PermissionDenied { .. }));
    let e = classify_moodle_exception(exception(Some("servicenotavailable"), Some("Web service is not available")));
    assert_eq!(e.code(), "UNSUPPORTED_MOODLE_FEATURE");
    assert_eq!(e.display_text(), "unsupported Moodle feature: Web service is not available");
    let e = classify_moodle_exception(exception(Some("invalidparameter"), None));
    assert_eq!(e.display_text(), "Moodle API error: invalidparameter");
    let e = classify_moodle_exception(exception(None, None));
    assert_eq!(e.display_text(), "Moodle API error: Moodle API returned an error");
}

#[test]
fn http_statuses_map_to_errors() {
    assert!(matches!(http_failure(401, "401 Unauthorized", "x", true), CampusError::AuthExpired { json: true }));
    assert!(matches!(http_failure(403, "403 Forbidden", "x", false), CampusError::PermissionDenied { .. }));
    assert!(matches!(http_failure(429, "429 Too Many Requests", "x", false), CampusError::RateLimited { .. }));
    let e = token_http_failure(500, "500 Internal Server Error", false);
    assert_eq!(e.display_text(), "network error: token endpoint returned HTTP 500 Internal Server Error");
    assert!(e.retryable());
}

#[test]
fn rest_answers_are_checked_before_parsing() {
    let e = rest_failure(503, "503 Service Unavailable", None).unwrap();
    assert_eq!(e.display_text(), "network error: Moodle REST returned HTTP 503 Service Unavailable");
    assert!(rest_failure(200, "200 OK", None).is_none());
    let e = rest_failure(200, "200 OK", Some(exception(Some("invalidtoken"), None))).unwrap();
    assert_eq!(e.code(), "AUTH_EXPIRED");
    let quiet = MoodleException { exception: None, errorcode: None, message: Some("x".to_string()) };
    assert!(rest_failure(200, "200 OK", Some(quiet)).is_none());
    let e = body_parse_error("expected value");
    assert_eq!(e.display_text(), "parse error: expected value; Moodle response body could not be parsed as expected JSON");
}

#[test]
fn rest_endpoint_is_below_the_base_url() {
    assert_eq!(
        rest_endpoint("https://example.ac.jp/moodle/").unwrap(),
        "https://example.ac.jp/moodle/webservice/rest/server.php"
    );
    let err = rest_endpoint("nope").unwrap_err();
    assert!(err.display_text().starts_with("invalid argument: invalid REST endpoint: "));
}

#[test]
fn whoami_names_the_user() {
    let site = SiteInfo {
        userid: 12,
        username: "student".to_string(),
        fullname: Some("A Student".to_string()),
        sitename: Some("LMS".to_string()),
        siteurl: None,
        downloadfiles: None,
        uploadfiles: None,
        functions: Vec::new(),
    };
    let out = whoami_output(site, "now".to_string());
    assert_eq!(out.schema_version, "campus-lms.whoami.v1");
    assert_eq!(out.user.id, "user:12");
    assert_eq!(out.user.site_name.as_deref(), Some("LMS"));
}

#[test]
fn object_members_are_one_per_key_in_key_order() {
    let v = object(vec![
        ("userid".to_string(), ParamValue::Number(5)),
        ("returnusercount".to_string(), ParamValue::Bool(false)),
        ("userid".to_string(), ParamValue::Number(7)),
    ]);
    let fields = flatten_params(&v);
    assert_eq!(
        fields,
        vec![("returnusercount".to_string(), "0".to_string()), ("userid".to_string(), "7".to_string())]
    );
}
