use campus_lms_cli::dto::{normalize_warning_code, stable_warning_code, warning_report, warning_report_with_limit, Warning};
use campus_lms_cli::moodle::models::MoodleWarning;

#[test]
fn moodle_warning_code_is_schema_safe() {
    assert_eq!(normalize_warning_code(Some("course-not-visible")), "COURSE_NOT_VISIBLE");
    assert_eq!(normalize_warning_code(Some("  ")), "MOODLE_WARNING");
}

#[test]
fn warning_report_aggregates_repeated_warnings() {
    let warnings = vec![
        Warning::new("NO_ACCESS", "No access rights in module context", None),
        Warning::new("NO_ACCESS", "No access rights in module context", None),
        Warning::new("OTHER", "Different", Some("Check permissions".to_string())),
    ];
    let report = warning_report(warnings);
    assert_eq!(report.summary.len(), 2);
    assert!(report.summary.iter().any(|item| item.code == "NO_ACCESS"
        && item.count == 2
        && item.message == "No access rights in module context"));
    assert_eq!(report.details.len(), 3);
    assert_eq!(report.total_count, 3);
    assert_eq!(report.returned_count, 3);
    assert!(!report.details_truncated);
}

#[test]
fn warning_report_limits_detail_rows() {
    let warnings: Vec<Warning> = (0..8)
        .map(|i| Warning::new("W", &format!("message {i}"), None))
        .collect();
    let report = warning_report(warnings);
    assert_eq!(report.total_count, 8);
    assert_eq!(report.returned_count, 5);
    assert_eq!(report.details.len(), 5);
    assert!(report.details_truncated);
    assert_eq!(report.summary.len(), 8);
    assert_eq!(report.details[0].message, "message 0");
}

#[test]
fn warning_report_without_limit_keeps_all_details() {
    let warnings: Vec<Warning> = (0..8)
        .map(|i| Warning::new("W", &format!("message {i}"), None))
        .collect();
    let report = warning_report_with_limit(warnings, None);
    assert_eq!(report.returned_count, 8);
    assert!(!report.details_truncated);
}

#[test]
fn warning_summary_is_sorted_by_code() {
    let warnings = vec![
        Warning::new("ZETA", "z", None),
        Warning::new("ALPHA", "a", None),
        Warning::new("ZETA", "z", None),
    ];
    let report = warning_report(warnings);
    assert_eq!(report.summary[0].code, "ALPHA");
    assert_eq!(report.summary[1].code, "ZETA");
    assert_eq!(report.summary[1].count, 2);
}

#[test]
fn normalize_warning_code_trims_separators() {
    assert_eq!(normalize_warning_code(None), "MOODLE_WARNING");
    assert_eq!(normalize_warning_code(Some("__a.b__")), "A_B");
    assert_eq!(stable_warning_code(Some("nopermissions"), "x"), "NOPERMISSIONS");
}

#[test]
fn moodle_warning_is_converted_with_its_item() {
    let w = Warning::from_moodle_warning(&MoodleWarning {
        item: Some("course".to_string()),
        itemid: Some(7),
        warningcode: Some("nopermission".to_string()),
        message: Some("No permission".to_string()),
    });
    assert_eq!(w.code, "NOPERMISSION");
    assert_eq!(w.message, "No permission");
    assert_eq!(w.item.as_deref(), Some("course"));
    assert_eq!(w.itemid, Some(7));
}

#[test]
fn warning_codes_only_use_schema_characters() {
    let samples = [
        stable_warning_code(Some("été-ñ/Ω"), "plain message"),
        stable_warning_code(Some("--"), "plain message"),
        stable_warning_code(None, "No access rights in module context 7"),
        normalize_warning_code(Some("a1 b2")),
    ];
    assert_eq!(samples[1], "MOODLE_WARNING");
    assert_eq!(samples[2], "ACCESS_DENIED_IN_MODULE_CONTEXT");
    assert_eq!(samples[3], "A1_B2");
    for code in samples.iter() {
        assert!(!code.is_empty());
        assert!(code.chars().all(|c| c.is_ascii_uppercase() || c.is_ascii_digit() || c == '_'));
    }
}

#[test]
fn normalized_warning_codes_are_in_normal_form() {
    for raw in [Some("__a.b__"), Some("x--y"), Some("--"), None, Some("COURSE_NOT_VISIBLE")] {
        let r = normalize_warning_code(raw);
        assert!(!r.starts_with('_') && !r.ends_with('_'));
        assert_eq!(normalize_warning_code(Some(&r)), r);
    }
}
