use campus_lms_cli::moodle::assignments::{
    assignments_cache_key, parse_assign_id, redact_assignment_cache, sanitize_cached_html,
    stable_attachment_id, strip_query_value, truncate_chars, AssignmentIndexItem,
    AssignmentIndexPayload,
};
use campus_lms_cli::moodle::models::{Assignment, MoodleFile};

fn report_file(url: Option<&str>) -> MoodleFile {
    MoodleFile {
        filename: Some("report.pdf".to_string()),
        filepath: Some("/".to_string()),
        contenthash: None,
        pathnamehash: None,
        filesize: Some(10),
        mimetype: Some("application/pdf".to_string()),
        fileurl: url.map(|u| u.to_string()),
    }
}

#[test]
fn parses_prefixed_assignment_id() {
    assert_eq!(parse_assign_id("assign:123").unwrap(), 123);
    assert_eq!(parse_assign_id("123").unwrap(), 123);
    assert!(parse_assign_id("course:123").is_err());
    assert!(parse_assign_id("assign:0").is_err());
    assert!(parse_assign_id("-1").is_err());
}

#[test]
fn assignment_cache_key_ignores_output_only_options() {
    let key_a = assignments_cache_key("profile", &[]);
    let key_b = assignments_cache_key("profile", &[]);
    assert_eq!(key_a, key_b);
    assert_ne!(key_a, assignments_cache_key("profile", &[123]));
}

#[test]
fn attachment_id_does_not_depend_on_file_url() {
    let mut file = report_file(Some("https://example.edu/pluginfile.php/1/report.pdf?token=secret"));
    let live_id = stable_attachment_id(42, &file);
    file.fileurl = None;
    assert_eq!(live_id, stable_attachment_id(42, &file));
    let digest = live_id.strip_prefix("file:sha256:").unwrap();
    assert_eq!(digest.len(), 64);
    assert!(digest.chars().all(|c| c.is_ascii_digit() || ('a'..='f').contains(&c)));
}

#[test]
fn index_cache_removes_assignment_body_and_attachments() {
    let payload = AssignmentIndexPayload {
        items: vec![AssignmentIndexItem {
            course_id: "course:1".to_string(),
            course_name: None,
            assignment: Assignment {
                id: 42,
                cmid: Some(100),
                course: Some(1),
                name: Some("Report".to_string()),
                intro: Some("<p>Private body</p>".to_string()),
                duedate: None,
                allowsubmissionsfromdate: None,
                cutoffdate: None,
                introattachments: vec![report_file(Some(
                    "https://example.edu/pluginfile.php/1/report.pdf",
                ))],
            },
        }],
        warnings: Vec::new(),
    };
    let redacted = redact_assignment_cache(&payload);
    assert!(redacted.items[0].assignment.intro.is_none());
    assert!(redacted.items[0].assignment.introattachments.is_empty());
}

#[test]
fn cached_html_redacts_common_secret_query_values() {
    let html = r#"<a href="https://example.edu/pluginfile.php/1/file.pdf?token=secret&wstoken=abc&x=1">file</a><img src="/x?sesskey=s3">"#;
    let sanitized = sanitize_cached_html(html.to_string());
    assert!(sanitized.contains("token=REDACTED"));
    assert!(sanitized.contains("wstoken=REDACTED"));
    assert!(sanitized.contains("sesskey=REDACTED"));
    assert!(!sanitized.contains("secret"));
    assert!(!sanitized.contains("abc"));
    assert!(!sanitized.contains("s3"));
}

#[test]
fn strip_query_value_stops_at_delimiters() {
    assert_eq!(strip_query_value("a?token=xyz&b=1", "token"), "a?token=REDACTED&b=1");
    assert_eq!(strip_query_value("token=1'token=2", "token"), "token=REDACTED'token=REDACTED");
    assert_eq!(strip_query_value("nothing here", "token"), "nothing here");
}

#[test]
fn truncate_chars_counts_characters() {
    assert_eq!(truncate_chars("日本語テキスト", 3), "日本語");
    assert_eq!(truncate_chars("abc", 10), "abc");
}

#[test]
fn attachment_id_is_a_file_sha256_id() {
    let id = stable_attachment_id(42, &report_file(None));
    assert!(id.starts_with("file:sha256:"));
    assert_eq!(id.len(), "file:sha256:".len() + 64);
    let other = stable_attachment_id(43, &report_file(None));
    assert_ne!(id, other);
}

#[test]
fn parse_assign_id_rejects_garbage() {
    assert!(parse_assign_id("assign:").is_err());
    assert!(parse_assign_id("assign:12x").is_err());
    assert!(parse_assign_id("").is_err());
    assert_eq!(parse_assign_id("assign:+5").unwrap(), 5);
}

#[test]
fn cached_html_has_every_secret_key_redacted() {
    let html = "<a href='?wstoken=w1&token=t1'>x</a> sesskey=s1\" token= wstoken=";
    let sanitized = sanitize_cached_html(html.to_string());
    assert_eq!(
        sanitized,
        "<a href='?wstoken=REDACTED&token=REDACTED'>x</a> sesskey=REDACTED\" token=REDACTED"
    );
    for key in ["wstoken=", "token=", "sesskey="] {
        for (at, _) in sanitized.match_indices(key) {
            assert!(sanitized[at + key.len()..].starts_with("REDACTED"));
        }
    }
}

#[test]
fn printed_assignment_ids_parse_back() {
    for id in [1i64, 42, 12345, i64::MAX] {
        assert_eq!(parse_assign_id(&format!("assign:{id}")).unwrap(), id);
    }
}

#[test]
fn control_characters_in_long_words_render_without_failing() {
    let long = "a".repeat(100);
    let inputs = [
        format!("\u{1}{long}"),
        format!("<p>&#1;{long}</p>"),
        format!("<pre>\u{1}{long}\u{7f}</pre>"),
    ];
    for html in inputs.iter() {
        let text = campus_lms_cli::moodle::assignments::html_to_text(html);
        assert!(text.contains("aaaaaaaaaa"));
        assert!(!text.contains('\u{1}'));
    }
}
