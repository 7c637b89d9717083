use campus_lms_cli::docs::{capabilities, error_docs};
use campus_lms_cli::error::CampusError;
use campus_lms_cli::schema::{resolve_schema, schema_list, schema_list_output};

#[test]
fn error_table_matches_error_exit_codes() {
    let docs = error_docs();
    assert_eq!(docs.len(), 11);
    let samples = vec![
        CampusError::AuthRequired { json: false },
        CampusError::AuthExpired { json: false },
        CampusError::PermissionDenied { json: false },
        CampusError::Network { message: String::new(), json: false },
        CampusError::RateLimited { json: false },
        CampusError::MoodleApi { message: String::new(), json: false },
        CampusError::UnsupportedMoodleFeature { message: String::new(), json: false },
        CampusError::config("x"),
        CampusError::keychain("x"),
        CampusError::cache("x"),
        CampusError::Parse { message: String::new(), json: false },
    ];
    for (doc, err) in docs.iter().zip(samples.iter()) {
        assert_eq!(doc.code, err.code());
        assert_eq!(doc.exit_code, err.exit_code());
    }
    assert!(docs[3].retryable);
    assert!(!docs[9].retryable);
}

#[test]
fn capabilities_mark_dangerous_commands() {
    let caps = capabilities();
    assert_eq!(caps.schema_version, "campus-lms.capabilities.v1");
    assert_eq!(caps.recommended_entrypoint, "campus-lms ai snapshot --days 14 --json");
    assert_eq!(caps.commands.len(), 12);
    assert_eq!(caps.dangerous_commands, vec!["cleanup", "uninstall"]);
    for c in &caps.commands {
        if c.safe_for_ai {
            assert!(c.read_only);
        }
    }
    let snapshot = caps.commands.iter().find(|c| c.name == "ai snapshot").unwrap();
    assert_eq!(snapshot.ai_safety_notes.len(), 2);
}

#[test]
fn schemas_resolve_by_short_name_or_id() {
    let names = schema_list();
    assert_eq!(names.len(), 16);
    assert_eq!(names[0], "auth_login.v1");
    for name in &names {
        let id = format!("campus-lms.{name}");
        assert_eq!(resolve_schema(name).unwrap(), id);
        assert_eq!(resolve_schema(&id).unwrap(), id);
    }
    let err = resolve_schema("grades.v1").unwrap_err();
    assert_eq!(err.code(), "NOT_FOUND");
    assert_eq!(err.display_text(), "not found: schema grades.v1 is not implemented yet");
    assert!(err.json_requested());
    let out = schema_list_output("now".to_string());
    assert_eq!(out.schema_version, "campus-lms.schema_list.v1");
    assert_eq!(out.schemas.len(), 16);
}
