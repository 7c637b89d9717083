use campus_lms_cli::ai::{build_snapshot, count_priority, instructions_text, snapshot_courses, snapshot_todo_args, snapshot_warnings};
use campus_lms_cli::cli::AiSnapshotArgs;
use campus_lms_cli::moodle::calendar::{TodoItem, TodoPayload};

fn task(id: &str, course: Option<&str>, name: Option<&str>, hint: &str) -> TodoItem {
    TodoItem {
        id: id.to_string(),
        item_type: "assignment".to_string(),
        course_id: course.map(|c| c.to_string()),
        course_name: name.map(|n| n.to_string()),
        title: None,
        due_at: None,
        due_in_seconds: None,
        status: "pending".to_string(),
        priority_hint: hint.to_string(),
        url: None,
        detail_command: None,
    }
}

#[test]
fn snapshot_counts_and_courses() {
    let payload = TodoPayload {
        range_from: "2026-05-08".to_string(),
        range_to: "2026-05-22".to_string(),
        items: vec![
            task("a", Some("course:42"), Some("Algorithms"), "overdue"),
            task("b", Some("course:7"), Some("Biology"), "high"),
            task("c", Some("course:42"), Some("Other name"), "high"),
            task("d", None, None, "low"),
        ],
    };
    let s = build_snapshot(payload, false, false);
    assert_eq!(s.schema_version, "campus-lms.ai_snapshot.v1");
    assert!(!s.grades_included && !s.feedback_included && !s.user_email_included);
    assert_eq!(s.pending_count, 4);
    assert_eq!(s.overdue_count, 1);
    assert_eq!(s.due_within_48h_count, 2);
    assert_eq!(s.courses.len(), 2);
    assert_eq!(s.courses[0].id, "course:42");
    assert_eq!(s.courses[0].name.as_deref(), Some("Algorithms"));
    assert_eq!(s.courses[1].id, "course:7");
    assert!(s.warnings.is_empty());
    assert_eq!(s.range_to, "2026-05-22");
}

#[test]
fn privacy_flags_are_reported_as_unsupported() {
    let w = snapshot_warnings(true, true);
    assert_eq!(w.len(), 2);
    assert_eq!(w[0].code, "GRADES_NOT_IMPLEMENTED");
    assert_eq!(w[1].code, "FEEDBACK_NOT_IMPLEMENTED");
    assert_eq!(snapshot_warnings(false, true)[0].code, "FEEDBACK_NOT_IMPLEMENTED");
}

#[test]
fn snapshot_asks_for_the_task_list_without_filter() {
    let args = AiSnapshotArgs { days: 14, max_items: 30, include_grades: false, include_feedback: false, refresh: true, offline: false };
    let t = snapshot_todo_args(&args);
    assert_eq!(t.days, 14);
    assert_eq!(t.max_items, Some(30));
    assert!(t.refresh);
    assert!(!t.include_submitted);
    assert!(t.course.is_none());
}

#[test]
fn courses_are_listed_once_and_counts_match() {
    let items = vec![task("a", Some("course:1"), None, "low"), task("b", Some("course:1"), Some("X"), "low")];
    let courses = snapshot_courses(&items);
    assert_eq!(courses.len(), 1);
    assert!(courses[0].name.is_none());
    assert_eq!(count_priority(&items, "low"), 2);
    assert_eq!(count_priority(&items, "high"), 0);
}

#[test]
fn instructions_name_the_entry_point() {
    assert!(instructions_text().contains("campus-lms ai snapshot --days 14 --json"));
    assert!(instructions_text().starts_with("Use campus-lms as a read-only interface"));
}
