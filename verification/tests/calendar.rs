use campus_lms_cli::moodle::assignments::AssignmentIndexItem;
use campus_lms_cli::moodle::calendar::{
    assignment_item, build_todo_payload, collect_todo_items, event_item, priority,
    sort_todo_items, TodoItem,
};
use campus_lms_cli::moodle::models::{ActionEvent, Assignment, CourseSummary, EventAction};

const NOW: i64 = 1_778_198_400; // 2026-05-08T00:00:00Z

fn event(id: i64, course: i64, module: &str, instance: Option<i64>, due: Option<i64>) -> ActionEvent {
    ActionEvent {
        id,
        name: Some(format!("event {id}")),
        description: None,
        timestart: None,
        timesort: due,
        course: Some(CourseSummary {
            id: Some(course),
            fullname: Some("Algorithms".to_string()),
            shortname: Some("ALG".to_string()),
        }),
        modulename: Some(module.to_string()),
        instance,
        url: Some("https://lms.example/mod".to_string()),
        action: None,
    }
}

fn row(id: i64, course: &str, due: Option<i64>) -> AssignmentIndexItem {
    AssignmentIndexItem {
        course_id: course.to_string(),
        course_name: Some("Algorithms".to_string()),
        assignment: Assignment {
            id,
            cmid: None,
            course: None,
            name: Some(format!("assignment {id}")),
            intro: None,
            duedate: due,
            allowsubmissionsfromdate: None,
            cutoffdate: None,
            introattachments: Vec::new(),
        },
    }
}

fn item_with_due(id: &str, due: Option<i64>) -> TodoItem {
    TodoItem {
        id: id.to_string(),
        item_type: "calendar".to_string(),
        course_id: None,
        course_name: None,
        title: None,
        due_at: None,
        due_in_seconds: due,
        status: "pending".to_string(),
        priority_hint: priority(due.map(|d| d + NOW), NOW),
        url: None,
        detail_command: None,
    }
}

#[test]
fn priority_thresholds() {
    assert_eq!(priority(None, NOW), "unknown");
    assert_eq!(priority(Some(NOW - 1), NOW), "overdue");
    assert_eq!(priority(Some(NOW), NOW), "high");
    assert_eq!(priority(Some(NOW + 48 * 3600), NOW), "high");
    assert_eq!(priority(Some(NOW + 48 * 3600 + 1), NOW), "medium");
    assert_eq!(priority(Some(NOW + 7 * 24 * 3600), NOW), "medium");
    assert_eq!(priority(Some(NOW + 7 * 24 * 3600 + 1), NOW), "low");
}

#[test]
fn event_entry_fields() {
    let mut e = event(555, 42, "assign", Some(100), Some(NOW + 86_400));
    e.action = Some(EventAction { name: None, actionable: Some(false) });
    let t = event_item(&e, NOW);
    assert_eq!(t.id, "calendar:555");
    assert_eq!(t.item_type, "assign");
    assert_eq!(t.course_id.as_deref(), Some("course:42"));
    assert_eq!(t.course_name.as_deref(), Some("Algorithms"));
    assert_eq!(t.due_at.as_deref(), Some("2026-05-09T00:00:00Z"));
    assert_eq!(t.due_in_seconds, Some(86_400));
    assert_eq!(t.status, "completed_or_not_actionable");
    assert_eq!(t.priority_hint, "high");
    assert_eq!(t.detail_command.as_deref(), Some("campus-lms assignment show assign:100 --json"));
}

#[test]
fn calendar_event_without_module_is_a_calendar_entry() {
    let mut e = event(7, 1, "x", None, None);
    e.modulename = None;
    e.timestart = Some(NOW + 10);
    let t = event_item(&e, NOW);
    assert_eq!(t.item_type, "calendar");
    assert_eq!(t.status, "pending");
    assert_eq!(t.due_in_seconds, Some(10));
    assert!(t.detail_command.is_none());
}

#[test]
fn assignment_entry_fields() {
    let t = assignment_item(&row(100, "course:42", None), NOW);
    assert_eq!(t.id, "assign:100");
    assert_eq!(t.item_type, "assignment");
    assert_eq!(t.status, "unknown");
    assert_eq!(t.priority_hint, "unknown");
    assert!(t.due_at.is_none());
    assert_eq!(t.detail_command.as_deref(), Some("campus-lms assignment show assign:100 --json"));
}

#[test]
fn assignments_listed_by_events_are_not_repeated() {
    let events = vec![event(1, 42, "assign", Some(100), Some(NOW + 100))];
    let rows = vec![row(100, "course:42", Some(NOW + 100)), row(101, "course:42", Some(NOW + 50))];
    let items = collect_todo_items(&events, &rows, NOW, NOW + 14 * 86_400, &None, false);
    assert_eq!(items.len(), 2);
    assert_eq!(items[0].id, "calendar:1");
    assert_eq!(items[1].id, "assign:101");
}

#[test]
fn course_filter_and_range_end_apply() {
    let events = vec![event(1, 42, "quiz", None, Some(NOW)), event(2, 43, "quiz", None, Some(NOW))];
    let rows = vec![
        row(100, "course:42", Some(NOW + 100 * 86_400)),
        row(101, "course:43", Some(NOW + 1)),
        row(102, "course:42", None),
    ];
    let filter = Some("course:42".to_string());
    let items = collect_todo_items(&events, &rows, NOW, NOW + 14 * 86_400, &filter, false);
    let ids: Vec<&str> = items.iter().map(|t| t.id.as_str()).collect();
    assert_eq!(ids, vec!["calendar:1"]);
}

#[test]
fn sort_is_by_deadline_and_stable() {
    let items = vec![
        item_with_due("a", None),
        item_with_due("b", Some(50)),
        item_with_due("c", Some(-5)),
        item_with_due("d", Some(50)),
        item_with_due("e", None),
    ];
    let sorted = sort_todo_items(items);
    let ids: Vec<&str> = sorted.iter().map(|t| t.id.as_str()).collect();
    assert_eq!(ids, vec!["c", "b", "d", "a", "e"]);
}

#[test]
fn payload_has_range_dates_and_limit() {
    let events = vec![
        event(1, 42, "quiz", None, Some(NOW + 3_000)),
        event(2, 42, "quiz", None, Some(NOW + 1_000)),
        event(3, 42, "quiz", None, Some(NOW + 2_000)),
    ];
    let payload = build_todo_payload(&events, &Vec::new(), NOW, 14, &None, false, Some(2)).unwrap();
    assert_eq!(payload.range_from, "2026-05-08");
    assert_eq!(payload.range_to, "2026-05-22");
    let ids: Vec<&str> = payload.items.iter().map(|t| t.id.as_str()).collect();
    assert_eq!(ids, vec!["calendar:2", "calendar:3"]);
    for pair in payload.items.windows(2) {
        assert!(pair[0].due_in_seconds <= pair[1].due_in_seconds);
    }
}

#[test]
fn course_filter_accepts_a_bare_id() {
    let events = vec![event(1, 123, "quiz", None, Some(NOW)), event(2, 43, "quiz", None, Some(NOW))];
    let rows = vec![row(100, "course:123", Some(NOW + 10)), row(101, "course:43", Some(NOW + 10))];
    let bare = collect_todo_items(&events, &rows, NOW, NOW + 86_400, &Some("123".to_string()), false);
    let prefixed = collect_todo_items(&events, &rows, NOW, NOW + 86_400, &Some("course:123".to_string()), false);
    let ids: Vec<&str> = bare.iter().map(|t| t.id.as_str()).collect();
    assert_eq!(ids, vec!["calendar:1", "assign:100"]);
    let prefixed_ids: Vec<&str> = prefixed.iter().map(|t| t.id.as_str()).collect();
    assert_eq!(ids, prefixed_ids);
    assert!(bare.iter().all(|t| t.course_id.as_deref() == Some("course:123")));
}

#[test]
fn undated_fallback_assignments_are_left_out() {
    let rows = vec![row(100, "course:42", None), row(101, "course:42", Some(NOW + 10)), row(102, "course:42", Some(0))];
    let items = collect_todo_items(&Vec::new(), &rows, NOW, NOW + 86_400, &None, false);
    let ids: Vec<&str> = items.iter().map(|t| t.id.as_str()).collect();
    assert_eq!(ids, vec!["assign:101"]);
}

#[test]
fn not_actionable_events_only_with_include_submitted() {
    let mut done = event(1, 42, "assign", Some(100), Some(NOW + 10));
    done.action = Some(EventAction { name: None, actionable: Some(false) });
    let rows = vec![row(100, "course:42", Some(NOW + 10))];
    let without = collect_todo_items(&vec![done.clone()], &rows, NOW, NOW + 86_400, &None, false);
    assert!(without.is_empty());
    let with = collect_todo_items(&vec![done], &rows, NOW, NOW + 86_400, &None, true);
    assert_eq!(with.len(), 1);
    assert_eq!(with[0].status, "completed_or_not_actionable");
}

#[test]
fn todo_document_fields() {
    let events = vec![event(1, 42, "quiz", None, Some(NOW + 10))];
    let payload = build_todo_payload(&events, &Vec::new(), NOW, 14, &None, false, None).unwrap();
    let out = campus_lms_cli::moodle::calendar::todo_output(payload, true, "t".to_string());
    assert_eq!(out.schema_version, "campus-lms.todo.v1");
    assert_eq!((out.timezone, out.cache_used, out.cache_ttl_seconds), ("UTC", true, 300));
    assert_eq!(out.cache_fetched_at, "t");
    assert_eq!(out.range_from, "2026-05-08");
    assert_eq!(out.items.len(), 1);
}
