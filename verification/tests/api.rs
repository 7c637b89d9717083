use campus_lms_cli::moodle::assignments::{show_step, ShowStep};
use std::cell::Cell;

use campus_lms_cli::ai::{self, AiAction};
use campus_lms_cli::cache::CacheEntry;
use campus_lms_cli::cli::{AiCommand, AiSnapshotArgs, AssignmentShowArgs, SchemaCommand};
use campus_lms_cli::error::{CampusError, Result};
use campus_lms_cli::moodle::api::MoodleApi;
use campus_lms_cli::moodle::assignments::{
    cached_assignment_index, check_show_args, fetch_assignment_detail,
    fetch_assignments_for_courses, fetch_assignments_from_api, index_from_response,
    offline_detail, submission_outcome, AssignmentIndexItem, AssignmentIndexPayload,
};
use campus_lms_cli::moodle::courses;
use campus_lms_cli::moodle::models::{
    ActionEventsResponse, Assignment, AssignmentCourse, AssignmentsResponse, Course, LastAttempt,
    MoodleWarning, SiteInfo, Submission, SubmissionStatusResponse,
};
use campus_lms_cli::dto::Warning;
use campus_lms_cli::schema::{self, SchemaAnswer};

struct FakeMoodle {
    calls: Cell<usize>,
    submission_fails_with: Option<fn() -> CampusError>,
}

fn assignment(id: i64) -> Assignment {
    Assignment {
        id,
        cmid: Some(id + 1000),
        course: Some(7),
        name: Some(format!("task {id}")),
        intro: Some("<p>Write</p>".to_string()),
        duedate: None,
        allowsubmissionsfromdate: None,
        cutoffdate: None,
        introattachments: Vec::new(),
    }
}

impl MoodleApi for FakeMoodle {
    fn site_info(&self) -> Result<SiteInfo> {
        self.calls.set(self.calls.get() + 1);
        Ok(SiteInfo {
            userid: 5,
            username: "student".to_string(),
            fullname: None,
            sitename: None,
            siteurl: None,
            downloadfiles: None,
            uploadfiles: None,
            functions: Vec::new(),
        })
    }

    fn user_courses(&self, user_id: i64) -> Result<Vec<Course>> {
        self.calls.set(self.calls.get() + 1);
        assert_eq!(user_id, 5);
        Ok(vec![Course { id: 7, shortname: None, fullname: Some("Physics".to_string()), visible: Some(1) }])
    }

    fn assignments(&self, _course_ids: &[i64]) -> Result<AssignmentsResponse> {
        self.calls.set(self.calls.get() + 1);
        Ok(AssignmentsResponse {
            courses: vec![AssignmentCourse {
                id: 7,
                fullname: None,
                shortname: Some("PHY".to_string()),
                assignments: vec![assignment(1), assignment(2)],
            }],
            warnings: vec![MoodleWarning {
                item: Some("assign".to_string()),
                itemid: Some(2),
                warningcode: Some("nopermission".to_string()),
                message: Some("hidden".to_string()),
            }],
        })
    }

    fn submission_status(&self, _assign_id: i64) -> Result<SubmissionStatusResponse> {
        self.calls.set(self.calls.get() + 1);
        if let Some(err) = self.submission_fails_with {
            return Err(err());
        }
        Ok(SubmissionStatusResponse {
            lastattempt: Some(LastAttempt {
                submission: Some(Submission { status: Some("submitted".to_string()), timemodified: Some(1_778_198_400) }),
                gradingstatus: Some("notgraded".to_string()),
            }),
            warnings: Vec::new(),
        })
    }

    fn action_events_by_timesort(&self, _: i64, _: i64, _: i64, _: i64) -> Result<ActionEventsResponse> {
        Ok(ActionEventsResponse { events: Vec::new(), warnings: Vec::new() })
    }
}

fn fake() -> FakeMoodle {
    FakeMoodle { calls: Cell::new(0), submission_fails_with: None }
}

fn show_args(offline: bool, no_cache: bool) -> AssignmentShowArgs {
    AssignmentShowArgs { id: "assign:1".to_string(), max_chars: 8000, include_html: false, refresh: false, offline, no_cache }
}

#[test]
fn index_rows_carry_their_course() {
    let payload = fetch_assignments_from_api(&fake(), &[]).unwrap();
    assert_eq!(payload.items.len(), 2);
    assert_eq!(payload.items[0].course_id, "course:7");
    assert_eq!(payload.items[0].course_name.as_deref(), Some("PHY"));
    assert_eq!(payload.warnings.len(), 1);
    assert_eq!(payload.warnings[0].code, "NOPERMISSION");
    let direct = index_from_response(&fake().assignments(&[]).unwrap());
    assert_eq!(direct.items.len(), payload.items.len());
}

#[test]
fn cached_index_is_used_without_calling_moodle() {
    let client = fake();
    let cached = AssignmentIndexPayload { items: Vec::new(), warnings: Vec::new() };
    let (p, fresh) = fetch_assignments_for_courses(Some(cached), false, &client, &[]).unwrap();
    assert!(p.items.is_empty());
    assert!(!fresh);
    assert_eq!(client.calls.get(), 0);
    let err = fetch_assignments_for_courses(None, true, &client, &[]).unwrap_err();
    assert_eq!(err.display_text(), "cache error: offline cache miss for assignments");
    let (p, fresh) = fetch_assignments_for_courses(None, false, &client, &[]).unwrap();
    assert!(fresh);
    assert_eq!(p.items.len(), 2);
}

#[test]
fn courses_come_from_cache_or_moodle() {
    let client = fake();
    let err = courses::fetch(None, false, true, 300, &client, "https://lms.example/").unwrap_err();
    assert_eq!(err.display_text(), "cache error: offline cache miss for courses");
    let err = courses::fetch(None, true, true, 300, &client, "https://lms.example/").unwrap_err();
    assert_eq!(err.code(), "INVALID_ARGUMENT");
    assert_eq!(client.calls.get(), 0);
    let (fetched, fresh) = courses::fetch(None, false, false, 300, &client, "https://lms.example/").unwrap();
    assert!(fresh);
    assert!(!fetched.cache.used);
    assert_eq!(fetched.payload.courses[0].url, "https://lms.example/course/view.php?id=7");
    let entry = CacheEntry { value: fetched.payload.clone(), fetched_at: None, age_seconds: 42, stale: true };
    let (cached, fresh) = courses::fetch(Some(entry), false, true, 300, &client, "https://lms.example/").unwrap();
    assert!(!fresh);
    assert!(cached.cache.used && cached.cache.stale);
    assert_eq!(cached.cache.age_seconds, Some(42));
    let out = courses::run(cached, "now".to_string());
    assert_eq!(out.schema_version, "campus-lms.courses.v1");
    assert_eq!(out.courses.len(), 1);
}

#[test]
fn live_detail_includes_submission_and_relevant_warnings() {
    let detail = fetch_assignment_detail(&fake(), 2, true).unwrap();
    assert_eq!(detail.item.assignment.id, 2);
    assert!(detail.submission.is_some());
    assert_eq!(detail.warnings.len(), 1);
    let err = fetch_assignment_detail(&fake(), 99, true).unwrap_err();
    assert_eq!(err.display_text(), "not found: assignment assign:99 was not found in visible courses");
}

#[test]
fn submission_failures_are_warned_or_fatal() {
    let mut client = fake();
    client.submission_fails_with = Some(|| CampusError::Network { message: "down".to_string(), json: false });
    let detail = fetch_assignment_detail(&client, 1, false).unwrap();
    assert!(detail.submission.is_none());
    assert_eq!(detail.warnings.last().unwrap().code, "SUBMISSION_STATUS_UNAVAILABLE");
    assert_eq!(detail.warnings.last().unwrap().message, "network error: down");
    client.submission_fails_with = Some(|| CampusError::AuthExpired { json: false });
    let err = fetch_assignment_detail(&client, 1, true).unwrap_err();
    assert!(matches!(err, CampusError::AuthExpired { json: true }));
    let kept = vec![Warning::new("A", "a", None)];
    let (sub, ws) = submission_outcome(Err(CampusError::PermissionDenied { json: false }), kept.clone(), false)
        .map(|x| (x.0.is_some(), x.1.len()))
        .unwrap_or((false, usize::MAX));
    assert!(!sub);
    assert_eq!(ws, usize::MAX);
}

#[test]
fn offline_detail_is_rebuilt_from_the_index() {
    let payload = fetch_assignments_from_api(&fake(), &[]).unwrap();
    let d = offline_detail(&payload, 2, false).unwrap();
    assert!(d.submission.is_none());
    assert_eq!(d.warnings.len(), 2);
    assert_eq!(d.warnings[1].code, "ASSIGNMENT_DETAIL_RECONSTRUCTED_FROM_INDEX_CACHE");
    assert!(offline_detail(&payload, 3, false).is_err());
}

#[test]
fn offline_index_is_the_first_that_lists_the_assignment() {
    let with = |ids: &[i64]| CacheEntry {
        value: AssignmentIndexPayload {
            items: ids
                .iter()
                .map(|id| AssignmentIndexItem { course_id: "course:7".to_string(), course_name: None, assignment: assignment(*id) })
                .collect(),
            warnings: Vec::new(),
        },
        fetched_at: None,
        age_seconds: ids.len() as u64,
        stale: false,
    };
    let picked = cached_assignment_index(vec![with(&[1]), with(&[2, 3]), with(&[2])], 2).unwrap();
    assert_eq!(picked.age_seconds, 2);
    assert!(cached_assignment_index(vec![with(&[1])], 9).is_none());
}

#[test]
fn show_flags_are_checked() {
    assert!(check_show_args(&show_args(false, false), true).is_ok());
    let err = check_show_args(&show_args(true, true), true).unwrap_err();
    assert_eq!(err.display_text(), "invalid argument: --offline cannot be used with --no-cache.");
    assert!(err.json_requested());
    let mut too_long = show_args(false, false);
    too_long.max_chars = 100_001;
    assert!(check_show_args(&too_long, false).is_err());
}

#[test]
fn ai_and_schema_commands_decide_their_action() {
    let args = AiSnapshotArgs { days: 7, max_items: 10, include_grades: true, include_feedback: false, refresh: false, offline: true };
    match ai::run(&AiCommand::Snapshot(args)) {
        AiAction::Snapshot { todo, include_grades, include_feedback } => {
            assert_eq!(todo.days, 7);
            assert_eq!(todo.max_items, Some(10));
            assert!(todo.offline);
            assert!(include_grades && !include_feedback);
        }
        AiAction::Instructions(_) => panic!("expected a snapshot"),
    }
    assert!(matches!(ai::run(&AiCommand::Instructions), AiAction::Instructions(t) if t.contains("read-only")));
    match schema::run(&SchemaCommand::Show { name: "todo.v1".to_string() }, "now".to_string()).unwrap() {
        SchemaAnswer::Show(id) => assert_eq!(id, "campus-lms.todo.v1"),
        SchemaAnswer::List(_) => panic!("expected a schema id"),
    }
    match schema::run(&SchemaCommand::List, "now".to_string()).unwrap() {
        SchemaAnswer::List(out) => assert_eq!(out.schemas.len(), 16),
        SchemaAnswer::Show(_) => panic!("expected the list"),
    }
}

#[test]
fn show_reads_and_writes_the_detail_cache_only_without_no_cache() {
    assert!(matches!(show_step(&show_args(false, false), false), ShowStep::ReadDetailCache));
    assert!(matches!(show_step(&show_args(false, false), true), ShowStep::Live { write_cache: true }));
    assert!(matches!(show_step(&show_args(false, true), false), ShowStep::Live { write_cache: false }));
    assert!(matches!(show_step(&show_args(true, false), true), ShowStep::FromIndexCache));
}
