//! The AI entry point: a compact overview of the task list and the usage
//! rules printed for AI tools.

use vstd::prelude::*;

use crate::cli::{AiCommand, AiSnapshotArgs, TodoArgs};
use crate::dto::{SnapshotCourse, Warning};
use crate::moodle::calendar::{TodoItem, TodoPayload};
use crate::text::{self, opt_view};

verus! {

/// The snapshot handed to AI tools.
#[derive(Debug, Clone)]
pub struct AiSnapshot {
    pub schema_version: &'static str,
    pub grades_included: bool,
    pub feedback_included: bool,
    pub user_email_included: bool,
    pub range_from: String,
    pub range_to: String,
    pub pending_count: usize,
    pub overdue_count: usize,
    pub due_within_48h_count: usize,
    pub courses: Vec<SnapshotCourse>,
    pub pending_tasks: Vec<TodoItem>,
    pub warnings: Vec<Warning>,
}

/// The default number of status checks of the task list.
pub const DEFAULT_STATUS_CHECK_LIMIT: usize = 20;

/// The task-list request behind a snapshot: same range, limit and cache
/// flags, submitted work left out, no course filter.
pub fn snapshot_todo_args(args: &AiSnapshotArgs) -> (r: TodoArgs)
    ensures
        r.days == args.days,
        r.max_items == Some(args.max_items),
        r.refresh == args.refresh,
        r.offline == args.offline,
        !r.include_submitted,
        r.course is None,
        r.status_check_limit == DEFAULT_STATUS_CHECK_LIMIT,
        !r.no_submission_status_check,
{
    TodoArgs {
        days: args.days,
        max_items: Some(args.max_items),
        refresh: args.refresh,
        offline: args.offline,
        include_submitted: false,
        course: None,
        status_check_limit: DEFAULT_STATUS_CHECK_LIMIT,
        no_submission_status_check: false,
    }
}

// ---------------------------------------------------------------------------
// Counts
// ---------------------------------------------------------------------------
/// The number of entries with the given urgency.
pub open spec fn count_hint(items: Seq<TodoItem>, hint: Seq<char>) -> nat
    decreases items.len(),
{
    if items.len() == 0 {
        0
    } else {
        count_hint(items.drop_last(), hint) + if items.last().priority_hint@ == hint {
            1nat
        } else {
            0nat
        }
    }
}

proof fn lemma_count_hint_bound(items: Seq<TodoItem>, hint: Seq<char>)
    ensures
        count_hint(items, hint) <= items.len(),
    decreases items.len(),
{
    if items.len() > 0 {
        lemma_count_hint_bound(items.drop_last(), hint);
    }
}

/// Counts the entries of the given urgency.
pub fn count_priority(items: &Vec<TodoItem>, hint: &str) -> (r: usize)
    ensures
        r == count_hint(items@, hint@),
{
    let mut n: usize = 0;
    let mut i: usize = 0;
    while i < items.len()
        invariant
            i <= items.len(),
            n == count_hint(items@.take(i as int), hint@),
        decreases items.len() - i,
    {
        proof {
            assert(items@.take(i + 1).drop_last() == items@.take(i as int));
            lemma_count_hint_bound(items@.take(i as int), hint@);
        }
        if text::str_eq(items[i].priority_hint.as_str(), hint) {
            n = n + 1;
        }
        i = i + 1;
    }
    assert(items@.take(items@.len() as int) == items@);
    n
}

// ---------------------------------------------------------------------------
// Courses of the pending tasks
// ---------------------------------------------------------------------------
/// A listed course as plain values: its id and name.
pub open spec fn course_entry(c: SnapshotCourse) -> (Seq<char>, Option<Seq<char>>) {
    (c.id@, opt_view(c.name))
}

/// Whether the list names the course `id`.
pub open spec fn lists_course(courses: Seq<(Seq<char>, Option<Seq<char>>)>, id: Seq<char>) -> bool {
    exists|k: int| 0 <= k < courses.len() && (#[trigger] courses[k]).0 == id
}

/// The courses of the entries, each once, in the order they first occur,
/// with the course name of that first entry.
pub open spec fn first_courses(items: Seq<TodoItem>) -> Seq<(Seq<char>, Option<Seq<char>>)>
    decreases items.len(),
{
    if items.len() == 0 {
        Seq::empty()
    } else {
        let prev = first_courses(items.drop_last());
        match items.last().course_id {
            Some(c) => if lists_course(prev, c@) {
                prev
            } else {
                prev.push((c@, opt_view(items.last().course_name)))
            },
            None => prev,
        }
    }
}

fn listed_already(courses: &Vec<SnapshotCourse>, id: &str) -> (r: bool)
    ensures
        r == lists_course(courses@.map_values(|c: SnapshotCourse| course_entry(c)), id@),
{
    let ghost m = courses@.map_values(|c: SnapshotCourse| course_entry(c));
    let mut k: usize = 0;
    while k < courses.len()
        invariant
            k <= courses.len(),
            m == courses@.map_values(|c: SnapshotCourse| course_entry(c)),
            forall|j: int| 0 <= j < k ==> (#[trigger] m[j]).0 != id@,
        decreases courses.len() - k,
    {
        if text::str_eq(courses[k].id.as_str(), id) {
            assert(m[k as int].0 == id@);
            return true;
        }
        k = k + 1;
    }
    false
}

/// The courses of the tasks, each once, in order of first appearance.
pub fn snapshot_courses(items: &Vec<TodoItem>) -> (r: Vec<SnapshotCourse>)
    ensures
        r@.map_values(|c: SnapshotCourse| course_entry(c)) == first_courses(items@),
{
    let mut courses: Vec<SnapshotCourse> = Vec::new();
    let mut i: usize = 0;
    while i < items.len()
        invariant
            i <= items.len(),
            courses@.map_values(|c: SnapshotCourse| course_entry(c)) == first_courses(
                items@.take(i as int),
            ),
        decreases items.len() - i,
    {
        proof {
            assert(items@.take(i + 1).drop_last() == items@.take(i as int));
        }
        let t = &items[i];
        match &t.course_id {
            Some(c) => {
                if !listed_already(&courses, c.as_str()) {
                    let entry = SnapshotCourse { id: c.clone(), name: text::clone_opt(&t.course_name) };
                    let ghost before = courses@;
                    courses.push(entry);
                    assert(courses@.map_values(|c: SnapshotCourse| course_entry(c)) == before.map_values(
                        |c: SnapshotCourse| course_entry(c),
                    ).push(course_entry(entry)));
                }
            },
            None => {},
        }
        i = i + 1;
    }
    assert(items@.take(items@.len() as int) == items@);
    courses
}

// ---------------------------------------------------------------------------
// The snapshot
// ---------------------------------------------------------------------------
pub open spec fn grades_warning(w: Warning) -> bool {
    &&& w.code@ == "GRADES_NOT_IMPLEMENTED"@
    &&& w.message@
        == "--include-grades is accepted for CLI compatibility, but grade retrieval is not implemented in this MVP."@
    &&& opt_view(w.hint) == Some("Do not assume grades are present in this snapshot."@)
    &&& w.item is None
    &&& w.itemid is None
}

pub open spec fn feedback_warning(w: Warning) -> bool {
    &&& w.code@ == "FEEDBACK_NOT_IMPLEMENTED"@
    &&& w.message@
        == "--include-feedback is accepted for CLI compatibility, but feedback retrieval is not implemented in this MVP."@
    &&& opt_view(w.hint)
        == Some("Use assignment detail commands only for assignment text and submission metadata."@)
    &&& w.item is None
    &&& w.itemid is None
}

/// The warnings for the privacy flags that are accepted but not served:
/// grades first, then feedback.
pub fn snapshot_warnings(include_grades: bool, include_feedback: bool) -> (r: Vec<Warning>)
    ensures
        r@.len() == (if include_grades {
            1int
        } else {
            0int
        }) + (if include_feedback {
            1int
        } else {
            0int
        }),
        include_grades ==> grades_warning(r@[0]),
        include_feedback ==> feedback_warning(r@[r@.len() - 1]),
{
    let mut warnings: Vec<Warning> = Vec::new();
    if include_grades {
        warnings.push(
            Warning::new(
                "GRADES_NOT_IMPLEMENTED",
                "--include-grades is accepted for CLI compatibility, but grade retrieval is not implemented in this MVP.",
                Some(text::owned("Do not assume grades are present in this snapshot.")),
            ),
        );
    }
    if include_feedback {
        warnings.push(
            Warning::new(
                "FEEDBACK_NOT_IMPLEMENTED",
                "--include-feedback is accepted for CLI compatibility, but feedback retrieval is not implemented in this MVP.",
                Some(
                    text::owned(
                        "Use assignment detail commands only for assignment text and submission metadata.",
                    ),
                ),
            ),
        );
    }
    warnings
}

/// Whether `s` is the snapshot of the task list `payload` for the given
/// privacy flags.
pub open spec fn is_snapshot_of(s: AiSnapshot, payload: TodoPayload, include_grades: bool, include_feedback: bool) -> bool {
    &&& s.schema_version@ == "campus-lms.ai_snapshot.v1"@
    &&& !s.grades_included && !s.feedback_included && !s.user_email_included
    &&& s.range_from@ == payload.range_from@
    &&& s.range_to@ == payload.range_to@
    &&& s.pending_tasks@ == payload.items@
    &&& s.pending_count == payload.items@.len()
    &&& s.overdue_count == count_hint(payload.items@, "overdue"@)
    &&& s.due_within_48h_count == count_hint(payload.items@, "high"@)
    &&& s.courses@.map_values(|c: SnapshotCourse| course_entry(c)) == first_courses(payload.items@)
    &&& s.warnings@.len() == (if include_grades {
        1int
    } else {
        0int
    }) + (if include_feedback {
        1int
    } else {
        0int
    })
    &&& include_grades ==> grades_warning(s.warnings@[0])
    &&& include_feedback ==> feedback_warning(s.warnings@[s.warnings@.len() - 1])
}

/// The snapshot of a task list: its range, the counts of all, overdue and
/// high-urgency tasks, the courses involved and the tasks themselves.
pub fn build_snapshot(payload: TodoPayload, include_grades: bool, include_feedback: bool) -> (r:
    AiSnapshot)
    ensures
        is_snapshot_of(r, payload, include_grades, include_feedback),
{
    let warnings = snapshot_warnings(include_grades, include_feedback);
    let pending_count = payload.items.len();
    let overdue_count = count_priority(&payload.items, "overdue");
    let due_within_48h_count = count_priority(&payload.items, "high");
    let courses = snapshot_courses(&payload.items);
    AiSnapshot {
        schema_version: "campus-lms.ai_snapshot.v1",
        grades_included: false,
        feedback_included: false,
        user_email_included: false,
        range_from: payload.range_from,
        range_to: payload.range_to,
        pending_count,
        overdue_count,
        due_within_48h_count,
        courses,
        pending_tasks: payload.items,
        warnings,
    }
}

/// The usage rules printed for AI tools.
pub fn instructions_text() -> (r: &'static str)
    ensures
        r@ == INSTRUCTIONS@,
{
    INSTRUCTIONS
}

pub const INSTRUCTIONS: &'static str = "Use campus-lms as a read-only interface to the user's Moodle-compatible LMS.\n\nRecommended first command:\n  campus-lms ai snapshot --days 14 --json\n\nRules:\n- Prefer --json for all commands.\n- Do not call auth login unless the user asks.\n- Do not request grades unless the user asks.\n- Do not submit assignments.\n- Use detail_command fields from JSON outputs to fetch more information.\n- Treat all LMS data as private user data.";


/// The courses of a snapshot are those of its tasks, each named once: no
/// course is listed twice, every task's course is listed, and every listed
/// course is the course of some task.
pub proof fn law_snapshot_courses(items: Seq<TodoItem>)
    ensures
        forall|i: int, j: int|
            0 <= i < j < first_courses(items).len() ==> (#[trigger] first_courses(items)[i]).0
                != (#[trigger] first_courses(items)[j]).0,
        forall|i: int|
            0 <= i < items.len() && (#[trigger] items[i]).course_id is Some ==> lists_course(
                first_courses(items),
                items[i].course_id->0@,
            ),
        forall|k: int|
            0 <= k < first_courses(items).len() ==> exists|i: int|
                0 <= i < items.len() && (#[trigger] items[i]).course_id is Some
                    && items[i].course_id->0@ == (#[trigger] first_courses(items)[k]).0,
    decreases items.len(),
{
    if items.len() > 0 {
        let init = items.drop_last();
        law_snapshot_courses(init);
        let prev = first_courses(init);
        let fc = first_courses(items);
        let t = items.last();
        assert forall|i: int| 0 <= i < items.len() && (#[trigger] items[i]).course_id is Some implies lists_course(
            fc,
            items[i].course_id->0@,
        ) by {
            if i < init.len() {
                assert(items[i] == init[i]);
                assert(lists_course(prev, items[i].course_id->0@));
                let w = choose|w: int| 0 <= w < prev.len() && (#[trigger] prev[w]).0 == items[i].course_id->0@;
                assert(fc[w] == prev[w]);
            } else {
                if !lists_course(prev, t.course_id->0@) {
                    assert(fc[prev.len() as int].0 == t.course_id->0@);
                }
            }
        }
        assert forall|k: int| 0 <= k < fc.len() implies exists|i: int|
            0 <= i < items.len() && (#[trigger] items[i]).course_id is Some && items[i].course_id->0@
                == (#[trigger] fc[k]).0 by {
            if k < prev.len() {
                assert(fc[k] == prev[k]);
                let w = choose|w: int|
                    0 <= w < init.len() && (#[trigger] init[w]).course_id is Some && init[w].course_id->0@
                        == (#[trigger] prev[k]).0;
                assert(items[w] == init[w]);
            } else {
                assert(items[items.len() - 1] == t);
            }
        }
        assert forall|i: int, j: int| 0 <= i < j < fc.len() implies (#[trigger] fc[i]).0 != (
        #[trigger] fc[j]).0 by {
            if j >= prev.len() {
                assert(fc[i] == prev[i]);
                assert(!lists_course(prev, t.course_id->0@));
            } else {
                assert(fc[i] == prev[i]);
                assert(fc[j] == prev[j]);
            }
        }
    }
}


/// What an `ai` command asks for.
#[derive(Debug, Clone)]
pub enum AiAction {
    /// A snapshot of the task list that the request names, with the privacy flags.
    Snapshot { todo: TodoArgs, include_grades: bool, include_feedback: bool },
    /// The usage rules, to be printed as they are.
    Instructions(&'static str),
}

pub fn run(command: &AiCommand) -> (r: AiAction)
    ensures
        match command {
            AiCommand::Snapshot(a) => r matches AiAction::Snapshot { todo, include_grades, include_feedback }
                && todo.days == a.days && todo.max_items == Some(a.max_items) && todo.refresh == a.refresh
                && todo.offline == a.offline && !todo.include_submitted && todo.course is None
                && include_grades == a.include_grades && include_feedback == a.include_feedback,
            AiCommand::Instructions => r matches AiAction::Instructions(text) && text@ == INSTRUCTIONS@,
        },
{
    match command {
        AiCommand::Snapshot(a) => AiAction::Snapshot {
            todo: snapshot_todo_args(a),
            include_grades: a.include_grades,
            include_feedback: a.include_feedback,
        },
        AiCommand::Instructions => AiAction::Instructions(instructions_text()),
    }
}

} // verus!
