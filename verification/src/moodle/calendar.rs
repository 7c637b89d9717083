//! The task list: calendar action events and assignments merged into one
//! list of to-do items, ordered by how soon each is due.

use vstd::prelude::*;

use crate::external;
use crate::moodle::assignments::{course_ref, ts, ts_spec, AssignmentIndexItem};
use crate::moodle::models::ActionEvent;
use crate::text::{self, int_decimal, opt_view};

verus! {

/// One entry of the task list.
#[derive(Debug, Clone)]
pub struct TodoItem {
    pub id: String,
    pub item_type: String,
    pub course_id: Option<String>,
    pub course_name: Option<String>,
    pub title: Option<String>,
    pub due_at: Option<String>,
    pub due_in_seconds: Option<i64>,
    pub status: String,
    pub priority_hint: String,
    pub url: Option<String>,
    pub detail_command: Option<String>,
}

/// The task list with the UTC dates that bound it.
#[derive(Debug, Clone)]
pub struct TodoPayload {
    pub range_from: String,
    pub range_to: String,
    pub items: Vec<TodoItem>,
}

// ---------------------------------------------------------------------------
// Priority
// ---------------------------------------------------------------------------
/// Seconds in two days and in one week.
pub const HIGH_PRIORITY_SECONDS: i64 = 172800;

pub const MEDIUM_PRIORITY_SECONDS: i64 = 604800;

/// Whether `due - now` fits in an `i64`.
pub open spec fn offset_fits(due: Option<i64>, now: i64) -> bool {
    match due {
        Some(d) => i64::MIN <= d - now <= i64::MAX,
        None => true,
    }
}

/// Seconds from `now` until `due`.
pub open spec fn due_offset(due: Option<i64>, now: i64) -> Option<i64> {
    match due {
        Some(d) => Some((d - now) as i64),
        None => None,
    }
}

/// The urgency of a deadline: overdue when it has passed, high within two
/// days, medium within a week, low after that, unknown without one.
pub open spec fn priority_spec(due: Option<i64>, now: i64) -> Seq<char> {
    match due {
        None => "unknown"@,
        Some(d) => if d - now < 0 {
            "overdue"@
        } else if d - now <= HIGH_PRIORITY_SECONDS {
            "high"@
        } else if d - now <= MEDIUM_PRIORITY_SECONDS {
            "medium"@
        } else {
            "low"@
        },
    }
}

pub fn priority(due: Option<i64>, now: i64) -> (r: String)
    requires
        offset_fits(due, now),
    ensures
        r@ == priority_spec(due, now),
{
    match due {
        None => text::owned("unknown"),
        Some(d) => {
            let seconds = d - now;
            if seconds < 0 {
                text::owned("overdue")
            } else if seconds <= HIGH_PRIORITY_SECONDS {
                text::owned("high")
            } else if seconds <= MEDIUM_PRIORITY_SECONDS {
                text::owned("medium")
            } else {
                text::owned("low")
            }
        },
    }
}

fn offset(due: Option<i64>, now: i64) -> (r: Option<i64>)
    requires
        offset_fits(due, now),
    ensures
        r == due_offset(due, now),
{
    match due {
        Some(d) => Some(d - now),
        None => None,
    }
}

// ---------------------------------------------------------------------------
// Items from calendar events
// ---------------------------------------------------------------------------
/// `assign:<id>`.
pub open spec fn assign_ref(id: i64) -> Seq<char> {
    "assign:"@ + int_decimal(id as int)
}

/// The command that prints an assignment's details.
pub open spec fn detail_command_for(id: i64) -> Seq<char> {
    "campus-lms assignment show "@ + assign_ref(id) + " --json"@
}

/// An event's deadline: its sort time, else its start time.
pub open spec fn event_due(e: ActionEvent) -> Option<i64> {
    match e.timesort {
        Some(t) => Some(t),
        None => e.timestart,
    }
}

/// `course:<id>` of the event's course, where it names one.
pub open spec fn event_course_id(e: ActionEvent) -> Option<Seq<char>> {
    match e.course {
        Some(c) => match c.id {
            Some(id) => Some(course_ref(id)),
            None => None,
        },
        None => None,
    }
}

/// The event's course name: full name, else short name.
pub open spec fn event_course_name(e: ActionEvent) -> Option<Seq<char>> {
    match e.course {
        Some(c) => match c.fullname {
            Some(f) => Some(f@),
            None => opt_view(c.shortname),
        },
        None => None,
    }
}

/// The assignment an event stands for: its instance, for an `assign` event.
pub open spec fn event_assignment(e: ActionEvent) -> Option<i64> {
    if opt_view(e.modulename) == Some("assign"@) {
        e.instance
    } else {
        None
    }
}

/// Whether the event still asks for action (so when Moodle does not say).
pub open spec fn event_actionable(e: ActionEvent) -> bool {
    match e.action {
        Some(a) => match a.actionable {
            Some(b) => b,
            None => true,
        },
        None => true,
    }
}

/// The filter `--course` stands for: `course:<id>` where the text is
/// `course:<id>` or `<id>` with a positive id; otherwise the text as given,
/// which no course of Moodle's answers carries.
pub open spec fn effective_filter(filter: Option<Seq<char>>) -> Option<Seq<char>> {
    match filter {
        None => None,
        Some(f) => match crate::cli::course_filter_id(f) {
            Some(id) => if id > 0 {
                Some("course:"@ + int_decimal(id as int))
            } else {
                Some(f)
            },
            None => Some(f),
        },
    }
}

fn effective_filter_exec(filter: &Option<String>) -> (r: Option<String>)
    ensures
        opt_view(r) == effective_filter(opt_view(*filter)),
{
    match filter {
        None => None,
        Some(f) => match crate::cli::normalize_course_filter(f.as_str()) {
            Ok((s, _)) => Some(s),
            Err(_) => Some(f.clone()),
        },
    }
}

/// Whether a course passes the `--course` filter.
pub open spec fn passes_filter(course_id: Option<Seq<char>>, filter: Option<Seq<char>>) -> bool {
    match filter {
        Some(f) => course_id == Some(f),
        None => true,
    }
}

/// Whether `t` is the task-list entry of event `e` at time `now`.
pub open spec fn is_event_item(t: TodoItem, e: ActionEvent, now: i64) -> bool {
    &&& t.id@ == "calendar:"@ + int_decimal(e.id as int)
    &&& t.item_type@ == (match e.modulename {
        Some(m) => m@,
        None => "calendar"@,
    })
    &&& opt_view(t.course_id) == event_course_id(e)
    &&& opt_view(t.course_name) == event_course_name(e)
    &&& opt_view(t.title) == opt_view(e.name)
    &&& opt_view(t.due_at) == ts_spec(event_due(e))
    &&& t.due_in_seconds == due_offset(event_due(e), now)
    &&& t.status@ == (if event_actionable(e) {
        "pending"@
    } else {
        "completed_or_not_actionable"@
    })
    &&& t.priority_hint@ == priority_spec(event_due(e), now)
    &&& opt_view(t.url) == opt_view(e.url)
    &&& opt_view(t.detail_command) == (match event_assignment(e) {
        Some(id) => Some(detail_command_for(id)),
        None => None,
    })
}

fn assign_ref_exec(id: i64) -> (r: String)
    ensures
        r@ == assign_ref(id),
{
    text::concat2("assign:", text::i64_decimal(id).as_str())
}

fn detail_command(id: i64) -> (r: String)
    ensures
        r@ == detail_command_for(id),
{
    text::concat3("campus-lms assignment show ", assign_ref_exec(id).as_str(), " --json")
}

fn event_course_id_exec(e: &ActionEvent) -> (r: Option<String>)
    ensures
        opt_view(r) == event_course_id(*e),
{
    match &e.course {
        Some(c) => match c.id {
            Some(id) => Some(text::concat2("course:", text::i64_decimal(id).as_str())),
            None => None,
        },
        None => None,
    }
}

fn event_assignment_exec(e: &ActionEvent) -> (r: Option<i64>)
    ensures
        r == event_assignment(*e),
{
    match &e.modulename {
        Some(m) => if text::str_eq(m.as_str(), "assign") {
            e.instance
        } else {
            None
        },
        None => None,
    }
}

fn passes_filter_exec(course_id: &Option<String>, filter: Option<&str>) -> (r: bool)
    ensures
        r == passes_filter(
            opt_view(*course_id),
            match filter {
                Some(f) => Some(f@),
                None => None,
            },
        ),
{
    match filter {
        None => true,
        Some(f) => match course_id {
            Some(c) => text::str_eq(c.as_str(), f),
            None => false,
        },
    }
}

/// The task-list entry of a calendar event.
pub fn event_item(e: &ActionEvent, now: i64) -> (t: TodoItem)
    requires
        offset_fits(event_due(*e), now),
    ensures
        is_event_item(t, *e, now),
{
    let due = match e.timesort {
        Some(t) => Some(t),
        None => e.timestart,
    };
    let item_type = match &e.modulename {
        Some(m) => m.clone(),
        None => text::owned("calendar"),
    };
    let course_name = match &e.course {
        Some(c) => match &c.fullname {
            Some(f) => Some(f.clone()),
            None => text::clone_opt(&c.shortname),
        },
        None => None,
    };
    let actionable = match &e.action {
        Some(a) => match a.actionable {
            Some(b) => b,
            None => true,
        },
        None => true,
    };
    let status = if actionable {
        text::owned("pending")
    } else {
        text::owned("completed_or_not_actionable")
    };
    let detail = match event_assignment_exec(e) {
        Some(id) => Some(detail_command(id)),
        None => None,
    };
    TodoItem {
        id: text::concat2("calendar:", text::i64_decimal(e.id).as_str()),
        item_type,
        course_id: event_course_id_exec(e),
        course_name,
        title: text::clone_opt(&e.name),
        due_at: ts(due),
        due_in_seconds: offset(due, now),
        status,
        priority_hint: priority(due, now),
        url: text::clone_opt(&e.url),
        detail_command: detail,
    }
}

// ---------------------------------------------------------------------------
// Items from the assignment index
// ---------------------------------------------------------------------------
/// Whether `t` is the task-list entry of assignment row `a` at time `now`.
pub open spec fn is_assignment_item(t: TodoItem, a: AssignmentIndexItem, now: i64) -> bool {
    &&& t.id@ == assign_ref(a.assignment.id)
    &&& t.item_type@ == "assignment"@
    &&& opt_view(t.course_id) == Some(a.course_id@)
    &&& opt_view(t.course_name) == opt_view(a.course_name)
    &&& opt_view(t.title) == opt_view(a.assignment.name)
    &&& opt_view(t.due_at) == ts_spec(a.assignment.duedate)
    &&& t.due_in_seconds == due_offset(a.assignment.duedate, now)
    &&& t.status@ == "unknown"@
    &&& t.priority_hint@ == priority_spec(a.assignment.duedate, now)
    &&& t.url is None
    &&& opt_view(t.detail_command) == Some(detail_command_for(a.assignment.id))
}

/// The task-list entry of an assignment row.
pub fn assignment_item(a: &AssignmentIndexItem, now: i64) -> (t: TodoItem)
    requires
        offset_fits(a.assignment.duedate, now),
    ensures
        is_assignment_item(t, *a, now),
{
    let due = a.assignment.duedate;
    TodoItem {
        id: assign_ref_exec(a.assignment.id),
        item_type: text::owned("assignment"),
        course_id: Some(a.course_id.clone()),
        course_name: text::clone_opt(&a.course_name),
        title: text::clone_opt(&a.assignment.name),
        due_at: ts(due),
        due_in_seconds: offset(due, now),
        status: text::owned("unknown"),
        priority_hint: priority(due, now),
        url: None,
        detail_command: Some(detail_command(a.assignment.id)),
    }
}


// ---------------------------------------------------------------------------
// Collecting the task list
// ---------------------------------------------------------------------------
/// Whether an event passes the course filter.
pub open spec fn event_kept(filter: Option<Seq<char>>) -> spec_fn(ActionEvent) -> bool {
    |e: ActionEvent| passes_filter(event_course_id(e), filter)
}

/// Whether an event gets an entry: it passes the course filter and, unless
/// submitted or not actionable work is asked for, still asks for action.
pub open spec fn event_shown(filter: Option<Seq<char>>, include_submitted: bool) -> spec_fn(
    ActionEvent,
) -> bool {
    |e: ActionEvent| passes_filter(event_course_id(e), filter) && (include_submitted
        || event_actionable(e))
}

/// Whether one of the kept events already stands for assignment `id`.
pub open spec fn listed_by_events(kept: Seq<ActionEvent>, id: i64) -> bool {
    exists|i: int| 0 <= i < kept.len() && #[trigger] event_assignment(kept[i]) == Some(id)
}

/// Whether an assignment row gets an entry of its own: no kept event stands
/// for it, its course passes the filter, and it has a due date (Moodle's 0
/// stands for none) that is not after `to`.
pub open spec fn assignment_kept(
    kept_events: Seq<ActionEvent>,
    filter: Option<Seq<char>>,
    to: i64,
) -> spec_fn(AssignmentIndexItem) -> bool {
    |a: AssignmentIndexItem|
        !listed_by_events(kept_events, a.assignment.id) && passes_filter(Some(a.course_id@), filter)
            && (match a.assignment.duedate {
            Some(d) => 0 < d <= to,
            None => false,
        })
}

/// Whether `items` is the unordered task list: one entry per shown event,
/// in order, then one per kept assignment row, in order. An event that
/// passes the course filter stands for its assignment even where it is not
/// shown.
pub open spec fn collects(
    items: Seq<TodoItem>,
    events: Seq<ActionEvent>,
    assignments: Seq<AssignmentIndexItem>,
    now: i64,
    to: i64,
    filter: Option<Seq<char>>,
    include_submitted: bool,
) -> bool {
    let ke = events.filter(event_kept(filter));
    let se = events.filter(event_shown(filter, include_submitted));
    let ka = assignments.filter(assignment_kept(ke, filter, to));
    &&& items.len() == se.len() + ka.len()
    &&& forall|i: int| 0 <= i < se.len() ==> is_event_item(#[trigger] items[i], se[i], now)
    &&& forall|j: int|
        0 <= j < ka.len() ==> is_assignment_item(#[trigger] items.skip(se.len() as int)[j], ka[j], now)
}

/// Whether every entry that gets a deadline offset has one that fits an `i64`.
pub open spec fn offsets_fit(
    events: Seq<ActionEvent>,
    assignments: Seq<AssignmentIndexItem>,
    now: i64,
    to: i64,
    filter: Option<Seq<char>>,
) -> bool {
    &&& forall|i: int|
        0 <= i < events.len() && #[trigger] event_kept(filter)(events[i]) ==> offset_fits(
            event_due(events[i]),
            now,
        )
    &&& forall|j: int|
        0 <= j < assignments.len() && #[trigger] assignment_kept(
            events.filter(event_kept(filter)),
            filter,
            to,
        )(assignments[j]) ==> offset_fits(assignments[j].assignment.duedate, now)
}

fn contains_id(ids: &Vec<i64>, id: i64) -> (r: bool)
    ensures
        r == ids@.contains(id),
{
    let mut k: usize = 0;
    while k < ids.len()
        invariant
            k <= ids.len(),
            forall|m: int| 0 <= m < k ==> ids@[m] != id,
        decreases ids.len() - k,
    {
        if ids[k] == id {
            assert(ids@[k as int] == id);
            return true;
        }
        k = k + 1;
    }
    false
}

/// The task list before ordering: the entries of the calendar events whose
/// course passes the filter (those that no longer ask for action only where
/// `include_submitted` is set), then those of the assignment rows that no
/// event of the course filter already stands for, whose course passes the
/// filter and that are due, not after `to`. The filter is `--course` as
/// given, `course:<id>` or `<id>`.
pub fn collect_todo_items(
    events: &Vec<ActionEvent>,
    assignments: &Vec<AssignmentIndexItem>,
    now: i64,
    to: i64,
    course_filter: &Option<String>,
    include_submitted: bool,
) -> (r: Vec<TodoItem>)
    requires
        offsets_fit(events@, assignments@, now, to, effective_filter(opt_view(*course_filter))),
    ensures
        collects(
            r@,
            events@,
            assignments@,
            now,
            to,
            effective_filter(opt_view(*course_filter)),
            include_submitted,
        ),
{
    let eff = effective_filter_exec(course_filter);
    let ghost filter = opt_view(eff);
    let ghost pe = event_kept(filter);
    let ghost ps = event_shown(filter, include_submitted);
    let filter_ref: Option<&str> = match &eff {
        Some(f) => Some(f.as_str()),
        None => None,
    };
    assert(match filter_ref {
        Some(f) => Some(f@),
        None => None,
    } == filter);
    let mut items: Vec<TodoItem> = Vec::new();
    let mut listed: Vec<i64> = Vec::new();
    let mut i: usize = 0;
    while i < events.len()
        invariant
            i <= events.len(),
            filter == effective_filter(opt_view(*course_filter)),
            pe == event_kept(filter),
            ps == event_shown(filter, include_submitted),
            (match filter_ref {
                Some(f) => Some(f@),
                None => None,
            }) == filter,
            offsets_fit(events@, assignments@, now, to, filter),
            items@.len() == events@.take(i as int).filter(ps).len(),
            forall|k: int|
                0 <= k < items@.len() ==> is_event_item(
                    #[trigger] items@[k],
                    events@.take(i as int).filter(ps)[k],
                    now,
                ),
            forall|id: i64|
                #![trigger listed@.contains(id)]
                listed@.contains(id) <==> listed_by_events(events@.take(i as int).filter(pe), id),
        decreases events.len() - i,
    {
        let e = &events[i];
        let ghost before = events@.take(i as int).filter(pe);
        let ghost before_s = events@.take(i as int).filter(ps);
        proof {
            assert(events@.take(i + 1) == events@.take(i as int).push(events@[i as int]));
            events@.take(i as int).lemma_filter_push(events@[i as int], pe);
            events@.take(i as int).lemma_filter_push(events@[i as int], ps);
        }
        let course_id = event_course_id_exec(e);
        if passes_filter_exec(&course_id, filter_ref) {
            assert(pe(events@[i as int]));
            let actionable = match &e.action {
                Some(a) => match a.actionable {
                    Some(b) => b,
                    None => true,
                },
                None => true,
            };
            if include_submitted || actionable {
                assert(ps(events@[i as int]));
                let t = event_item(e, now);
                let ghost old_items = items@;
                items.push(t);
                assert(events@.take(i + 1).filter(ps) == before_s.push(*e));
                assert forall|k: int| 0 <= k < items@.len() implies is_event_item(
                    #[trigger] items@[k],
                    events@.take(i + 1).filter(ps)[k],
                    now,
                ) by {
                    if k < old_items.len() {
                        assert(items@[k] == old_items[k]);
                    }
                }
            } else {
                assert(!ps(events@[i as int]));
                assert(events@.take(i + 1).filter(ps) == before_s);
            }
            let ghost after = before.push(*e);
            assert(events@.take(i + 1).filter(pe) == after);
            let ghost old_listed = listed@;
            let assigned = event_assignment_exec(e);
            match assigned {
                Some(id) => {
                    listed.push(id);
                },
                None => {},
            }
            assert forall|x: i64| #![trigger listed@.contains(x)]
                listed@.contains(x) <==> listed_by_events(after, x) by {
                if old_listed.contains(x) {
                    let w = choose|w: int| 0 <= w < old_listed.len() && old_listed[w] == x;
                    assert(listed@[w] == x);
                    assert(listed_by_events(before, x));
                    let v = choose|v: int| 0 <= v < before.len() && #[trigger] event_assignment(before[v]) == Some(x);
                    assert(after[v] == before[v]);
                }
                if listed@.contains(x) && !old_listed.contains(x) {
                    let w = choose|w: int| 0 <= w < listed@.len() && listed@[w] == x;
                    if w < old_listed.len() {
                        assert(old_listed[w] == x);
                    }
                    assert(assigned == Some(x));
                    assert(after[before.len() as int] == *e);
                    assert(event_assignment(after[before.len() as int]) == Some(x));
                }
                if listed_by_events(after, x) {
                    let w = choose|w: int| 0 <= w < after.len() && #[trigger] event_assignment(after[w]) == Some(x);
                    if w < before.len() {
                        assert(after[w] == before[w]);
                        assert(listed_by_events(before, x));
                        assert(old_listed.contains(x));
                        let u = choose|u: int| 0 <= u < old_listed.len() && old_listed[u] == x;
                        assert(listed@[u] == x);
                    } else {
                        assert(after[w] == *e);
                        assert(assigned == Some(x));
                        assert(listed@[old_listed.len() as int] == x);
                    }
                }
            }
        } else {
            assert(!pe(events@[i as int]));
            assert(!ps(events@[i as int]));
            assert(events@.take(i + 1).filter(ps) == before_s);
            assert(events@.take(i + 1).filter(pe) == before);
        }
        i = i + 1;
    }
    let ghost ke = events@.filter(pe);
    let ghost se = events@.filter(ps);
    assert(events@.take(events@.len() as int) == events@);
    let ghost pa = assignment_kept(ke, filter, to);
    let ghost n_events = items@.len();
    let mut j: usize = 0;
    while j < assignments.len()
        invariant
            j <= assignments.len(),
            filter == effective_filter(opt_view(*course_filter)),
            pe == event_kept(filter),
            ke == events@.filter(pe),
            se == events@.filter(ps),
            pa == assignment_kept(ke, filter, to),
            (match filter_ref {
                Some(f) => Some(f@),
                None => None,
            }) == filter,
            offsets_fit(events@, assignments@, now, to, filter),
            n_events == se.len(),
            forall|id: i64|
                #![trigger listed@.contains(id)]
                listed@.contains(id) <==> listed_by_events(ke, id),
            items@.len() == n_events + assignments@.take(j as int).filter(pa).len(),
            forall|k: int| 0 <= k < n_events ==> is_event_item(#[trigger] items@[k], se[k], now),
            forall|k: int|
                0 <= k < assignments@.take(j as int).filter(pa).len() ==> is_assignment_item(
                    #[trigger] items@.skip(n_events as int)[k],
                    assignments@.take(j as int).filter(pa)[k],
                    now,
                ),
        decreases assignments.len() - j,
    {
        let a = &assignments[j];
        proof {
            assert(assignments@.take(j + 1) == assignments@.take(j as int).push(assignments@[j as int]));
            assignments@.take(j as int).lemma_filter_push(assignments@[j as int], pa);
        }
        let listed_already = contains_id(&listed, a.assignment.id);
        let course_ok = match filter_ref {
            None => true,
            Some(f) => text::str_eq(a.course_id.as_str(), f),
        };
        let in_range = match a.assignment.duedate {
            Some(d) => 0 < d && d <= to,
            None => false,
        };
        if !listed_already && course_ok && in_range {
            assert(pa(assignments@[j as int]));
            let ghost old_items = items@;
            let t = assignment_item(a, now);
            items.push(t);
            assert(items@.skip(n_events as int) == old_items.skip(n_events as int).push(t));
            assert forall|k: int| 0 <= k < n_events implies is_event_item(
                #[trigger] items@[k],
                se[k],
                now,
            ) by {
                assert(items@[k] == old_items[k]);
            }
        } else {
            assert(!pa(assignments@[j as int]));
        }
        j = j + 1;
    }
    assert(assignments@.take(assignments@.len() as int) == assignments@);
    items
}


// ---------------------------------------------------------------------------
// Ordering by deadline
// ---------------------------------------------------------------------------
/// The ordering key of an entry: seconds until due, entries without a
/// deadline last.
pub open spec fn sort_key(t: TodoItem) -> int {
    match t.due_in_seconds {
        Some(d) => d as int,
        None => i64::MAX as int,
    }
}

/// Whether `r` holds the first `k` entries of `s` reordered by `p` (entry
/// `i` of `r` is entry `p[i]` of `s`), in ascending key order, with entries
/// of equal key in their order in `s`.
pub open spec fn orders_prefix(r: Seq<TodoItem>, s: Seq<TodoItem>, p: Seq<int>, k: int) -> bool {
    &&& r.len() == k
    &&& p.len() == k
    &&& forall|i: int| 0 <= i < k ==> 0 <= #[trigger] p[i] < k && r[i] == s[p[i]]
    &&& forall|i: int, j: int| 0 <= i < j < k ==> #[trigger] p[i] != #[trigger] p[j]
    &&& forall|i: int, j: int| 0 <= i < j < k ==> sort_key(#[trigger] r[i]) <= sort_key(#[trigger] r[j])
    &&& forall|i: int, j: int|
        0 <= i < j < k && sort_key(#[trigger] r[i]) == sort_key(#[trigger] r[j]) ==> p[i] < p[j]
}

/// Whether `r` is `s` ordered by key, entries of equal key keeping their
/// relative order.
pub open spec fn sorted_stably(r: Seq<TodoItem>, s: Seq<TodoItem>) -> bool {
    exists|p: Seq<int>| #[trigger] orders_prefix(r, s, p, s.len() as int)
}

proof fn lemma_insert_in_order(out: Seq<TodoItem>, s: Seq<TodoItem>, p: Seq<int>, k: int, pos: int)
    requires
        0 <= k < s.len(),
        orders_prefix(out, s, p, k),
        0 <= pos <= k,
        forall|m: int| 0 <= m < pos ==> sort_key(#[trigger] out[m]) <= sort_key(s[k]),
        forall|m: int| pos <= m < k ==> sort_key(#[trigger] out[m]) > sort_key(s[k]),
    ensures
        orders_prefix(out.insert(pos, s[k]), s, p.insert(pos, k), k + 1),
{
    let r = out.insert(pos, s[k]);
    let q = p.insert(pos, k);
    out.insert_ensures(pos, s[k]);
    p.insert_ensures(pos, k);
    assert forall|i: int| 0 <= i < k + 1 implies 0 <= #[trigger] q[i] < k + 1 && r[i] == s[q[i]] by {
        if i > pos {
            assert(r[i] == out[i - 1]);
            assert(q[i] == p[i - 1]);
        }
    }
    assert forall|i: int, j: int| 0 <= i < j < k + 1 implies #[trigger] q[i] != #[trigger] q[j] by {
        if i < pos && j > pos {
            assert(q[j] == p[j - 1]);
        } else if i > pos {
            assert(q[i] == p[i - 1]);
            assert(q[j] == p[j - 1]);
        } else if j == pos {
            assert(q[i] == p[i]);
        } else if i == pos {
            assert(q[j] == p[j - 1]);
        }
    }
    assert forall|i: int, j: int| 0 <= i < j < k + 1 implies sort_key(#[trigger] r[i]) <= sort_key(
        #[trigger] r[j],
    ) by {
        if i < pos && j > pos {
            assert(r[j] == out[j - 1]);
        } else if i > pos {
            assert(r[i] == out[i - 1]);
            assert(r[j] == out[j - 1]);
        } else if i == pos {
            assert(r[j] == out[j - 1]);
        }
    }
    assert forall|i: int, j: int|
        0 <= i < j < k + 1 && sort_key(#[trigger] r[i]) == sort_key(#[trigger] r[j]) implies q[i]
        < q[j] by {
        if i < pos && j > pos {
            assert(r[j] == out[j - 1]);
            assert(q[j] == p[j - 1]);
        } else if i > pos {
            assert(r[i] == out[i - 1]);
            assert(r[j] == out[j - 1]);
            assert(q[i] == p[i - 1]);
            assert(q[j] == p[j - 1]);
        } else if i == pos {
            assert(r[j] == out[j - 1]);
        } else if j == pos {
            assert(q[i] == p[i]);
        }
    }
}

fn sort_key_exec(t: &TodoItem) -> (r: i64)
    ensures
        r as int == sort_key(*t),
{
    match t.due_in_seconds {
        Some(d) => d,
        None => i64::MAX,
    }
}

/// Orders the task list by seconds until due, soonest first and entries
/// without a deadline last; entries of equal key keep their order.
pub fn sort_todo_items(items: Vec<TodoItem>) -> (r: Vec<TodoItem>)
    ensures
        sorted_stably(r@, items@),
{
    let ghost s = items@;
    assert(s.len() == items.len());
    let mut rest = items;
    let mut out: Vec<TodoItem> = Vec::new();
    let ghost mut p: Seq<int> = Seq::empty();
    let mut k: usize = 0;
    while rest.len() > 0
        invariant
            k <= s.len(),
            s.len() <= usize::MAX,
            rest@ == s.skip(k as int),
            orders_prefix(out@, s, p, k as int),
        decreases rest.len(),
    {
        let x = rest.remove(0);
        assert(x == s[k as int]);
        assert(rest@ == s.skip(k + 1));
        let kx = sort_key_exec(&x);
        let mut pos: usize = 0;
        while pos < out.len()
            invariant
                pos <= out.len(),
                forall|m: int| 0 <= m < pos ==> sort_key(#[trigger] out@[m]) <= kx,
            ensures
                pos <= out.len(),
                forall|m: int| 0 <= m < pos ==> sort_key(#[trigger] out@[m]) <= kx,
                pos < out.len() ==> sort_key(out@[pos as int]) > kx,
            decreases out.len() - pos,
        {
            if sort_key_exec(&out[pos]) > kx {
                break;
            }
            pos = pos + 1;
        }
        proof {
            assert forall|m: int| pos <= m < k implies sort_key(#[trigger] out@[m]) > sort_key(
                s[k as int],
            ) by {
                if m > pos {
                    assert(sort_key(out@[pos as int]) <= sort_key(out@[m]));
                }
            }
            lemma_insert_in_order(out@, s, p, k as int, pos as int);
            p = p.insert(pos as int, k as int);
        }
        out.insert(pos, x);
        k = k + 1;
    }
    assert(s.skip(k as int).len() == 0);
    assert(orders_prefix(out@, s, p, s.len() as int));
    out
}


// ---------------------------------------------------------------------------
// The task list
// ---------------------------------------------------------------------------
/// Seconds in a day.
pub const DAY_SECONDS: i64 = 86400;

/// The end of the range: `days` days after `now`.
pub open spec fn range_end(now: i64, days: u32) -> int {
    now + days * DAY_SECONDS
}

/// The first `max_items` entries, or all of them without a limit.
pub open spec fn limited(r: Seq<TodoItem>, ordered: Seq<TodoItem>, max_items: Option<usize>) -> bool {
    match max_items {
        Some(m) => r == (if m <= ordered.len() {
            ordered.take(m as int)
        } else {
            ordered
        }),
        None => r == ordered,
    }
}

/// Whether `items` is the task list: the collected entries, ordered by
/// deadline, cut to `max_items`.
pub open spec fn is_todo_list(
    items: Seq<TodoItem>,
    events: Seq<ActionEvent>,
    assignments: Seq<AssignmentIndexItem>,
    now: i64,
    to: i64,
    filter: Option<Seq<char>>,
    include_submitted: bool,
    max_items: Option<usize>,
) -> bool {
    exists|u: Seq<TodoItem>, o: Seq<TodoItem>|
        #[trigger] collects(u, events, assignments, now, to, filter, include_submitted)
            && #[trigger] sorted_stably(o, u) && limited(items, o, max_items)
}

/// The task list for the `days` days from `now`: calendar events and
/// assignment rows merged, ordered by deadline and cut to `max_items`, with
/// the UTC dates of both ends of the range. `None` where `time` cannot give
/// the date of either end.
pub fn build_todo_payload(
    events: &Vec<ActionEvent>,
    assignments: &Vec<AssignmentIndexItem>,
    now: i64,
    days: u32,
    course_filter: &Option<String>,
    include_submitted: bool,
    max_items: Option<usize>,
) -> (r: Option<TodoPayload>)
    requires
        i64::MIN <= range_end(now, days) <= i64::MAX,
        offsets_fit(
            events@,
            assignments@,
            now,
            range_end(now, days) as i64,
            effective_filter(opt_view(*course_filter)),
        ),
    ensures
        match r {
            None => external::utc_date_of(now as int) is None || external::utc_date_of(
                range_end(now, days),
            ) is None,
            Some(p) => {
                &&& external::utc_date_of(now as int) == Some(p.range_from@)
                &&& external::utc_date_of(range_end(now, days)) == Some(p.range_to@)
                &&& is_todo_list(
                    p.items@,
                    events@,
                    assignments@,
                    now,
                    range_end(now, days) as i64,
                    effective_filter(opt_view(*course_filter)),
                    include_submitted,
                    max_items,
                )
            },
        },
{
    let to: i64 = now + (days as i64) * DAY_SECONDS;
    let collected = collect_todo_items(events, assignments, now, to, course_filter, include_submitted);
    let ghost u = collected@;
    let mut ordered = sort_todo_items(collected);
    let ghost o = ordered@;
    match max_items {
        Some(m) => ordered.truncate(m),
        None => {},
    }
    assert(limited(ordered@, o, max_items));
    assert(collects(
        u,
        events@,
        assignments@,
        now,
        to,
        effective_filter(opt_view(*course_filter)),
        include_submitted,
    ));
    assert(sorted_stably(o, u));
    let from_date = match external::utc_date(now) {
        Some(d) => d,
        None => {
            return None;
        },
    };
    let to_date = match external::utc_date(to) {
        Some(d) => d,
        None => {
            return None;
        },
    };
    Some(TodoPayload { range_from: from_date, range_to: to_date, items: ordered })
}


/// What `todo` prints.
#[derive(Debug, Clone)]
pub struct TodoOutput {
    pub schema_version: &'static str,
    pub generated_at: String,
    pub range_from: String,
    pub range_to: String,
    pub timezone: &'static str,
    pub cache_used: bool,
    pub cache_fetched_at: String,
    pub cache_ttl_seconds: u64,
    pub items: Vec<TodoItem>,
}

/// The `todo` document for a task list: its range in UTC, whether it was
/// read offline from the cache, the five-minute cache lifetime of task
/// lists, and the entries; no warnings.
pub fn todo_output(payload: TodoPayload, offline: bool, generated_at: String) -> (r: TodoOutput)
    ensures
        r.schema_version@ == "campus-lms.todo.v1"@,
        r.generated_at == generated_at,
        r.range_from == payload.range_from,
        r.range_to == payload.range_to,
        r.timezone@ == "UTC"@,
        r.cache_used == offline,
        r.cache_fetched_at == generated_at,
        r.cache_ttl_seconds == 300,
        r.items == payload.items,
{
    TodoOutput {
        schema_version: "campus-lms.todo.v1",
        generated_at: generated_at.clone(),
        range_from: payload.range_from,
        range_to: payload.range_to,
        timezone: "UTC",
        cache_used: offline,
        cache_fetched_at: generated_at,
        cache_ttl_seconds: 300,
        items: payload.items,
    }
}

// ---------------------------------------------------------------------------
// Laws of the task list
// ---------------------------------------------------------------------------
/// The urgency that a number of seconds until due stands for.
pub open spec fn priority_of_offset(offset: Option<i64>) -> Seq<char> {
    match offset {
        None => "unknown"@,
        Some(s) => if s < 0 {
            "overdue"@
        } else if s <= HIGH_PRIORITY_SECONDS {
            "high"@
        } else if s <= MEDIUM_PRIORITY_SECONDS {
            "medium"@
        } else {
            "low"@
        },
    }
}

proof fn lemma_collected_priority(
    u: Seq<TodoItem>,
    events: Seq<ActionEvent>,
    assignments: Seq<AssignmentIndexItem>,
    now: i64,
    to: i64,
    filter: Option<Seq<char>>,
    include_submitted: bool,
)
    requires
        collects(u, events, assignments, now, to, filter, include_submitted),
        offsets_fit(events, assignments, now, to, filter),
    ensures
        forall|i: int|
            0 <= i < u.len() ==> (#[trigger] u[i]).priority_hint@ == priority_of_offset(
                u[i].due_in_seconds,
            ),
        forall|i: int|
            0 <= i < u.len() && (#[trigger] u[i]).due_in_seconds is None ==> u[i].id@.take(9)
                == "calendar:"@,
        filter matches Some(f) ==> forall|i: int|
            0 <= i < u.len() ==> opt_view((#[trigger] u[i]).course_id) == Some(f),
{
    reveal_strlit("calendar:");
    let ke = events.filter(event_kept(filter));
    let se = events.filter(event_shown(filter, include_submitted));
    let ka = assignments.filter(assignment_kept(ke, filter, to));
    assert forall|i: int| 0 <= i < u.len() implies (#[trigger] u[i]).priority_hint@
        == priority_of_offset(u[i].due_in_seconds) by {
        if i < se.len() {
            assert(is_event_item(u[i], se[i], now));
            events.lemma_filter_pred(event_shown(filter, include_submitted), i);
            let e = se[i];
            assert(se.contains(e));
            events.lemma_filter_contains_rev(event_shown(filter, include_submitted), e);
            let w = choose|w: int| 0 <= w < events.len() && events[w] == e;
            assert(event_kept(filter)(events[w]));
        } else {
            let j = i - se.len();
            assert(u.skip(se.len() as int)[j] == u[i]);
            assert(is_assignment_item(u[i], ka[j], now));
            assignments.lemma_filter_pred(assignment_kept(ke, filter, to), j);
            let a = ka[j];
            assert(ka.contains(a));
            assignments.lemma_filter_contains_rev(assignment_kept(ke, filter, to), a);
            let w = choose|w: int| 0 <= w < assignments.len() && assignments[w] == a;
            assert(assignment_kept(ke, filter, to)(assignments[w]));
        }
    }
    assert forall|i: int|
        0 <= i < u.len() && (#[trigger] u[i]).due_in_seconds is None implies u[i].id@.take(9)
            == "calendar:"@ by {
        if i < se.len() {
            assert(is_event_item(u[i], se[i], now));
            assert(u[i].id@.take(9) =~= "calendar:"@);
        } else {
            let j = i - se.len();
            assert(u.skip(se.len() as int)[j] == u[i]);
            assert(is_assignment_item(u[i], ka[j], now));
            assignments.lemma_filter_pred(assignment_kept(ke, filter, to), j);
        }
    }
    assert forall|i: int| 0 <= i < u.len() && filter is Some implies opt_view(
        (#[trigger] u[i]).course_id,
    ) == filter by {
        if i < se.len() {
            assert(is_event_item(u[i], se[i], now));
            events.lemma_filter_pred(event_shown(filter, include_submitted), i);
        } else {
            let j = i - se.len();
            assert(u.skip(se.len() as int)[j] == u[i]);
            assert(is_assignment_item(u[i], ka[j], now));
            assignments.lemma_filter_pred(assignment_kept(ke, filter, to), j);
        }
    }
}

/// Every entry of the task list is ordered no later than the ones after it,
/// the list holds at most `max_items` entries, the urgency of each entry is
/// the one its seconds until due stand for, every entry has a deadline
/// except calendar events without one, and under a course filter every
/// entry belongs to that course.
pub proof fn law_todo_list_shape(
    items: Seq<TodoItem>,
    events: Seq<ActionEvent>,
    assignments: Seq<AssignmentIndexItem>,
    now: i64,
    to: i64,
    filter: Option<Seq<char>>,
    include_submitted: bool,
    max_items: Option<usize>,
)
    requires
        is_todo_list(items, events, assignments, now, to, filter, include_submitted, max_items),
        offsets_fit(events, assignments, now, to, filter),
    ensures
        forall|i: int, j: int|
            0 <= i < j < items.len() ==> sort_key(#[trigger] items[i]) <= sort_key(#[trigger] items[j]),
        max_items matches Some(m) ==> items.len() <= m,
        forall|i: int|
            0 <= i < items.len() ==> (#[trigger] items[i]).priority_hint@ == priority_of_offset(
                items[i].due_in_seconds,
            ),
        forall|i: int|
            0 <= i < items.len() && (#[trigger] items[i]).due_in_seconds is None ==> items[i].id@.take(
                9,
            ) == "calendar:"@,
        filter matches Some(f) ==> forall|i: int|
            0 <= i < items.len() ==> opt_view((#[trigger] items[i]).course_id) == Some(f),
{
    let (u, o) = choose|u: Seq<TodoItem>, o: Seq<TodoItem>|
        #[trigger] collects(u, events, assignments, now, to, filter, include_submitted)
            && #[trigger] sorted_stably(o, u) && limited(items, o, max_items);
    lemma_collected_priority(u, events, assignments, now, to, filter, include_submitted);
    let p = choose|p: Seq<int>| #[trigger] orders_prefix(o, u, p, u.len() as int);
    assert forall|i: int| 0 <= i < items.len() implies (#[trigger] items[i]).priority_hint@
        == priority_of_offset(items[i].due_in_seconds) by {
        assert(items[i] == o[i]);
        assert(o[i] == u[p[i]]);
    }
    assert forall|i: int|
        0 <= i < items.len() && (#[trigger] items[i]).due_in_seconds is None implies items[i].id@.take(
            9,
        ) == "calendar:"@ by {
        assert(items[i] == o[i]);
        assert(o[i] == u[p[i]]);
    }
    assert forall|i: int| 0 <= i < items.len() && filter is Some implies opt_view(
        (#[trigger] items[i]).course_id,
    ) == filter by {
        assert(items[i] == o[i]);
        assert(o[i] == u[p[i]]);
    }
    assert forall|i: int, j: int| 0 <= i < j < items.len() implies sort_key(#[trigger] items[i])
        <= sort_key(#[trigger] items[j]) by {
        assert(items[i] == o[i]);
        assert(items[j] == o[j]);
    }
}

/// `--course 123` and `--course course:123` name the same course: both
/// stand for the filter `course:123`, so they give the same task list
/// (`law_todo_list_shape`: every entry then belongs to `course:123`).
pub proof fn law_course_filter_spellings(id: i64)
    requires
        id > 0,
    ensures
        effective_filter(Some(int_decimal(id as int))) == Some("course:"@ + int_decimal(id as int)),
        effective_filter(Some("course:"@ + int_decimal(id as int))) == Some(
            "course:"@ + int_decimal(id as int),
        ),
{
    reveal_strlit("course:");
    let d = int_decimal(id as int);
    text::lemma_nat_decimal_reads_back(id as nat);
    assert(text::is_digit(d[0]));
    assert(!text::has_prefix(d, "course:"@)) by {
        if d.len() >= 7 {
            assert(d.take(7)[0] == d[0]);
        }
    }
    assert(text::strip_prefix_or_self(d, "course:"@) == d);
    let p = "course:"@ + d;
    assert(p.take(7) =~= "course:"@);
    assert(text::strip_prefix_or_self(p, "course:"@) =~= d);
    assert(text::signed_decimal_value(d) == Some(id as int));
}

/// Only an `assign` event stands for an assignment: the entry of any other
/// event has no detail command, and an assignment row is left out on an
/// event's account only where an `assign` event of that instance is kept.
pub proof fn law_only_assign_events_point_at_assignments(
    t: TodoItem,
    e: ActionEvent,
    now: i64,
    kept: Seq<ActionEvent>,
    id: i64,
)
    ensures
        is_event_item(t, e, now) && opt_view(e.modulename) != Some("assign"@) ==> t.detail_command
            is None,
        is_event_item(t, e, now) && opt_view(e.modulename) == Some("assign"@) ==> (e.instance
            matches Some(n) ==> opt_view(t.detail_command) == Some(
            "campus-lms assignment show assign:"@ + int_decimal(n as int) + " --json"@,
        )),
        listed_by_events(kept, id) <==> exists|i: int|
            0 <= i < kept.len() && opt_view((#[trigger] kept[i]).modulename) == Some("assign"@)
                && kept[i].instance == Some(id),
{
    if is_event_item(t, e, now) && opt_view(e.modulename) == Some("assign"@) {
        match e.instance {
            Some(n) => {
                reveal_strlit("campus-lms assignment show ");
                reveal_strlit("assign:");
                reveal_strlit("campus-lms assignment show assign:");
                assert(detail_command_for(n) =~= "campus-lms assignment show assign:"@
                    + int_decimal(n as int) + " --json"@);
            },
            None => {},
        }
    }
    if listed_by_events(kept, id) {
        let i = choose|i: int| 0 <= i < kept.len() && #[trigger] event_assignment(kept[i]) == Some(id);
        assert(opt_view(kept[i].modulename) == Some("assign"@));
    }
    if exists|i: int|
        0 <= i < kept.len() && opt_view((#[trigger] kept[i]).modulename) == Some("assign"@)
            && kept[i].instance == Some(id) {
        let i = choose|i: int|
            0 <= i < kept.len() && opt_view((#[trigger] kept[i]).modulename) == Some("assign"@)
                && kept[i].instance == Some(id);
        assert(event_assignment(kept[i]) == Some(id));
    }
}

} // verus!
