//! Assignment identifiers, the assignment index, what is cached of it and
//! how one assignment is rendered.

use vstd::prelude::*;

use crate::cache;
use crate::cli::{warning_detail_limit_spec, AssignmentShowArgs, Cli};
use crate::config::Profile;
use crate::dto::{
    converts_moodle_warning, report_spec, warning_report_with_limit, AssignmentDetailOutput,
    AssignmentOutput, AssignmentSubmissionOutput, AttachmentOutput, CacheMeta, Warning,
};
use crate::moodle::api::MoodleApi;
use crate::error::{is_invalid_argument, CampusError, Result};
use crate::external;
use crate::moodle::models::{
    Assignment, AssignmentCourse, AssignmentsResponse, LastAttempt, MoodleFile, MoodleWarning,
    Submission, SubmissionStatusResponse,
};
use crate::text::{self, opt_view};

verus! {

/// One assignment with the course it belongs to.
#[derive(Debug, Clone)]
pub struct AssignmentIndexItem {
    pub course_id: String,
    pub course_name: Option<String>,
    pub assignment: Assignment,
}

/// Every visible assignment and the warnings Moodle returned with them.
#[derive(Debug, Clone)]
pub struct AssignmentIndexPayload {
    pub items: Vec<AssignmentIndexItem>,
    pub warnings: Vec<Warning>,
}

/// What is cached of one assignment's detail view.
#[derive(Debug, Clone)]
pub struct AssignmentDetailCache {
    pub item: AssignmentIndexItem,
    pub submission: Option<SubmissionStatusResponse>,
    pub warnings: Vec<Warning>,
    pub description_text: Option<String>,
    pub description_html_available: bool,
}

// ---------------------------------------------------------------------------
// Copies
// ---------------------------------------------------------------------------
pub fn copy_file(f: &MoodleFile) -> (r: MoodleFile)
    ensures
        r == *f,
{
    MoodleFile {
        filename: text::clone_opt(&f.filename),
        filepath: text::clone_opt(&f.filepath),
        contenthash: text::clone_opt(&f.contenthash),
        pathnamehash: text::clone_opt(&f.pathnamehash),
        filesize: f.filesize,
        mimetype: text::clone_opt(&f.mimetype),
        fileurl: text::clone_opt(&f.fileurl),
    }
}

pub fn copy_files(fs: &Vec<MoodleFile>) -> (r: Vec<MoodleFile>)
    ensures
        r@ == fs@,
{
    let mut r: Vec<MoodleFile> = Vec::new();
    let n = fs.len();
    for i in 0..n
        invariant
            n == fs@.len(),
            r@ == fs@.take(i as int),
    {
        r.push(copy_file(&fs[i]));
        assert(fs@.take(i + 1) == fs@.take(i as int).push(fs@[i as int]));
    }
    assert(fs@.take(n as int) == fs@);
    r
}

/// Two assignments with the same fields and attachments.
pub open spec fn assignment_same(a: Assignment, b: Assignment) -> bool {
    a.id == b.id && a.cmid == b.cmid && a.course == b.course && a.name == b.name && a.intro
        == b.intro && a.duedate == b.duedate && a.allowsubmissionsfromdate
        == b.allowsubmissionsfromdate && a.cutoffdate == b.cutoffdate && a.introattachments@
        == b.introattachments@
}

/// Two index rows with the same course and assignment.
pub open spec fn item_same(a: AssignmentIndexItem, b: AssignmentIndexItem) -> bool {
    a.course_id == b.course_id && a.course_name == b.course_name && assignment_same(
        a.assignment,
        b.assignment,
    )
}

/// Two submission-status responses with the same attempt and warnings.
pub open spec fn status_same(a: SubmissionStatusResponse, b: SubmissionStatusResponse) -> bool {
    a.lastattempt == b.lastattempt && a.warnings@ == b.warnings@
}

pub fn copy_assignment(a: &Assignment) -> (r: Assignment)
    ensures
        assignment_same(r, *a),
{
    Assignment {
        id: a.id,
        cmid: a.cmid,
        course: a.course,
        name: text::clone_opt(&a.name),
        intro: text::clone_opt(&a.intro),
        duedate: a.duedate,
        allowsubmissionsfromdate: a.allowsubmissionsfromdate,
        cutoffdate: a.cutoffdate,
        introattachments: copy_files(&a.introattachments),
    }
}

pub fn copy_item(i: &AssignmentIndexItem) -> (r: AssignmentIndexItem)
    ensures
        item_same(r, *i),
{
    AssignmentIndexItem {
        course_id: i.course_id.clone(),
        course_name: text::clone_opt(&i.course_name),
        assignment: copy_assignment(&i.assignment),
    }
}

pub fn copy_warning(w: &Warning) -> (r: Warning)
    ensures
        r == *w,
{
    Warning {
        code: w.code.clone(),
        message: w.message.clone(),
        hint: text::clone_opt(&w.hint),
        item: text::clone_opt(&w.item),
        itemid: w.itemid,
    }
}

pub fn copy_warnings(ws: &Vec<Warning>) -> (r: Vec<Warning>)
    ensures
        r@ == ws@,
{
    let mut r: Vec<Warning> = Vec::new();
    let n = ws.len();
    for i in 0..n
        invariant
            n == ws@.len(),
            r@ == ws@.take(i as int),
    {
        r.push(copy_warning(&ws[i]));
        assert(ws@.take(i + 1) == ws@.take(i as int).push(ws@[i as int]));
    }
    assert(ws@.take(n as int) == ws@);
    r
}

pub fn copy_moodle_warning(w: &MoodleWarning) -> (r: MoodleWarning)
    ensures
        r == *w,
{
    MoodleWarning {
        item: text::clone_opt(&w.item),
        itemid: w.itemid,
        warningcode: text::clone_opt(&w.warningcode),
        message: text::clone_opt(&w.message),
    }
}

pub fn copy_submission_status(s: &SubmissionStatusResponse) -> (r: SubmissionStatusResponse)
    ensures
        status_same(r, *s),
{
    let lastattempt = match &s.lastattempt {
        Some(a) => Some(
            LastAttempt {
                submission: match &a.submission {
                    Some(sub) => Some(
                        Submission { status: text::clone_opt(&sub.status), timemodified: sub.timemodified },
                    ),
                    None => None,
                },
                gradingstatus: text::clone_opt(&a.gradingstatus),
            },
        ),
        None => None,
    };
    let mut warnings: Vec<MoodleWarning> = Vec::new();
    let n = s.warnings.len();
    for i in 0..n
        invariant
            n == s.warnings@.len(),
            warnings@ == s.warnings@.take(i as int),
    {
        warnings.push(copy_moodle_warning(&s.warnings[i]));
        assert(s.warnings@.take(i + 1) == s.warnings@.take(i as int).push(s.warnings@[i as int]));
    }
    assert(s.warnings@.take(n as int) == s.warnings@);
    SubmissionStatusResponse { lastattempt, warnings }
}

// ---------------------------------------------------------------------------
// Identifiers and time stamps
// ---------------------------------------------------------------------------
/// The assignment id `assign:<id>` or `<id>` denotes, if it parses as `i64`.
pub open spec fn assign_id_value(input: Seq<char>) -> Option<i64> {
    text::parse_i64_spec(text::strip_prefix_or_self(input, "assign:"@))
}

/// An assignment id printed as `assign:<id>` reads back as the same id.
pub proof fn law_assign_id_round_trip(id: i64)
    requires
        id > 0,
    ensures
        assign_id_value("assign:"@ + text::int_decimal(id as int)) == Some(id),
{
    reveal_strlit("assign:");
    let digits = text::int_decimal(id as int);
    text::lemma_nat_decimal_reads_back(id as nat);
    let s = "assign:"@ + digits;
    assert(s.subrange(0, 7) =~= "assign:"@);
    assert(text::has_prefix(s, "assign:"@));
    assert(text::strip_prefix_or_self(s, "assign:"@) =~= digits);
    assert(text::is_digit(digits[0]));
}

/// Reads an assignment id given as `assign:<id>` or `<id>`; it must be a
/// positive integer.
pub fn parse_assign_id(input: &str) -> (r: Result<i64>)
    ensures
        match assign_id_value(input@) {
            None => r matches Err(e) && is_invalid_argument(
                e,
                "assignment id must look like assign:12345"@,
                None,
            ),
            Some(id) => if id <= 0 {
                r matches Err(e) && is_invalid_argument(
                    e,
                    "assignment id must be a positive integer."@,
                    Some("Use an id such as assign:12345."@),
                )
            } else {
                r == Ok::<i64, CampusError>(id)
            },
        },
{
    let raw = text::strip_prefix_or_self_exec(input, "assign:");
    let raw_s = text::string_of(&raw);
    let id = match text::parse_i64(raw_s.as_str()) {
        Some(id) => id,
        None => {
            return Err(
                CampusError::invalid_argument("assignment id must look like assign:12345", None),
            );
        },
    };
    if id <= 0 {
        return Err(
            CampusError::invalid_argument(
                "assignment id must be a positive integer.",
                Some("Use an id such as assign:12345."),
            ),
        );
    }
    Ok(id)
}

/// The RFC 3339 text of a Moodle time stamp; Moodle uses 0 for "not set".
pub open spec fn ts_spec(timestamp: Option<i64>) -> Option<Seq<char>> {
    match timestamp {
        Some(t) => if t <= 0 {
            None
        } else {
            external::rfc3339_of(t as int)
        },
        None => None,
    }
}

pub fn ts(timestamp: Option<i64>) -> (r: Option<String>)
    ensures
        opt_view(r) == ts_spec(timestamp),
{
    let t = match timestamp {
        Some(t) => t,
        None => {
            return None;
        },
    };
    if t <= 0 {
        return None;
    }
    external::rfc3339_utc(t)
}

/// The first `max_chars` characters of a text.
pub fn truncate_chars(input: &str, max_chars: usize) -> (r: String)
    ensures
        r@ == input@.take(
            if max_chars < input@.len() {
                max_chars as int
            } else {
                input@.len() as int
            },
        ),
{
    let cs = text::chars_of(input);
    let end = if max_chars < cs.len() {
        max_chars
    } else {
        cs.len()
    };
    let kept = text::slice_chars(&cs, 0, end);
    assert(kept@ == cs@.take(end as int));
    text::string_of(&kept)
}

// ---------------------------------------------------------------------------
// The assignment index
// ---------------------------------------------------------------------------
/// `course:<id>`.
pub open spec fn course_ref(id: i64) -> Seq<char> {
    "course:"@ + text::int_decimal(id as int)
}

/// A course's display name: its full name, else its short name.
pub open spec fn course_display_name(c: AssignmentCourse) -> Option<Seq<char>> {
    match c.fullname {
        Some(f) => Some(f@),
        None => opt_view(c.shortname),
    }
}

/// Whether `item` is the index row of assignment `a` of course `c`.
pub open spec fn is_row_of(item: AssignmentIndexItem, c: AssignmentCourse, a: Assignment) -> bool {
    item.course_id@ == course_ref(c.id) && opt_view(item.course_name) == course_display_name(c)
        && assignment_same(item.assignment, a)
}

/// The number of assignments of the first `k` courses.
pub open spec fn rows_before(courses: Seq<AssignmentCourse>, k: int) -> int
    decreases k,
{
    if k <= 0 {
        0
    } else {
        rows_before(courses, k - 1) + courses[k - 1].assignments@.len()
    }
}

/// `items` lists, course by course and in order, one row per assignment.
pub open spec fn indexes(items: Seq<AssignmentIndexItem>, courses: Seq<AssignmentCourse>) -> bool {
    &&& items.len() == rows_before(courses, courses.len() as int)
    &&& forall|c: int, a: int|
        0 <= c < courses.len() && 0 <= a < courses[c].assignments@.len() ==> is_row_of(
            #[trigger] items[rows_before(courses, c) + a],
            courses[c],
            #[trigger] courses[c].assignments@[a],
        )
}

proof fn lemma_rows_before_mono(courses: Seq<AssignmentCourse>, j: int, k: int)
    requires
        0 <= j <= k <= courses.len(),
    ensures
        0 <= rows_before(courses, j) <= rows_before(courses, k),
    decreases k,
{
    if j < k {
        lemma_rows_before_mono(courses, j, k - 1);
    } else if j > 0 {
        lemma_rows_before_mono(courses, j - 1, j - 1);
    }
}

/// The assignment index built from Moodle's `mod_assign_get_assignments`
/// response.
pub fn index_from_response(response: &AssignmentsResponse) -> (r: AssignmentIndexPayload)
    ensures
        indexes(r.items@, response.courses@),
        r.warnings@.len() == response.warnings@.len(),
        forall|i: int|
            0 <= i < response.warnings@.len() ==> converts_moodle_warning(
                #[trigger] r.warnings@[i],
                response.warnings@[i],
            ),
{
    let mut warnings: Vec<Warning> = Vec::new();
    let nw = response.warnings.len();
    for i in 0..nw
        invariant
            nw == response.warnings@.len(),
            warnings@.len() == i,
            forall|j: int|
                0 <= j < i ==> converts_moodle_warning(
                    #[trigger] warnings@[j],
                    response.warnings@[j],
                ),
    {
        warnings.push(Warning::from_moodle_warning(&response.warnings[i]));
    }
    let mut items: Vec<AssignmentIndexItem> = Vec::new();
    let courses = &response.courses;
    let nc = courses.len();
    for c in 0..nc
        invariant
            nc == courses@.len(),
            items@.len() == rows_before(courses@, c as int),
            forall|cc: int, a: int|
                0 <= cc < c && 0 <= a < courses@[cc].assignments@.len() ==> is_row_of(
                    #[trigger] items@[rows_before(courses@, cc) + a],
                    courses@[cc],
                    #[trigger] courses@[cc].assignments@[a],
                ),
    {
        let course = &courses[c];
        let course_id = text::concat2("course:", text::i64_decimal(course.id).as_str());
        let course_name = match &course.fullname {
            Some(f) => Some(f.clone()),
            None => text::clone_opt(&course.shortname),
        };
        let na = course.assignments.len();
        let ghost base = items@.len();
        for a in 0..na
            invariant
                nc == courses@.len(),
                c < nc,
                *course == courses@[c as int],
                na == course.assignments@.len(),
                base == rows_before(courses@, c as int),
                items@.len() == base + a,
                course_id@ == course_ref(course.id),
                opt_view(course_name) == course_display_name(*course),
                forall|cc: int, aa: int|
                    0 <= cc < c && 0 <= aa < courses@[cc].assignments@.len() ==> is_row_of(
                        #[trigger] items@[rows_before(courses@, cc) + aa],
                        courses@[cc],
                        #[trigger] courses@[cc].assignments@[aa],
                    ),
                forall|aa: int|
                    0 <= aa < a ==> is_row_of(
                        #[trigger] items@[base + aa],
                        *course,
                        course.assignments@[aa],
                    ),
        {
            let ghost before = items@;
            items.push(
                AssignmentIndexItem {
                    course_id: course_id.clone(),
                    course_name: text::clone_opt(&course_name),
                    assignment: copy_assignment(&course.assignments[a]),
                },
            );
            proof {
                assert forall|cc: int, aa: int|
                    0 <= cc < c && 0 <= aa < courses@[cc].assignments@.len() implies is_row_of(
                    #[trigger] items@[rows_before(courses@, cc) + aa],
                    courses@[cc],
                    #[trigger] courses@[cc].assignments@[aa],
                ) by {
                    lemma_rows_before_mono(courses@, cc + 1, c as int);
                    lemma_rows_before_mono(courses@, cc, c as int);
                    assert(rows_before(courses@, cc + 1) == rows_before(courses@, cc)
                        + courses@[cc].assignments@.len());
                    assert(items@[rows_before(courses@, cc) + aa] == before[rows_before(
                        courses@,
                        cc,
                    ) + aa]);
                }
            }
        }
        proof {
            assert forall|cc: int, aa: int|
                0 <= cc < c + 1 && 0 <= aa < courses@[cc].assignments@.len() implies is_row_of(
                #[trigger] items@[rows_before(courses@, cc) + aa],
                courses@[cc],
                #[trigger] courses@[cc].assignments@[aa],
            ) by {
                if cc == c {
                    assert(items@[base + aa] == items@[rows_before(courses@, cc) + aa]);
                }
            }
        }
    }
    AssignmentIndexPayload { items, warnings }
}

// ---------------------------------------------------------------------------
// What is cached of the index
// ---------------------------------------------------------------------------
/// `r` is the index row `i` without the assignment's description and
/// attachments.
pub open spec fn redacted_row(r: AssignmentIndexItem, i: AssignmentIndexItem) -> bool {
    &&& r.course_id == i.course_id
    &&& r.course_name == i.course_name
    &&& r.assignment.id == i.assignment.id
    &&& r.assignment.cmid == i.assignment.cmid
    &&& r.assignment.course == i.assignment.course
    &&& r.assignment.name == i.assignment.name
    &&& r.assignment.intro is None
    &&& r.assignment.duedate == i.assignment.duedate
    &&& r.assignment.allowsubmissionsfromdate == i.assignment.allowsubmissionsfromdate
    &&& r.assignment.cutoffdate == i.assignment.cutoffdate
    &&& r.assignment.introattachments@.len() == 0
}

/// The index as it is written to the cache: descriptions and attachments
/// removed, everything else kept.
pub fn redact_assignment_cache(payload: &AssignmentIndexPayload) -> (r: AssignmentIndexPayload)
    ensures
        r.items@.len() == payload.items@.len(),
        forall|i: int| 0 <= i < r.items@.len() ==> redacted_row(#[trigger] r.items@[i], payload.items@[i]),
        r.warnings@ == payload.warnings@,
{
    let mut items: Vec<AssignmentIndexItem> = Vec::new();
    let n = payload.items.len();
    for k in 0..n
        invariant
            n == payload.items@.len(),
            items@.len() == k,
            forall|i: int| 0 <= i < k ==> redacted_row(#[trigger] items@[i], payload.items@[i]),
    {
        let it = &payload.items[k];
        let a = &it.assignment;
        items.push(
            AssignmentIndexItem {
                course_id: it.course_id.clone(),
                course_name: text::clone_opt(&it.course_name),
                assignment: Assignment {
                    id: a.id,
                    cmid: a.cmid,
                    course: a.course,
                    name: text::clone_opt(&a.name),
                    intro: None,
                    duedate: a.duedate,
                    allowsubmissionsfromdate: a.allowsubmissionsfromdate,
                    cutoffdate: a.cutoffdate,
                    introattachments: Vec::new(),
                },
            },
        );
    }
    AssignmentIndexPayload { items, warnings: copy_warnings(&payload.warnings) }
}

// ---------------------------------------------------------------------------
// Removing secrets from cached HTML
// ---------------------------------------------------------------------------
/// A character that ends a query value inside HTML.
pub open spec fn stop_char(c: char) -> bool {
    c == '&' || c == '"' || c == '\'' || c == '<' || c == '>'
}

/// The length of the leading run of `t` without a stop character.
pub open spec fn first_stop(t: Seq<char>) -> int
    decreases t.len(),
{
    if t.len() == 0 {
        0
    } else if stop_char(t[0]) {
        0
    } else {
        1 + first_stop(t.drop_first())
    }
}

pub proof fn lemma_first_stop_bounds(t: Seq<char>)
    ensures
        0 <= first_stop(t) <= t.len(),
    decreases t.len(),
{
    if t.len() > 0 && !stop_char(t[0]) {
        lemma_first_stop_bounds(t.drop_first());
    }
}

/// The first position at or after `from` where `p` occurs in `s`.
pub open spec fn find_first(s: Seq<char>, p: Seq<char>, from: int) -> Option<int>
    decreases s.len() + 1 - from,
{
    if from < 0 || from + p.len() > s.len() {
        None
    } else if text::occurs_at(s, p, from) {
        Some(from)
    } else {
        find_first(s, p, from + 1)
    }
}

proof fn lemma_find_first_found(s: Seq<char>, p: Seq<char>, from: int, at: int)
    requires
        0 <= from <= at,
        text::occurs_at(s, p, at),
        forall|k: int| from <= k < at ==> !text::occurs_at(s, p, k),
    ensures
        find_first(s, p, from) == Some(at),
    decreases at - from,
{
    if from < at {
        lemma_find_first_found(s, p, from + 1, at);
    }
}

proof fn lemma_find_first_none(s: Seq<char>, p: Seq<char>, from: int)
    requires
        0 <= from,
        forall|k: int| from <= k ==> !text::occurs_at(s, p, k),
    ensures
        find_first(s, p, from) is None,
    decreases s.len() + 1 - from,
{
    if from + p.len() <= s.len() {
        lemma_find_first_none(s, p, from + 1);
    }
}

pub proof fn lemma_find_first_range(s: Seq<char>, p: Seq<char>, from: int)
    ensures
        find_first(s, p, from) matches Some(at) ==> 0 <= from <= at && at + p.len() <= s.len(),
    decreases s.len() + 1 - from,
{
    if !(from < 0 || from + p.len() > s.len()) && !text::occurs_at(s, p, from) {
        lemma_find_first_range(s, p, from + 1);
    }
}

/// `s` with the value after every occurrence of `needle` replaced by
/// `REDACTED`; the value runs up to the next stop character.
pub open spec fn strip_spec(s: Seq<char>, needle: Seq<char>) -> Seq<char>
    decreases s.len(),
{
    if needle.len() == 0 {
        s
    } else {
        match find_first(s, needle, 0) {
            None => s,
            Some(i) => {
                let tail = s.skip(i + needle.len());
                proof {
                    lemma_find_first_range(s, needle, 0);
                    lemma_first_stop_bounds(tail);
                }
                s.take(i) + needle + "REDACTED"@ + strip_spec(tail.skip(first_stop(tail)), needle)
            },
        }
    }
}

proof fn lemma_occurs_skip(s: Seq<char>, p: Seq<char>, pos: int, k: int)
    requires
        0 <= pos <= s.len(),
        0 <= k,
    ensures
        text::occurs_at(s.skip(pos), p, k) == text::occurs_at(s, p, k + pos),
{
    if k + pos + p.len() <= s.len() {
        assert(s.skip(pos).subrange(k, k + p.len()) == s.subrange(k + pos, k + pos + p.len()));
    }
}

/// The length of the run of `s[from..]` without a stop character.
fn stop_index(s: &Vec<char>, from: usize) -> (r: usize)
    requires
        from <= s@.len(),
    ensures
        r == from + first_stop(s@.skip(from as int)),
        r <= s@.len(),
{
    let n = s.len();
    let mut j = from;
    while j < n && !(s[j] == '&' || s[j] == '"' || s[j] == '\'' || s[j] == '<' || s[j] == '>')
        invariant
            from <= j <= n,
            n == s@.len(),
            first_stop(s@.skip(from as int)) == (j - from) + first_stop(s@.skip(j as int)),
        decreases n - j,
    {
        assert(s@.skip(j as int).drop_first() == s@.skip(j + 1));
        j = j + 1;
    }
    proof {
        if j == n {
            assert(s@.skip(j as int).len() == 0);
        }
    }
    j
}

/// `input` with the value of every `key=` query parameter replaced by
/// `REDACTED`.
pub fn strip_query_value(input: &str, key: &str) -> (r: String)
    ensures
        r@ == strip_spec(input@, key@ + "="@),
{
    let s = text::chars_of(input);
    let needle_s = text::concat2(key, "=");
    let needle = text::chars_of(needle_s.as_str());
    let ghost whole = input@;
    let n = s.len();
    let mut out = String::new();
    let mut pos: usize = 0;
    assert(s@.skip(0) == s@);
    proof {
        reveal_strlit("=");
    }
    while pos <= n
        invariant
            n == s@.len(),
            s@ == whole,
            whole == input@,
            needle_s@ == needle@,
            needle@ == key@ + "="@,
            needle@.len() > 0,
            0 <= pos <= n,
            strip_spec(whole, needle@) == out@ + strip_spec(s@.skip(pos as int), needle@),
        decreases n - pos,
    {
        let ghost rest = s@.skip(pos as int);
        let ghost old_out = out@;
        match text::find_from(&s, &needle, pos) {
            Some(at) => {
                proof {
                    assert forall|k: int| 0 <= k < at - pos implies !text::occurs_at(
                        rest,
                        needle@,
                        k,
                    ) by {
                        lemma_occurs_skip(s@, needle@, pos as int, k);
                    }
                    lemma_occurs_skip(s@, needle@, pos as int, at - pos);
                    lemma_find_first_found(rest, needle@, 0, at - pos);
                }
                let value_start = at + needle.len();
                let end = stop_index(&s, value_start);
                let before = text::slice_chars(&s, pos, at);
                let before_s = text::string_of(&before);
                out.append(before_s.as_str());
                out.append(needle_s.as_str());
                out.append("REDACTED");
                proof {
                    let i = at - pos;
                    let tail = rest.skip(i + needle@.len());
                    assert(tail =~= s@.skip(value_start as int));
                    lemma_first_stop_bounds(tail);
                    assert(rest.take(i) == s@.subrange(pos as int, at as int));
                    assert(tail.skip(first_stop(tail)) =~= s@.skip(end as int));
                    assert(strip_spec(rest, needle@) == rest.take(i) + needle@ + "REDACTED"@
                        + strip_spec(s@.skip(end as int), needle@));
                }
                proof {
                    let i = at - pos;
                    assert(out@ == old_out + rest.take(i) + needle@ + "REDACTED"@);
                    assert(out@ + strip_spec(s@.skip(end as int), needle@) =~= old_out + (
                    rest.take(i) + needle@ + "REDACTED"@ + strip_spec(
                        s@.skip(end as int),
                        needle@,
                    )));
                }
                pos = end;
            },
            None => {
                proof {
                    assert forall|k: int| 0 <= k implies !text::occurs_at(rest, needle@, k) by {
                        lemma_occurs_skip(s@, needle@, pos as int, k);
                    }
                    lemma_find_first_none(rest, needle@, 0);
                }
                let tail = text::slice_chars(&s, pos, n);
                let tail_s = text::string_of(&tail);
                assert(tail@ == rest);
                assert(strip_spec(rest, needle@) == rest);
                out.append(tail_s.as_str());
                assert(out@ == old_out + rest);
                assert(out@ == strip_spec(whole, needle@));
                return out;
            },
        }
    }
    out
}

/// The three query parameters whose values are never cached.
pub open spec fn sanitize_spec(html: Seq<char>) -> Seq<char> {
    strip_spec(
        strip_spec(strip_spec(html, "wstoken"@ + "="@), "token"@ + "="@),
        "sesskey"@ + "="@,
    )
}

/// HTML as it may be cached: `wstoken`, `token` and `sesskey` values redacted.
pub fn sanitize_cached_html(input: String) -> (r: String)
    ensures
        r@ == sanitize_spec(input@),
{
    let a = strip_query_value(input.as_str(), "wstoken");
    let b = strip_query_value(a.as_str(), "token");
    strip_query_value(b.as_str(), "sesskey")
}

/// A query key whose `key=` can only occur where the scan put it back:
/// no `=` and no upper-case ASCII letter in it.
pub open spec fn plain_key(key: Seq<char>) -> bool {
    forall|i: int| 0 <= i < key.len() ==> key[i] != '=' && !('A' <= #[trigger] key[i] <= 'Z')
}

/// Every occurrence of `needle` in `s` is directly followed by `REDACTED`.
pub open spec fn redacted_after(s: Seq<char>, needle: Seq<char>) -> bool {
    forall|j: int|
        text::occurs_at(s, needle, j) ==> #[trigger] text::occurs_at(
            s,
            "REDACTED"@,
            j + needle.len(),
        )
}

proof fn lemma_occurs_char(s: Seq<char>, p: Seq<char>, at: int, t: int)
    requires
        text::occurs_at(s, p, at),
        0 <= t < p.len(),
    ensures
        s[at + t] == p[t],
{
    assert(s.subrange(at, at + p.len())[t] == s[at + t]);
}

proof fn lemma_find_first_occurs(s: Seq<char>, p: Seq<char>, from: int)
    ensures
        find_first(s, p, from) matches Some(at) ==> text::occurs_at(s, p, at),
    decreases s.len() + 1 - from,
{
    if !(from < 0 || from + p.len() > s.len()) && !text::occurs_at(s, p, from) {
        lemma_find_first_occurs(s, p, from + 1);
    }
}

proof fn lemma_find_first_minimal(s: Seq<char>, p: Seq<char>, from: int, k: int)
    requires
        0 <= from <= k,
        match find_first(s, p, from) {
            Some(at) => k < at,
            None => true,
        },
    ensures
        !text::occurs_at(s, p, k),
    decreases k - from,
{
    if from + p.len() <= s.len() && from < k {
        lemma_find_first_minimal(s, p, from + 1, k);
    }
}

/// After `strip_query_value` with a plain key, no value of that key is left:
/// every `key=` in the result is followed by `REDACTED`.
pub proof fn law_stripped_values_are_redacted(s: Seq<char>, key: Seq<char>)
    requires
        plain_key(key),
    ensures
        redacted_after(strip_spec(s, key + "="@), key + "="@),
    decreases s.len(),
{
    reveal_strlit("=");
    reveal_strlit("REDACTED");
    let n = key + "="@;
    let len = n.len();
    let r = "REDACTED"@;
    assert(n[len - 1] == '=');
    assert forall|t: int| 0 <= t < len - 1 implies n[t] != '=' && !('A' <= #[trigger] n[t] <= 'Z') by {
        assert(n[t] == key[t]);
    }
    match find_first(s, n, 0) {
        None => {
            assert(strip_spec(s, n) == s);
            assert forall|j: int| text::occurs_at(s, n, j) implies #[trigger] text::occurs_at(
                s,
                r,
                j + len,
            ) by {
                lemma_find_first_minimal(s, n, 0, j);
            }
        },
        Some(i) => {
            lemma_find_first_range(s, n, 0);
            let tail = s.skip(i + len);
            lemma_first_stop_bounds(tail);
            let rest = tail.skip(first_stop(tail));
            let o2 = strip_spec(rest, n);
            law_stripped_values_are_redacted(rest, key);
            let a = s.take(i);
            let out = strip_spec(s, n);
            assert(out == a + n + r + o2);
            assert forall|j: int| text::occurs_at(out, n, j) implies #[trigger] text::occurs_at(
                out,
                r,
                j + len,
            ) by {
                if j + len <= i {
                    assert forall|t: int| 0 <= t < len implies s[j + t] == n[t] by {
                        lemma_occurs_char(out, n, j, t);
                    }
                    assert(s.subrange(j, j + len) =~= n);
                    lemma_find_first_minimal(s, n, 0, j);
                } else if j < i {
                    lemma_occurs_char(out, n, j, len - 1);
                    assert(out[j + len - 1] == n[j + len - 1 - i]);
                } else if j == i {
                    assert(out.subrange(j + len, j + len + 8) =~= r);
                } else if j < i + len {
                    if j + len - 1 < i + len + 8 {
                        lemma_occurs_char(out, n, j, len - 1);
                        assert(out[j + len - 1] == r[j + len - 1 - i - len]);
                    } else {
                        lemma_occurs_char(out, n, j, i + len - j);
                        assert(out[i + len] == r[0]);
                    }
                } else if j < i + len + 8 {
                    lemma_occurs_char(out, n, j, 0);
                    assert(out[j] == r[j - i - len]);
                } else {
                    let k = j - (i + len + 8);
                    assert forall|t: int| 0 <= t < len implies o2[k + t] == n[t] by {
                        lemma_occurs_char(out, n, j, t);
                    }
                    assert(o2.subrange(k, k + len) =~= n);
                    assert(text::occurs_at(o2, n, k));
                    assert(text::occurs_at(o2, r, k + len));
                    assert forall|t: int| 0 <= t < 8 implies out[j + len + t] == r[t] by {
                        lemma_occurs_char(o2, r, k + len, t);
                    }
                    assert(out.subrange(j + len, j + len + 8) =~= r);
                }
            }
        },
    }
}

proof fn lemma_strip_keeps_redacted(s: Seq<char>, key1: Seq<char>, key2: Seq<char>)
    requires
        plain_key(key1),
        plain_key(key2),
        redacted_after(s, key1 + "="@),
    ensures
        redacted_after(strip_spec(s, key2 + "="@), key1 + "="@),
    decreases s.len(),
{
    reveal_strlit("=");
    reveal_strlit("REDACTED");
    let n1 = key1 + "="@;
    let n2 = key2 + "="@;
    let l1 = n1.len();
    let l2 = n2.len();
    let r = "REDACTED"@;
    assert(n1[l1 - 1] == '=');
    assert(n2[l2 - 1] == '=');
    assert forall|t: int| 0 <= t < l1 - 1 implies n1[t] != '=' && !('A' <= #[trigger] n1[t] <= 'Z') by {
        assert(n1[t] == key1[t]);
    }
    assert forall|t: int| 0 <= t < l2 - 1 implies n2[t] != '=' && !('A' <= #[trigger] n2[t] <= 'Z') by {
        assert(n2[t] == key2[t]);
    }
    match find_first(s, n2, 0) {
        None => {
            assert(strip_spec(s, n2) == s);
        },
        Some(i) => {
            lemma_find_first_range(s, n2, 0);
            lemma_find_first_occurs(s, n2, 0);
            let tail = s.skip(i + l2);
            lemma_first_stop_bounds(tail);
            let off = i + l2 + first_stop(tail);
            let rest = tail.skip(first_stop(tail));
            assert forall|k: int| text::occurs_at(rest, n1, k) implies #[trigger] text::occurs_at(
                rest,
                r,
                k + l1,
            ) by {
                assert forall|t: int| 0 <= t < l1 implies s[off + k + t] == n1[t] by {
                    lemma_occurs_char(rest, n1, k, t);
                }
                assert(s.subrange(off + k, off + k + l1) =~= n1);
                assert(text::occurs_at(s, r, off + k + l1));
                assert forall|t: int| 0 <= t < 8 implies rest[k + l1 + t] == r[t] by {
                    lemma_occurs_char(s, r, off + k + l1, t);
                }
                assert(rest.subrange(k + l1, k + l1 + 8) =~= r);
            }
            lemma_strip_keeps_redacted(rest, key1, key2);
            let o2 = strip_spec(rest, n2);
            let a = s.take(i);
            let out = strip_spec(s, n2);
            assert(out == a + n2 + r + o2);
            assert forall|t: int| 0 <= t < i + l2 implies out[t] == s[t] by {
                if t >= i {
                    lemma_occurs_char(s, n2, i, t - i);
                }
            }
            assert forall|j: int| text::occurs_at(out, n1, j) implies #[trigger] text::occurs_at(
                out,
                r,
                j + l1,
            ) by {
                if j + l1 <= i {
                    assert forall|t: int| 0 <= t < l1 implies s[j + t] == n1[t] by {
                        lemma_occurs_char(out, n1, j, t);
                    }
                    assert(s.subrange(j, j + l1) =~= n1);
                    assert(text::occurs_at(s, r, j + l1));
                    if j + l1 + 8 > i + l2 {
                        lemma_occurs_char(s, r, j + l1, i + l2 - 1 - (j + l1));
                        lemma_occurs_char(s, n2, i, l2 - 1);
                    }
                    assert forall|t: int| 0 <= t < 8 implies out[j + l1 + t] == r[t] by {
                        lemma_occurs_char(s, r, j + l1, t);
                    }
                    assert(out.subrange(j + l1, j + l1 + 8) =~= r);
                } else if j < i + l2 {
                    let q = j + l1 - 1;
                    if q < i + l2 - 1 {
                        lemma_occurs_char(out, n1, j, l1 - 1);
                        assert(out[q] == n2[q - i]);
                    } else if q == i + l2 - 1 {
                        assert(out.subrange(j + l1, j + l1 + 8) =~= r);
                    } else {
                        lemma_occurs_char(out, n1, j, i + l2 - j);
                        assert(out[i + l2] == r[0]);
                    }
                } else if j < i + l2 + 8 {
                    lemma_occurs_char(out, n1, j, 0);
                    assert(out[j] == r[j - i - l2]);
                } else {
                    let k = j - (i + l2 + 8);
                    assert forall|t: int| 0 <= t < l1 implies o2[k + t] == n1[t] by {
                        lemma_occurs_char(out, n1, j, t);
                    }
                    assert(o2.subrange(k, k + l1) =~= n1);
                    assert(text::occurs_at(o2, r, k + l1));
                    assert forall|t: int| 0 <= t < 8 implies out[j + l1 + t] == r[t] by {
                        lemma_occurs_char(o2, r, k + l1, t);
                    }
                    assert(out.subrange(j + l1, j + l1 + 8) =~= r);
                }
            }
        },
    }
}

/// HTML made fit for the cache keeps no value of `wstoken`, `token` or
/// `sesskey`: every `wstoken=`, `token=` and `sesskey=` in it is followed by
/// `REDACTED`.
pub proof fn law_cached_html_keeps_no_secret(html: Seq<char>)
    ensures
        redacted_after(sanitize_spec(html), "wstoken"@ + "="@),
        redacted_after(sanitize_spec(html), "token"@ + "="@),
        redacted_after(sanitize_spec(html), "sesskey"@ + "="@),
{
    reveal_strlit("wstoken");
    reveal_strlit("token");
    reveal_strlit("sesskey");
    let ws = "wstoken"@;
    let tk = "token"@;
    let sk = "sesskey"@;
    assert(plain_key(ws));
    assert(plain_key(tk));
    assert(plain_key(sk));
    let x1 = strip_spec(html, ws + "="@);
    let x2 = strip_spec(x1, tk + "="@);
    law_stripped_values_are_redacted(html, ws);
    law_stripped_values_are_redacted(x1, tk);
    lemma_strip_keeps_redacted(x1, ws, tk);
    law_stripped_values_are_redacted(x2, sk);
    lemma_strip_keeps_redacted(x2, ws, sk);
    lemma_strip_keeps_redacted(x2, tk, sk);
}

// ---------------------------------------------------------------------------
// Descriptions
// ---------------------------------------------------------------------------
/// The plain text of an assignment description; empty where the renderer
/// fails.
pub open spec fn html_to_text_spec(html: Seq<char>) -> Seq<char> {
    match external::html_text_of(html) {
        Some(t) => t,
        None => Seq::empty(),
    }
}

pub fn html_to_text(html: &str) -> (r: String)
    ensures
        r@ == html_to_text_spec(html@),
{
    match external::html_text(html) {
        Some(t) => t,
        None => String::new(),
    }
}

/// `r` is `detail` as it may be cached: the description kept as text (and as
/// sanitized HTML only when asked), attachment URLs dropped.
pub open spec fn redacted_detail(
    r: AssignmentDetailCache,
    detail: AssignmentDetailCache,
    cache_html: bool,
) -> bool {
    let a = detail.item.assignment;
    let ra = r.item.assignment;
    &&& r.item.course_id == detail.item.course_id
    &&& r.item.course_name == detail.item.course_name
    &&& ra.id == a.id && ra.cmid == a.cmid && ra.course == a.course && ra.name == a.name
    &&& ra.duedate == a.duedate && ra.allowsubmissionsfromdate == a.allowsubmissionsfromdate
    &&& ra.cutoffdate == a.cutoffdate
    &&& opt_view(ra.intro) == if cache_html {
        match a.intro {
            Some(h) => Some(sanitize_spec(h@)),
            None => None,
        }
    } else {
        None
    }
    &&& ra.introattachments@.len() == a.introattachments@.len()
    &&& forall|i: int|
        0 <= i < a.introattachments@.len() ==> {
            let f = #[trigger] ra.introattachments@[i];
            let g = a.introattachments@[i];
            f.filename == g.filename && f.filepath == g.filepath && f.contenthash
                == g.contenthash && f.pathnamehash == g.pathnamehash && f.filesize == g.filesize
                && f.mimetype == g.mimetype && f.fileurl is None
        }
    &&& match (r.submission, detail.submission) {
        (Some(x), Some(y)) => status_same(x, y),
        (None, None) => true,
        _ => false,
    }
    &&& r.warnings@ == detail.warnings@
    &&& opt_view(r.description_text) == match detail.description_text {
        Some(t) => Some(t@),
        None => match a.intro {
            Some(h) => Some(html_to_text_spec(h@)),
            None => None,
        },
    }
    &&& r.description_html_available == a.intro is Some
}

pub fn redact_assignment_detail_cache(detail: &AssignmentDetailCache, cache_html: bool) -> (r:
    AssignmentDetailCache)
    ensures
        redacted_detail(r, *detail, cache_html),
{
    let a = &detail.item.assignment;
    let description_text = match &detail.description_text {
        Some(t) => Some(t.clone()),
        None => match &a.intro {
            Some(h) => Some(html_to_text(h.as_str())),
            None => None,
        },
    };
    let intro = if cache_html {
        match &a.intro {
            Some(h) => Some(sanitize_cached_html(h.clone())),
            None => None,
        }
    } else {
        None
    };
    let mut files: Vec<MoodleFile> = Vec::new();
    let n = a.introattachments.len();
    for i in 0..n
        invariant
            n == a.introattachments@.len(),
            files@.len() == i,
            forall|k: int|
                0 <= k < i ==> {
                    let f = #[trigger] files@[k];
                    let g = a.introattachments@[k];
                    f.filename == g.filename && f.filepath == g.filepath && f.contenthash
                        == g.contenthash && f.pathnamehash == g.pathnamehash && f.filesize
                        == g.filesize && f.mimetype == g.mimetype && f.fileurl is None
                },
    {
        let g = &a.introattachments[i];
        files.push(
            MoodleFile {
                filename: text::clone_opt(&g.filename),
                filepath: text::clone_opt(&g.filepath),
                contenthash: text::clone_opt(&g.contenthash),
                pathnamehash: text::clone_opt(&g.pathnamehash),
                filesize: g.filesize,
                mimetype: text::clone_opt(&g.mimetype),
                fileurl: None,
            },
        );
    }
    AssignmentDetailCache {
        item: AssignmentIndexItem {
            course_id: detail.item.course_id.clone(),
            course_name: text::clone_opt(&detail.item.course_name),
            assignment: Assignment {
                id: a.id,
                cmid: a.cmid,
                course: a.course,
                name: text::clone_opt(&a.name),
                intro,
                duedate: a.duedate,
                allowsubmissionsfromdate: a.allowsubmissionsfromdate,
                cutoffdate: a.cutoffdate,
                introattachments: files,
            },
        },
        submission: match &detail.submission {
            Some(x) => Some(copy_submission_status(x)),
            None => None,
        },
        warnings: copy_warnings(&detail.warnings),
        description_text,
        description_html_available: a.intro.is_some(),
    }
}

// ---------------------------------------------------------------------------
// Finding an assignment and its warnings
// ---------------------------------------------------------------------------
/// The numeric id in a `course:<id>` reference.
pub open spec fn course_ref_id(course_id: Seq<char>) -> Option<i64> {
    if text::has_prefix(course_id, "course:"@) {
        text::parse_i64_spec(course_id.skip(7))
    } else {
        None
    }
}

/// Whether a warning concerns the assignment or its course.
pub open spec fn concerns(w: Warning, assignment_id: i64, course: Option<i64>) -> bool {
    match (opt_view(w.item), w.itemid) {
        (Some(item), Some(itemid)) => if item == "assign"@ || item == "assignment"@ {
            itemid == assignment_id
        } else if item == "course"@ {
            course == Some(itemid)
        } else {
            false
        },
        _ => false,
    }
}

pub open spec fn concerns_pred(assignment_id: i64, course: Option<i64>) -> spec_fn(Warning) -> bool {
    |w: Warning| concerns(w, assignment_id, course)
}

/// The warnings that concern one assignment or its course, in order.
pub fn filter_assignment_warnings(warnings: Vec<Warning>, assignment_id: i64, course_id: &str) -> (r:
    Vec<Warning>)
    ensures
        r@ == warnings@.filter(concerns_pred(assignment_id, course_ref_id(course_id@))),
{
    let cs = text::chars_of(course_id);
    let prefix = text::chars_of("course:");
    let course: Option<i64> = if text::has_prefix_exec(&cs, &prefix) {
        let rest = text::slice_chars(&cs, prefix.len(), cs.len());
        let rest_s = text::string_of(&rest);
        proof {
            reveal_strlit("course:");
        }
        text::parse_i64(rest_s.as_str())
    } else {
        None
    };
    let ghost pred = concerns_pred(assignment_id, course_ref_id(course_id@));
    let mut out: Vec<Warning> = Vec::new();
    let n = warnings.len();
    for i in 0..n
        invariant
            n == warnings@.len(),
            pred == concerns_pred(assignment_id, course_ref_id(course_id@)),
            course == course_ref_id(course_id@),
            out@ == warnings@.take(i as int).filter(pred),
    {
        let w = &warnings[i];
        let keep = match (&w.item, w.itemid) {
            (Some(item), Some(itemid)) => {
                if text::str_eq(item.as_str(), "assign") || text::str_eq(item.as_str(), "assignment") {
                    itemid == assignment_id
                } else if text::str_eq(item.as_str(), "course") {
                    match course {
                        Some(c) => c == itemid,
                        None => false,
                    }
                } else {
                    false
                }
            },
            _ => false,
        };
        proof {
            warnings@.take(i as int).lemma_filter_push(warnings@[i as int], pred);
            assert(warnings@.take(i + 1) == warnings@.take(i as int).push(warnings@[i as int]));
        }
        if keep {
            out.push(copy_warning(w));
        }
    }
    assert(warnings@.take(n as int) == warnings@);
    out
}

/// The index row of the assignment `id`, or `NOT_FOUND`.
pub fn find_assignment(payload: &AssignmentIndexPayload, id: i64, json: bool) -> (r: Result<
    AssignmentIndexItem,
>)
    ensures
        match r {
            Ok(item) => exists|i: int|
                0 <= i < payload.items@.len() && payload.items@[i].assignment.id == id && (forall|
                    j: int,
                | 0 <= j < i ==> payload.items@[j].assignment.id != id) && item_same(
                    item,
                    payload.items@[i],
                ),
            Err(e) => {
                &&& forall|i: int|
                    0 <= i < payload.items@.len() ==> payload.items@[i].assignment.id != id
                &&& e matches CampusError::NotFound { message, json: j }
                &&& j == json
                &&& message@ == "assignment assign:"@ + text::int_decimal(id as int)
                    + " was not found in visible courses"@
            },
        },
{
    let n = payload.items.len();
    for i in 0..n
        invariant
            n == payload.items@.len(),
            forall|j: int| 0 <= j < i ==> payload.items@[j].assignment.id != id,
    {
        if payload.items[i].assignment.id == id {
            return Ok(copy_item(&payload.items[i]));
        }
    }
    let mut message = text::concat2("assignment assign:", text::i64_decimal(id).as_str());
    message.append(" was not found in visible courses");
    Err(CampusError::NotFound { message, json })
}

// ---------------------------------------------------------------------------
// Cache keys and attachment ids
// ---------------------------------------------------------------------------
/// Course ids joined by commas.
pub open spec fn join_ids(ids: Seq<i64>) -> Seq<char>
    decreases ids.len(),
{
    if ids.len() == 0 {
        Seq::empty()
    } else if ids.len() == 1 {
        text::int_decimal(ids[0] as int)
    } else {
        join_ids(ids.drop_last()) + ","@ + text::int_decimal(ids.last() as int)
    }
}

/// The cache file of the assignment index for a set of courses (`all` when
/// no course is named).
pub open spec fn assignments_cache_key_spec(namespace: Seq<char>, course_ids: Seq<i64>) -> Seq<
    char,
> {
    let scope = if course_ids.len() == 0 {
        "all"@
    } else {
        join_ids(course_ids)
    };
    cache::profile_key_spec("assignments"@, namespace, "v3:courses="@ + scope)
}

pub fn assignments_cache_key(namespace: &str, course_ids: &[i64]) -> (r: String)
    ensures
        r@ == assignments_cache_key_spec(namespace@, course_ids@),
{
    let n = course_ids.len();
    let mut scope = String::new();
    if n == 0 {
        scope = text::owned("all");
    } else {
        for i in 0..n
            invariant
                n == course_ids@.len(),
                n > 0,
                i == 0 ==> scope@ == Seq::<char>::empty(),
                i > 0 ==> scope@ == join_ids(course_ids@.take(i as int)),
        {
            let d = text::i64_decimal(course_ids[i]);
            if i > 0 {
                scope.append(",");
            }
            scope.append(d.as_str());
            assert(course_ids@.take(i + 1).drop_last() == course_ids@.take(i as int));
        }
        assert(course_ids@.take(n as int) == course_ids@);
    }
    let input = text::concat2("v3:courses=", scope.as_str());
    cache::profile_key("assignments", namespace, input.as_str())
}

/// An optional string, or nothing.
pub open spec fn or_empty(o: Option<String>) -> Seq<char> {
    match o {
        Some(s) => s@,
        None => Seq::empty(),
    }
}

/// The text whose digest identifies an attachment: the assignment id and the
/// file's content hash, path hash, name, path, size and MIME type.
pub open spec fn attachment_fingerprint(assign_id: i64, file: MoodleFile) -> Seq<char> {
    text::int_decimal(assign_id as int) + or_empty(file.contenthash) + or_empty(file.pathnamehash)
        + or_empty(file.filename) + or_empty(file.filepath) + text::int_decimal(
        match file.filesize {
            Some(n) => n as int,
            None => 0,
        },
    ) + or_empty(file.mimetype)
}

/// `file:sha256:<digest>`.
pub open spec fn attachment_id_spec(assign_id: i64, file: MoodleFile) -> Seq<char> {
    "file:sha256:"@ + external::sha256_hex_of(attachment_fingerprint(assign_id, file))
}

fn append_opt(out: &mut String, o: &Option<String>)
    ensures
        final(out)@ == old(out)@ + or_empty(*o),
{
    match o {
        Some(s) => out.append(s.as_str()),
        None => {},
    }
}

pub fn stable_attachment_id(assign_id: i64, file: &MoodleFile) -> (r: String)
    ensures
        r@ == attachment_id_spec(assign_id, *file),
        r@.len() == 76,
        r@.take(12) == "file:sha256:"@,
        external::lower_hex_digest(r@.skip(12)),
{
    let mut text_in = text::i64_decimal(assign_id);
    append_opt(&mut text_in, &file.contenthash);
    append_opt(&mut text_in, &file.pathnamehash);
    append_opt(&mut text_in, &file.filename);
    append_opt(&mut text_in, &file.filepath);
    let size = match file.filesize {
        Some(n) => n,
        None => 0,
    };
    text_in.append(text::i64_decimal(size).as_str());
    append_opt(&mut text_in, &file.mimetype);
    let digest = external::sha256_hex(text_in.as_str());
    let r = text::concat2("file:sha256:", digest.as_str());
    proof {
        reveal_strlit("file:sha256:");
        assert(r@.take(12) =~= "file:sha256:"@);
        assert(r@.skip(12) =~= digest@);
    }
    r
}

/// An attachment's id does not depend on its download URL, so ids stay the
/// same whether or not the URL was cached.
pub proof fn law_attachment_id_ignores_url(assign_id: i64, file: MoodleFile, url: Option<String>)
    ensures
        attachment_id_spec(assign_id, MoodleFile { fileurl: url, ..file }) == attachment_id_spec(
            assign_id,
            file,
        ),
{
}

// ---------------------------------------------------------------------------
// Rendering one assignment
// ---------------------------------------------------------------------------
/// The description text shown: the cached text, else the rendered HTML,
/// else nothing.
pub open spec fn description_text_spec(detail: AssignmentDetailCache) -> Seq<char> {
    match detail.description_text {
        Some(t) => t@,
        None => match detail.item.assignment.intro {
            Some(h) => html_to_text_spec(h@),
            None => Seq::empty(),
        },
    }
}

/// The assignment's page: `mod/assign/view.php?id=<cmid, else id>` resolved
/// against the base URL; empty where that fails.
pub open spec fn assignment_url_spec(base_url: Seq<char>, a: Assignment) -> Seq<char> {
    let page_id = match a.cmid {
        Some(c) => c,
        None => a.id,
    };
    match external::url_join_of(base_url, "mod/assign/view.php?id="@ + text::int_decimal(page_id as int)) {
        Ok(u) => u,
        Err(_) => Seq::empty(),
    }
}

/// The attachment row shown for a Moodle file.
pub open spec fn attachment_row(r: AttachmentOutput, assign_id: i64, f: MoodleFile) -> bool {
    &&& r.id@ == attachment_id_spec(assign_id, f)
    &&& r.name@ == match f.filename {
        Some(n) => n@,
        None => "attachment"@,
    }
    &&& r.mime_type == f.mimetype
    &&& r.size_bytes == f.filesize
    &&& r.download_url_available == f.fileurl is Some
    &&& r.download_command is None
}

/// The submission state Moodle reported, as shown.
pub open spec fn submission_status_spec(s: Option<SubmissionStatusResponse>) -> Seq<char> {
    match s {
        Some(x) => match x.lastattempt {
            Some(a) => match a.submission {
                Some(sub) => match sub.status {
                    Some(st) => st@,
                    None => "unknown"@,
                },
                None => "unknown"@,
            },
            None => "unknown"@,
        },
        None => "unknown"@,
    }
}

pub open spec fn last_modified_spec(s: Option<SubmissionStatusResponse>) -> Option<Seq<char>> {
    match s {
        Some(x) => match x.lastattempt {
            Some(a) => match a.submission {
                Some(sub) => ts_spec(sub.timemodified),
                None => None,
            },
            None => None,
        },
        None => None,
    }
}

pub open spec fn grading_status_spec(s: Option<SubmissionStatusResponse>) -> Option<String> {
    match s {
        Some(x) => match x.lastattempt {
            Some(a) => a.gradingstatus,
            None => None,
        },
        None => None,
    }
}

/// Where the submission state came from.
pub open spec fn status_source_spec(has_submission: bool, cache_used: bool) -> Seq<char> {
    if has_submission {
        if cache_used {
            "cache"@
        } else {
            "live"@
        }
    } else {
        "unavailable"@
    }
}

/// `out` is the assignment document for `detail`.
pub open spec fn renders(
    out: AssignmentOutput,
    detail: AssignmentDetailCache,
    args: AssignmentShowArgs,
    cache_meta: CacheMeta,
    base_url: Seq<char>,
    limit: Option<usize>,
) -> bool {
    let a = detail.item.assignment;
    let o = out.assignment;
    let text = description_text_spec(detail);
    let kept = if args.max_chars < text.len() {
        args.max_chars as int
    } else {
        text.len() as int
    };
    &&& out.schema_version@ == "campus-lms.assignment.v2"@
    &&& out.cache == cache_meta
    &&& o.id@ == "assign:"@ + text::int_decimal(a.id as int)
    &&& o.moodle_id == a.id
    &&& o.cmid == a.cmid
    &&& o.course_id == detail.item.course_id
    &&& o.course_name == detail.item.course_name
    &&& o.title == a.name
    &&& opt_view(o.due_at) == ts_spec(a.duedate)
    &&& opt_view(o.allows_submission_from) == ts_spec(a.allowsubmissionsfromdate)
    &&& opt_view(o.cutoff_at) == ts_spec(a.cutoffdate)
    &&& o.description_text@ == text.take(kept)
    &&& o.description_truncated == (text.len() > args.max_chars)
    &&& o.description_original_length_chars == text.len()
    &&& o.description_html == if args.include_html {
        a.intro
    } else {
        None
    }
    &&& o.description_html_available == (a.intro is Some || detail.description_html_available)
    &&& o.attachments@.len() == a.introattachments@.len()
    &&& forall|i: int|
        0 <= i < a.introattachments@.len() ==> attachment_row(
            #[trigger] o.attachments@[i],
            a.id,
            a.introattachments@[i],
        )
    &&& o.submission.status@ == submission_status_spec(detail.submission)
    &&& o.submission.status_source@ == status_source_spec(
        detail.submission is Some,
        cache_meta.used,
    )
    &&& opt_view(o.submission.last_modified_at) == last_modified_spec(detail.submission)
    &&& o.submission.grading_status == grading_status_spec(detail.submission)
    &&& o.url@ == assignment_url_spec(base_url, a)
    &&& exists|report: crate::dto::WarningReport|
        report_spec(report, detail.warnings@, limit) && out.warnings_summary == report.summary
            && out.warnings_total_count == report.total_count && out.warnings_returned_count
            == report.returned_count && out.warnings_details_truncated == report.details_truncated
            && out.warnings == report.details
}

/// The assignment document shown by `assignment show`.
pub fn render_assignment_output(
    cli: &Cli,
    args: &AssignmentShowArgs,
    detail: AssignmentDetailCache,
    cache_meta: CacheMeta,
    profile: &Profile,
) -> (r: Result<AssignmentOutput>)
    ensures
        match warning_detail_limit_spec(opt_view(cli.warning_details), cli.verbose) {
            None => r matches Err(e) && e is InvalidArgument && crate::error::json_spec(e)
                == cli.json,
            Some(limit) => r matches Ok(out) && renders(
                out,
                detail,
                *args,
                cache_meta,
                profile.base_url@,
                limit,
            ),
        },
{
    let limit = match crate::cli::warning_detail_limit(cli) {
        Ok(l) => l,
        Err(e) => {
            return Err(e.with_json(cli.json));
        },
    };
    let ghost d = detail;
    let a = &detail.item.assignment;
    let description_text = match &detail.description_text {
        Some(t) => t.clone(),
        None => match &a.intro {
            Some(h) => html_to_text(h.as_str()),
            None => String::new(),
        },
    };
    let text_chars = text::chars_of(description_text.as_str());
    let original_len = text_chars.len();
    let truncated_text = truncate_chars(description_text.as_str(), args.max_chars);
    let page_id = match a.cmid {
        Some(c) => c,
        None => a.id,
    };
    let page = text::concat2("mod/assign/view.php?id=", text::i64_decimal(page_id).as_str());
    let assignment_url = match external::url_join(profile.base_url.as_str(), page.as_str()) {
        Ok(u) => u,
        Err(_) => String::new(),
    };
    let mut attachments: Vec<AttachmentOutput> = Vec::new();
    let n = a.introattachments.len();
    for i in 0..n
        invariant
            n == a.introattachments@.len(),
            attachments@.len() == i,
            forall|k: int|
                0 <= k < i ==> attachment_row(
                    #[trigger] attachments@[k],
                    a.id,
                    a.introattachments@[k],
                ),
    {
        let f = &a.introattachments[i];
        let name = match &f.filename {
            Some(n) => n.clone(),
            None => text::owned("attachment"),
        };
        attachments.push(
            AttachmentOutput {
                id: stable_attachment_id(a.id, f),
                name,
                mime_type: text::clone_opt(&f.mimetype),
                size_bytes: f.filesize,
                download_url_available: f.fileurl.is_some(),
                download_command: None,
            },
        );
    }
    let has_submission = detail.submission.is_some();
    let status_source = if has_submission {
        if cache_meta.used {
            text::owned("cache")
        } else {
            text::owned("live")
        }
    } else {
        text::owned("unavailable")
    };
    let mut submission_status = text::owned("unknown");
    let mut last_modified_at: Option<String> = None;
    let mut grading_status: Option<String> = None;
    match &detail.submission {
        Some(x) => match &x.lastattempt {
            Some(att) => {
                grading_status = text::clone_opt(&att.gradingstatus);
                match &att.submission {
                    Some(sub) => {
                        match &sub.status {
                            Some(st) => {
                                submission_status = st.clone();
                            },
                            None => {},
                        }
                        last_modified_at = ts(sub.timemodified);
                    },
                    None => {},
                }
            },
            None => {},
        },
        None => {},
    }
    let description_html = if args.include_html {
        text::clone_opt(&a.intro)
    } else {
        None
    };
    let html_available = a.intro.is_some() || detail.description_html_available;
    let assignment = AssignmentDetailOutput {
        id: text::concat2("assign:", text::i64_decimal(a.id).as_str()),
        moodle_id: a.id,
        cmid: a.cmid,
        course_id: detail.item.course_id.clone(),
        course_name: text::clone_opt(&detail.item.course_name),
        title: text::clone_opt(&a.name),
        due_at: ts(a.duedate),
        allows_submission_from: ts(a.allowsubmissionsfromdate),
        cutoff_at: ts(a.cutoffdate),
        description_text: truncated_text,
        description_truncated: original_len > args.max_chars,
        description_original_length_chars: original_len,
        description_html,
        description_html_available: html_available,
        attachments,
        submission: AssignmentSubmissionOutput {
            status: submission_status,
            status_source,
            last_modified_at,
            grading_status,
        },
        url: assignment_url,
    };
    let report = warning_report_with_limit(detail.warnings, limit);
    Ok(
        AssignmentOutput {
            schema_version: "campus-lms.assignment.v2",
            generated_at: crate::output::generated_at(),
            cache: cache_meta,
            assignment,
            warnings_summary: report.summary,
            warnings_total_count: report.total_count,
            warnings_returned_count: report.returned_count,
            warnings_details_truncated: report.details_truncated,
            warnings: report.details,
        },
    )
}

/// `p` is the index of some response Moodle may have returned.
pub open spec fn is_index_of(p: AssignmentIndexPayload, response: AssignmentsResponse) -> bool {
    &&& indexes(p.items@, response.courses@)
    &&& p.warnings@.len() == response.warnings@.len()
    &&& forall|i: int|
        0 <= i < response.warnings@.len() ==> converts_moodle_warning(
            #[trigger] p.warnings@[i],
            response.warnings@[i],
        )
}

/// Whether `r` is what indexing comes to for some answer of `client` to
/// `assignments(course_ids)`: that answer's error, or the index of it.
pub open spec fn index_from_answers<T: MoodleApi>(
    client: &T,
    course_ids: Seq<i64>,
    r: Result<AssignmentIndexPayload>,
) -> bool {
    exists|answer: Result<AssignmentsResponse>|
        #[trigger] client.answers_assignments(course_ids, answer) && match answer {
            Err(e) => r == Err::<AssignmentIndexPayload, CampusError>(e),
            Ok(response) => r matches Ok(p) && is_index_of(p, response),
        }
}

/// Asks Moodle for the assignments of the given courses (all visible ones
/// when none is named) and indexes the answer.
pub fn fetch_assignments_from_api<T: MoodleApi>(client: &T, course_ids: &[i64]) -> (r: Result<
    AssignmentIndexPayload,
>)
    ensures
        index_from_answers(client, course_ids@, r),
{
    let answer = client.assignments(course_ids);
    assert(client.answers_assignments(course_ids@, answer));
    match answer {
        Ok(response) => {
            let r: Result<AssignmentIndexPayload> = Ok(index_from_response(&response));
            assert(is_index_of(r->Ok_0, response));
            r
        },
        Err(e) => Err(e),
    }
}


// ---------------------------------------------------------------------------
// The steps of `assignment show`
// ---------------------------------------------------------------------------
/// Where `assignment show` takes the detail from next.
#[derive(Debug, Clone, Copy)]
pub enum ShowStep {
    /// Read the detail cache.
    ReadDetailCache,
    /// Rebuild the detail from a cached assignment index.
    FromIndexCache,
    /// Ask Moodle, and cache the detail afterwards where `write_cache`.
    Live { write_cache: bool },
}

/// The next source of `assignment show`, once the flags have passed
/// `check_show_args`: the detail cache first, unless `--no-cache` (which
/// neither reads nor writes it); where that gave nothing (`cache_tried`),
/// the index cache under `--offline`, else Moodle.
pub fn show_step(args: &AssignmentShowArgs, cache_tried: bool) -> (r: ShowStep)
    ensures
        !cache_tried && !args.no_cache ==> r is ReadDetailCache,
        cache_tried || args.no_cache ==> if args.offline {
            r is FromIndexCache
        } else {
            r matches ShowStep::Live { write_cache } && write_cache == !args.no_cache
        },
{
    if !cache_tried && !args.no_cache {
        ShowStep::ReadDetailCache
    } else if args.offline {
        ShowStep::FromIndexCache
    } else {
        ShowStep::Live { write_cache: !args.no_cache }
    }
}

/// The flag checks of `assignment show`, in order: cache flags, the
/// description limit, and `--offline` against `--no-cache`.
pub fn check_show_args(args: &AssignmentShowArgs, json: bool) -> (r: Result<()>)
    ensures
        r is Ok <==> !(args.refresh && args.offline) && args.max_chars <= 100_000 && !(args.offline
            && args.no_cache),
        args.refresh && args.offline ==> (r matches Err(e) && e is InvalidArgument
            && e->InvalidArgument_json == json && e->InvalidArgument_message@
            == "--refresh and --offline cannot be used together."@ && opt_view(
            e->InvalidArgument_hint,
        ) == Some("Choose either --refresh or --offline."@)),
        !(args.refresh && args.offline) && args.max_chars > 100_000 ==> (r matches Err(e)
            && e is InvalidArgument && e->InvalidArgument_json == json
            && e->InvalidArgument_message@ == "--max-chars must be 100000 or less."@
            && e->InvalidArgument_hint is None),
        !(args.refresh && args.offline) && args.max_chars <= 100_000 && args.offline
            && args.no_cache ==> (r matches Err(e) && e is InvalidArgument && e->InvalidArgument_json
            == json && e->InvalidArgument_message@ == "--offline cannot be used with --no-cache."@
            && opt_view(e->InvalidArgument_hint) == Some(
            "Use --offline to read cache, or --no-cache to force a live read."@,
        )),
{
    match crate::cli::ensure_cache_flags(args.refresh, args.offline) {
        Ok(()) => {},
        Err(e) => {
            return Err(e.with_json(json));
        },
    }
    match crate::cli::ensure_max_chars(args.max_chars) {
        Ok(()) => {},
        Err(e) => {
            return Err(e.with_json(json));
        },
    }
    if args.offline && args.no_cache {
        return Err(
            CampusError::invalid_argument(
                "--offline cannot be used with --no-cache.",
                Some("Use --offline to read cache, or --no-cache to force a live read."),
            ).with_json(json),
        );
    }
    Ok(())
}

/// The cache entry name of one assignment's detail in a profile namespace.
pub fn detail_cache_key(namespace: &str, id: i64) -> (r: String)
    ensures
        r@ == cache::profile_key_spec(
            "assignment-show"@,
            namespace@,
            "v4:"@ + text::int_decimal(id as int),
        ),
{
    let input = text::concat2("v4:", text::i64_decimal(id).as_str());
    cache::profile_key("assignment-show", namespace, input.as_str())
}

/// The warning that marks a detail rebuilt from the cached index.
pub open spec fn reconstructed_warning(w: Warning) -> bool {
    &&& w.code@ == "ASSIGNMENT_DETAIL_RECONSTRUCTED_FROM_INDEX_CACHE"@
    &&& w.message@ == "Assignment detail was reconstructed from cached assignment index data."@
    &&& opt_view(w.hint) == Some(
        "Submission status may be unknown because --offline does not contact Moodle."@,
    )
    &&& w.item is None
    &&& w.itemid is None
}

/// The detail of assignment `id` rebuilt from a cached index: its row, the
/// index warnings that concern it, and a warning that no submission status
/// was fetched.
pub fn offline_detail(payload: &AssignmentIndexPayload, id: i64, json: bool) -> (r: Result<
    AssignmentDetailCache,
>)
    ensures
        (exists|i: int| 0 <= i < payload.items@.len() && payload.items@[i].assignment.id == id)
            <==> r is Ok,
        match r {
            Ok(d) => {
                &&& d.item.assignment.id == id
                &&& (exists|i: int|
                    0 <= i < payload.items@.len() && item_same(d.item, payload.items@[i]))
                &&& d.submission is None
                &&& d.description_text is None
                &&& !d.description_html_available
                &&& d.warnings@.len() > 0
                &&& d.warnings@.drop_last() == payload.warnings@.filter(
                    concerns_pred(id, course_ref_id(d.item.course_id@)),
                )
                &&& reconstructed_warning(d.warnings@.last())
            },
            Err(e) => e matches CampusError::NotFound { message, json: j } && j == json && message@
                == "assignment assign:"@ + text::int_decimal(id as int)
                + " was not found in visible courses"@,
        },
{
    let item = match find_assignment(payload, id, json) {
        Ok(item) => item,
        Err(e) => {
            return Err(e);
        },
    };
    let mut warnings = filter_assignment_warnings(
        copy_warnings(&payload.warnings),
        id,
        item.course_id.as_str(),
    );
    let ghost kept = warnings@;
    warnings.push(
        Warning::new(
            "ASSIGNMENT_DETAIL_RECONSTRUCTED_FROM_INDEX_CACHE",
            "Assignment detail was reconstructed from cached assignment index data.",
            Some(
                text::owned(
                    "Submission status may be unknown because --offline does not contact Moodle.",
                ),
            ),
        ),
    );
    assert(warnings@.drop_last() == kept);
    Ok(
        AssignmentDetailCache {
            item,
            submission: None,
            warnings,
            description_text: None,
            description_html_available: false,
        },
    )
}

/// The warning recorded when the submission status could not be fetched.
pub open spec fn submission_unavailable_warning(w: Warning, e: CampusError) -> bool {
    &&& w.code@ == "SUBMISSION_STATUS_UNAVAILABLE"@
    &&& w.message@ == crate::error::display_spec(e)
    &&& opt_view(w.hint) == Some(
        "Assignment details were returned, but submission status could not be fetched."@,
    )
    &&& w.item is None
    &&& w.itemid is None
}

/// Whether a failure ends `assignment show` rather than leaving the status
/// unknown: missing or rejected credentials and refused access.
pub open spec fn is_access_failure(e: CampusError) -> bool {
    e is AuthRequired || e is AuthExpired || e is PermissionDenied
}

/// How the submission-status call's result enters the detail: its warnings
/// follow the given ones; an access failure ends the command; any other
/// failure leaves the status unknown with a warning.
pub fn submission_outcome(
    result: Result<SubmissionStatusResponse>,
    warnings: Vec<Warning>,
    json: bool,
) -> (r: Result<(Option<SubmissionStatusResponse>, Vec<Warning>)>)
    ensures
        match result {
            Ok(s) => r matches Ok((sub, ws)) && sub == Some(s) && ws@.len() == warnings@.len()
                + s.warnings@.len() && ws@.take(warnings@.len() as int) == warnings@ && (forall|
                i: int,
            |
                0 <= i < s.warnings@.len() ==> converts_moodle_warning(
                    #[trigger] ws@[warnings@.len() + i],
                    s.warnings@[i],
                )),
            Err(e) => if is_access_failure(e) {
                r matches Err(x) && x == crate::error::with_json_spec(e, json)
            } else {
                r matches Ok((sub, ws)) && sub is None && ws@.drop_last() == warnings@
                    && ws@.len() == warnings@.len() + 1 && submission_unavailable_warning(
                    ws@.last(),
                    e,
                )
            },
        },
{
    let mut warnings = warnings;
    match result {
        Ok(s) => {
            let ghost start = warnings@;
            let n = s.warnings.len();
            for i in 0..n
                invariant
                    n == s.warnings@.len(),
                    warnings@.len() == start.len() + i,
                    warnings@.take(start.len() as int) == start,
                    forall|k: int|
                        0 <= k < i ==> converts_moodle_warning(
                            #[trigger] warnings@[start.len() + k],
                            s.warnings@[k],
                        ),
            {
                let ghost before = warnings@;
                warnings.push(Warning::from_moodle_warning(&s.warnings[i]));
                assert(warnings@.take(start.len() as int) == before.take(start.len() as int));
                assert forall|k: int| 0 <= k < i + 1 implies converts_moodle_warning(
                    #[trigger] warnings@[start.len() + k],
                    s.warnings@[k],
                ) by {
                    if k < i {
                        assert(warnings@[start.len() + k] == before[start.len() + k]);
                    }
                }
            }
            Ok((Some(s), warnings))
        },
        Err(e) => {
            match e {
                CampusError::AuthRequired { .. } | CampusError::AuthExpired { .. }
                | CampusError::PermissionDenied { .. } => {
                    return Err(e.with_json(json));
                },
                _ => {},
            }
            let message = e.display_text();
            let ghost before = warnings@;
            warnings.push(
                Warning::new(
                    "SUBMISSION_STATUS_UNAVAILABLE",
                    message.as_str(),
                    Some(
                        text::owned(
                            "Assignment details were returned, but submission status could not be fetched.",
                        ),
                    ),
                ),
            );
            assert(warnings@.drop_last() == before);
            Ok((None, warnings))
        },
    }
}

/// `d` is the live detail of assignment `id` built from the index `p` and
/// the answer `status` to the submission-status call: the first row of `p`
/// for the assignment, the warnings of `p` that concern it followed by those
/// the status call brought (or the warning that it failed), and the status.
pub open spec fn detail_of_answers(
    d: AssignmentDetailCache,
    p: AssignmentIndexPayload,
    id: i64,
    status: Result<SubmissionStatusResponse>,
) -> bool {
    let base = p.warnings@.filter(concerns_pred(id, course_ref_id(d.item.course_id@)));
    &&& exists|i: int|
        0 <= i < p.items@.len() && (#[trigger] p.items@[i]).assignment.id == id && (forall|j: int|
            0 <= j < i ==> p.items@[j].assignment.id != id) && item_same(d.item, p.items@[i])
    &&& d.description_text is None
    &&& !d.description_html_available
    &&& match status {
        Ok(s) => {
            &&& d.submission == Some(s)
            &&& d.warnings@.len() == base.len() + s.warnings@.len()
            &&& d.warnings@.take(base.len() as int) == base
            &&& forall|i: int|
                0 <= i < s.warnings@.len() ==> converts_moodle_warning(
                    #[trigger] d.warnings@[base.len() + i],
                    s.warnings@[i],
                )
        },
        Err(e) => {
            &&& !is_access_failure(e)
            &&& d.submission is None
            &&& d.warnings@.len() == base.len() + 1
            &&& d.warnings@.drop_last() == base
            &&& submission_unavailable_warning(d.warnings@.last(), e)
        },
    }
}

/// Whether `e` is how the live detail of assignment `id` fails for some
/// answers of `client`: the index call's error; else, where the index does
/// not list the assignment, that it was not found; else the access failure
/// the submission-status call answered. Each carries the `json` flag.
pub open spec fn detail_error_of_answers<T: MoodleApi>(
    client: &T,
    id: i64,
    json: bool,
    e: CampusError,
) -> bool {
    exists|answer: Result<AssignmentIndexPayload>|
        #[trigger] index_from_answers(client, Seq::<i64>::empty(), answer) && match answer {
            Err(x) => e == crate::error::with_json_spec(x, json),
            Ok(p) => if !lists_assignment(p, id) {
                e matches CampusError::NotFound { message, json: j } && j == json && message@
                    == "assignment assign:"@ + text::int_decimal(id as int)
                    + " was not found in visible courses"@
            } else {
                exists|status: Result<SubmissionStatusResponse>|
                    #[trigger] client.answers_submission_status(id, status) && (status matches Err(
                        x,
                    ) && is_access_failure(x) && e == crate::error::with_json_spec(x, json))
            },
        }
}

/// The live detail of assignment `id`: the assignment index of every
/// visible course, the row of the assignment, the warnings that concern it,
/// and its submission status. Every error carries the `json` flag.
pub fn fetch_assignment_detail<T: MoodleApi>(client: &T, id: i64, json: bool) -> (r: Result<
    AssignmentDetailCache,
>)
    ensures
        r matches Ok(d) ==> exists|answer: Result<AssignmentIndexPayload>,
            status: Result<SubmissionStatusResponse>|
            #![trigger index_from_answers(client, Seq::<i64>::empty(), answer), client.answers_submission_status(id, status)]
            index_from_answers(client, Seq::<i64>::empty(), answer) && answer is Ok
                && client.answers_submission_status(id, status) && detail_of_answers(
                d,
                answer->Ok_0,
                id,
                status,
            ),
        r matches Err(e) ==> detail_error_of_answers(client, id, json, e),
        r matches Err(e) ==> crate::error::json_spec(e) == json,
{
    let no_ids: Vec<i64> = Vec::new();
    let index = fetch_assignments_from_api(client, no_ids.as_slice());
    let ghost answer = index;
    assert(no_ids@ =~= Seq::<i64>::empty());
    assert(index_from_answers(client, Seq::<i64>::empty(), answer));
    let payload = match index {
        Ok(p) => p,
        Err(e) => {
            proof {
                crate::error::law_with_json_keeps_classification(e, json);
                assert(detail_error_of_answers(client, id, json, crate::error::with_json_spec(e, json)));
            }
            return Err(e.with_json(json));
        },
    };
    let item = match find_assignment(&payload, id, json) {
        Ok(item) => item,
        Err(e) => {
            proof {
                assert(!lists_assignment(payload, id));
                assert(detail_error_of_answers(client, id, json, e));
            }
            return Err(e);
        },
    };
    assert(lists_assignment(payload, id));
    let warnings = filter_assignment_warnings(
        copy_warnings(&payload.warnings),
        id,
        item.course_id.as_str(),
    );
    let result = client.submission_status(id);
    let ghost status = result;
    let (submission, warnings) = match submission_outcome(result, warnings, json) {
        Ok(x) => x,
        Err(e) => {
            proof {
                match status {
                    Err(e0) => {
                        crate::error::law_with_json_keeps_classification(e0, json);
                    },
                    Ok(_) => {},
                }
                assert(client.answers_submission_status(id, status));
                assert(detail_error_of_answers(client, id, json, e));
            }
            return Err(e);
        },
    };
    let d = AssignmentDetailCache {
        item,
        submission,
        warnings,
        description_text: None,
        description_html_available: false,
    };
    proof {
        assert(client.answers_submission_status(id, status));
        assert(detail_of_answers(d, payload, id, status));
    }
    Ok(d)
}


/// Whether the index lists assignment `id`.
pub open spec fn lists_assignment(p: AssignmentIndexPayload, id: i64) -> bool {
    exists|i: int| 0 <= i < p.items@.len() && (#[trigger] p.items@[i]).assignment.id == id
}

fn lists_assignment_exec(p: &AssignmentIndexPayload, id: i64) -> (r: bool)
    ensures
        r == lists_assignment(*p, id),
{
    let n = p.items.len();
    for i in 0..n
        invariant
            n == p.items@.len(),
            forall|k: int| 0 <= k < i ==> (#[trigger] p.items@[k]).assignment.id != id,
    {
        if p.items[i].assignment.id == id {
            return true;
        }
    }
    false
}

/// The cached index that serves an offline `assignment show`: the first of
/// the cached indexes (the all-courses index first) that lists the
/// assignment.
pub fn cached_assignment_index(candidates: Vec<cache::CacheEntry<AssignmentIndexPayload>>, assignment_id: i64) -> (r: Option<
    cache::CacheEntry<AssignmentIndexPayload>,
>)
    ensures
        match r {
            Some(e) => exists|i: int|
                0 <= i < candidates@.len() && candidates@[i] == e && lists_assignment(e.value, assignment_id)
                    && forall|j: int| 0 <= j < i ==> !lists_assignment(#[trigger] candidates@[j].value, assignment_id),
            None => forall|i: int|
                0 <= i < candidates@.len() ==> !lists_assignment(#[trigger] candidates@[i].value, assignment_id),
        },
{
    let ghost all = candidates@;
    assert(all.len() == candidates.len());
    let mut rest = candidates;
    let mut k: usize = 0;
    let mut found: Option<cache::CacheEntry<AssignmentIndexPayload>> = None;
    while rest.len() > 0
        invariant_except_break
            found is None,
            rest@ == all.skip(k as int),
        invariant
            k <= all.len(),
            all.len() <= usize::MAX,
            forall|j: int| 0 <= j < k ==> !lists_assignment(#[trigger] all[j].value, assignment_id),
        ensures
            match found {
                Some(e) => k < all.len() && all[k as int] == e && lists_assignment(e.value, assignment_id),
                None => k == all.len(),
            },
        decreases rest.len(),
    {
        let e = rest.remove(0);
        assert(e == all[k as int]);
        assert(rest@ == all.skip(k + 1));
        if lists_assignment_exec(&e.value, assignment_id) {
            found = Some(e);
            break;
        }
        k = k + 1;
    }
    proof {
        if found is None {
            assert(all.skip(k as int).len() == 0);
        }
    }
    found
}

/// The assignment index of the given courses: the cached one where the
/// cache gave one, none under `--offline` otherwise, else a fresh one from
/// Moodle (the flag says it is to be cached).
pub fn fetch_assignments_for_courses<T: MoodleApi>(
    cached: Option<AssignmentIndexPayload>,
    offline: bool,
    client: &T,
    course_ids: &[i64],
) -> (r: Result<(AssignmentIndexPayload, bool)>)
    ensures
        match cached {
            Some(p) => r == Ok::<(AssignmentIndexPayload, bool), CampusError>((p, false)),
            None => if offline {
                r matches Err(e) && e is Cache && !e->Cache_json && e->Cache_message@
                    == "offline cache miss for assignments"@
            } else {
                exists|answer: Result<AssignmentIndexPayload>|
                    #[trigger] index_from_answers(client, course_ids@, answer) && match answer {
                        Err(e) => r == Err::<(AssignmentIndexPayload, bool), CampusError>(e),
                        Ok(p) => r == Ok::<(AssignmentIndexPayload, bool), CampusError>((p, true)),
                    }
            },
        },
{
    match cached {
        Some(p) => Ok((p, false)),
        None => {
            if offline {
                return Err(CampusError::cache("offline cache miss for assignments"));
            }
            let answer = fetch_assignments_from_api(client, course_ids);
            assert(index_from_answers(client, course_ids@, answer));
            match answer {
                Ok(p) => Ok((p, true)),
                Err(e) => Err(e),
            }
        },
    }
}


/// What the detail cache gives back shows the same assignment as the live
/// detail it was made from: the same description text, the same answer to
/// whether a description exists, the same attachment ids, dates, links and
/// warnings. Only the attachments' download URLs (and, unless asked for, the
/// HTML) are not kept.
pub proof fn law_cached_detail_shows_the_same(r: AssignmentDetailCache, detail: AssignmentDetailCache, cache_html: bool, base_url: Seq<char>)
    requires
        redacted_detail(r, detail, cache_html),
        detail.description_text is None,
        !detail.description_html_available,
    ensures
        description_text_spec(r) == description_text_spec(detail),
        (r.item.assignment.intro is Some || r.description_html_available) == (detail.item.assignment.intro is Some
            || detail.description_html_available),
        r.item.assignment.introattachments@.len() == detail.item.assignment.introattachments@.len(),
        forall|i: int|
            0 <= i < detail.item.assignment.introattachments@.len() ==> attachment_id_spec(
                r.item.assignment.id,
                #[trigger] r.item.assignment.introattachments@[i],
            ) == attachment_id_spec(detail.item.assignment.id, detail.item.assignment.introattachments@[i]),
        ts_spec(r.item.assignment.duedate) == ts_spec(detail.item.assignment.duedate),
        assignment_url_spec(base_url, r.item.assignment) == assignment_url_spec(base_url, detail.item.assignment),
        r.warnings@ == detail.warnings@,
        submission_status_spec(r.submission) == submission_status_spec(detail.submission),
{
    assert forall|i: int| 0 <= i < detail.item.assignment.introattachments@.len() implies attachment_id_spec(
        r.item.assignment.id,
        #[trigger] r.item.assignment.introattachments@[i],
    ) == attachment_id_spec(detail.item.assignment.id, detail.item.assignment.introattachments@[i]) by {
        let f = r.item.assignment.introattachments@[i];
        let g = detail.item.assignment.introattachments@[i];
        assert(attachment_fingerprint(r.item.assignment.id, f) == attachment_fingerprint(
            detail.item.assignment.id,
            g,
        ));
    }
}

/// The page an assignment links to is its course-module page: with a
/// course-module id `c`, `mod/assign/view.php?id=c` under the base URL,
/// whatever the instance id; only without one does the instance id stand in.
pub proof fn law_assignment_page_is_its_course_module(
    out: AssignmentOutput,
    detail: AssignmentDetailCache,
    args: AssignmentShowArgs,
    cache_meta: CacheMeta,
    base_url: Seq<char>,
    limit: Option<usize>,
)
    requires
        renders(out, detail, args, cache_meta, base_url, limit),
    ensures
        detail.item.assignment.cmid matches Some(c) ==> (out.assignment.url@ == match external::url_join_of(
            base_url,
            "mod/assign/view.php?id="@ + text::int_decimal(c as int),
        ) {
            Ok(u) => u,
            Err(_) => Seq::empty(),
        }),
        detail.item.assignment.cmid is None ==> out.assignment.url@ == (match external::url_join_of(
            base_url,
            "mod/assign/view.php?id="@ + text::int_decimal(detail.item.assignment.id as int),
        ) {
            Ok(u) => u,
            Err(_) => Seq::empty(),
        }),
{
}

} // verus!
