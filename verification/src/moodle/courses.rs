//! The course list: the courses the user is enrolled in, as shown by
//! `courses`.

use vstd::prelude::*;

use crate::dto::{CacheMeta, CourseItem, CoursesOutput, Warning};
use crate::cache::CacheEntry;
use crate::error::{CampusError, Result};
use crate::external;
use crate::moodle::api::MoodleApi;
use crate::moodle::assignments::course_ref;
use crate::moodle::models::Course;
use crate::text::{self, opt_view};

verus! {

/// The course list as cached.
#[derive(Debug, Clone)]
pub struct CoursesPayload {
    pub courses: Vec<CourseItem>,
}

/// The course list with where it came from.
#[derive(Debug, Clone)]
pub struct FetchedCourses {
    pub payload: CoursesPayload,
    pub cache: CacheMeta,
}

/// The course page `course/view.php?id=<id>` resolved against the base URL;
/// empty where that fails.
pub open spec fn course_url_spec(base_url: Seq<char>, id: i64) -> Seq<char> {
    match external::url_join_of(base_url, "course/view.php?id="@ + text::int_decimal(id as int)) {
        Ok(u) => u,
        Err(_) => Seq::empty(),
    }
}

/// Whether `item` is the row shown for course `c` of the site at `base_url`.
/// A course is visible unless Moodle says `visible: 0`.
pub open spec fn is_course_item(item: CourseItem, c: Course, base_url: Seq<char>) -> bool {
    &&& item.id@ == course_ref(c.id)
    &&& item.moodle_id == c.id
    &&& opt_view(item.short_name) == opt_view(c.shortname)
    &&& opt_view(item.full_name) == opt_view(c.fullname)
    &&& item.visible == (match c.visible {
        Some(v) => v != 0,
        None => true,
    })
    &&& item.url@ == course_url_spec(base_url, c.id)
}

/// The row shown for one course.
pub fn course_item(c: &Course, base_url: &str) -> (r: CourseItem)
    ensures
        is_course_item(r, *c, base_url@),
{
    let page = text::concat2("course/view.php?id=", text::i64_decimal(c.id).as_str());
    let url = match external::url_join(base_url, page.as_str()) {
        Ok(u) => u,
        Err(_) => String::new(),
    };
    let visible = match c.visible {
        Some(v) => v != 0,
        None => true,
    };
    CourseItem {
        id: text::concat2("course:", text::i64_decimal(c.id).as_str()),
        moodle_id: c.id,
        short_name: text::clone_opt(&c.shortname),
        full_name: text::clone_opt(&c.fullname),
        visible,
        url,
    }
}

/// The course list for the courses Moodle returned, in order.
pub fn courses_payload(courses: &Vec<Course>, base_url: &str) -> (r: CoursesPayload)
    ensures
        r.courses@.len() == courses@.len(),
        forall|i: int|
            0 <= i < courses@.len() ==> is_course_item(#[trigger] r.courses@[i], courses@[i], base_url@),
{
    let mut items: Vec<CourseItem> = Vec::new();
    let n = courses.len();
    for i in 0..n
        invariant
            n == courses@.len(),
            items@.len() == i,
            forall|k: int|
                0 <= k < i ==> is_course_item(#[trigger] items@[k], courses@[k], base_url@),
    {
        items.push(course_item(&courses[i], base_url));
    }
    CoursesPayload { courses: items }
}

/// Whether `p` lists `courses`, in order, for the site at `base_url`.
pub open spec fn lists_courses(p: CoursesPayload, courses: Seq<Course>, base_url: Seq<char>) -> bool {
    &&& p.courses@.len() == courses.len()
    &&& forall|i: int|
        0 <= i < courses.len() ==> is_course_item(#[trigger] p.courses@[i], courses[i], base_url)
}

/// Whether `r` is what the course list comes to for some answers of
/// `client`: the site's answer to `site_info`; where that is an error, that
/// error; else its answer to `user_courses` for the user the site named;
/// where that is an error, that error; else the list of those courses.
pub open spec fn courses_from_answers<T: MoodleApi>(
    client: &T,
    base_url: Seq<char>,
    r: Result<CoursesPayload>,
) -> bool {
    exists|site: Result<crate::moodle::models::SiteInfo>|
        #[trigger] client.answers_site_info(site) && match site {
            Err(e) => r == Err::<CoursesPayload, CampusError>(e),
            Ok(info) => exists|courses: Result<Vec<Course>>|
                #[trigger] client.answers_user_courses(info.userid, courses) && match courses {
                    Err(e) => r == Err::<CoursesPayload, CampusError>(e),
                    Ok(cs) => r matches Ok(p) && lists_courses(p, cs@, base_url),
                },
        }
}

/// Asks Moodle who the user is, then for the user's courses, and lists them.
pub fn fetch_from_api<T: MoodleApi>(client: &T, base_url: &str) -> (r: Result<CoursesPayload>)
    ensures
        courses_from_answers(client, base_url@, r),
{
    let site = client.site_info();
    let info = match site {
        Ok(s) => s,
        Err(e) => {
            return Err(e);
        },
    };
    let answer = client.user_courses(info.userid);
    let courses = match answer {
        Ok(c) => c,
        Err(e) => {
            assert(client.answers_user_courses(info.userid, answer));
            return Err(e);
        },
    };
    let payload = courses_payload(&courses, base_url);
    let r: Result<CoursesPayload> = Ok(payload);
    assert(client.answers_user_courses(info.userid, answer));
    assert(lists_courses(payload, courses@, base_url@));
    r
}


/// What `courses` prints.
pub fn run(fetched: FetchedCourses, generated_at: String) -> (r: CoursesOutput)
    ensures
        r.schema_version@ == "campus-lms.courses.v1"@,
        r.generated_at == generated_at,
        r.cache == fetched.cache,
        r.courses == fetched.payload.courses,
        r.warnings@.len() == 0,
{
    CoursesOutput {
        schema_version: "campus-lms.courses.v1",
        generated_at,
        cache: fetched.cache,
        courses: fetched.payload.courses,
        warnings: Vec::<Warning>::new(),
    }
}


/// The course list: refused where `--refresh` and `--offline` are both
/// given; the cached one where the cache gave one; none under `--offline`
/// otherwise; else a fresh one from Moodle (the flag says it is to be
/// cached).
pub fn fetch<T: MoodleApi>(
    cached: Option<CacheEntry<CoursesPayload>>,
    refresh: bool,
    offline: bool,
    ttl_seconds: u64,
    client: &T,
    base_url: &str,
) -> (r: Result<(FetchedCourses, bool)>)
    ensures
        refresh && offline ==> (r matches Err(e) && crate::error::is_invalid_argument(
            e,
            "--refresh and --offline cannot be used together."@,
            Some("Choose either --refresh or --offline."@),
        )),
        !(refresh && offline) ==> match cached {
            Some(entry) => r matches Ok((f, fresh)) && !fresh && f.payload == entry.value
                && f.cache.used && f.cache.age_seconds == Some(entry.age_seconds)
                && f.cache.ttl_seconds == ttl_seconds && f.cache.stale == entry.stale,
            None => if offline {
                r matches Err(e) && e is Cache && !e->Cache_json && e->Cache_message@
                    == "offline cache miss for courses"@
            } else {
                exists|answer: Result<CoursesPayload>|
                    #[trigger] courses_from_answers(client, base_url@, answer) && match answer {
                        Err(e) => r == Err::<(FetchedCourses, bool), CampusError>(e),
                        Ok(p) => r matches Ok((f, fresh)) && fresh && f.payload == p
                            && !f.cache.used && (f.cache.fetched_at matches Some(t)
                            && crate::output::rfc3339_utc_text(t@)) && f.cache.age_seconds is None
                            && f.cache.ttl_seconds == ttl_seconds && !f.cache.stale,
                    }
            },
        },
{
    match crate::cli::ensure_cache_flags(refresh, offline) {
        Ok(()) => {},
        Err(e) => {
            return Err(e);
        },
    }
    match cached {
        Some(entry) => {
            let cache = CacheMeta::from_entry(&entry, ttl_seconds);
            Ok((FetchedCourses { cache, payload: entry.value }, false))
        },
        None => {
            if offline {
                return Err(CampusError::cache("offline cache miss for courses"));
            }
            let answer = fetch_from_api(client, base_url);
            assert(courses_from_answers(client, base_url@, answer));
            match answer {
                Ok(payload) => Ok((FetchedCourses { payload, cache: CacheMeta::fresh(ttl_seconds) }, true)),
                Err(e) => Err(e),
            }
        },
    }
}

/// A course row keeps the course's names where they belong: its short
/// name is the course's short name and its full name the course's full
/// name; its ids are `course:<id>` and the numeric id; it is hidden only
/// where Moodle says `visible: 0`.
pub proof fn law_course_row_names(item: CourseItem, c: Course, base_url: Seq<char>)
    requires
        is_course_item(item, c, base_url),
    ensures
        opt_view(item.short_name) == opt_view(c.shortname),
        opt_view(item.full_name) == opt_view(c.fullname),
        item.moodle_id == c.id,
        item.id@ == "course:"@ + text::int_decimal(c.id as int),
        item.visible <==> c.visible != Some(0i64),
{
    reveal_strlit("course:");
}

} // verus!
