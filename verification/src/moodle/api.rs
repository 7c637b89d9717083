//! The interface through which the logic reaches a Moodle site.

use vstd::prelude::*;

use crate::moodle::models::{
    ActionEventsResponse, AssignmentsResponse, Course, SiteInfo, SubmissionStatusResponse,
};

verus! {

/// A Moodle Web Services endpoint. Implementations perform the network
/// calls. Nothing is assumed about what they return: each call is only tied
/// to its arguments by a relation of the implementation's own
/// (`answers_*`; unless an implementation says more, any answer), so that
/// callers can say which arguments they sent and what they did with the
/// answer that came back.
pub trait MoodleApi {
    /// `r` is an answer this endpoint may give to `site_info`.
    open spec fn answers_site_info(&self, r: crate::error::Result<SiteInfo>) -> bool {
        true
    }

    /// `r` is an answer this endpoint may give to `user_courses(user_id)`.
    open spec fn answers_user_courses(&self, user_id: i64, r: crate::error::Result<Vec<Course>>) -> bool {
        true
    }

    /// `r` is an answer this endpoint may give to `assignments` for these
    /// course ids.
    open spec fn answers_assignments(
        &self,
        course_ids: Seq<i64>,
        r: crate::error::Result<AssignmentsResponse>,
    ) -> bool {
        true
    }

    /// `r` is an answer this endpoint may give to
    /// `submission_status(assign_id)`.
    open spec fn answers_submission_status(
        &self,
        assign_id: i64,
        r: crate::error::Result<SubmissionStatusResponse>,
    ) -> bool {
        true
    }

    /// `r` is an answer this endpoint may give to
    /// `action_events_by_timesort` with these arguments.
    open spec fn answers_action_events(
        &self,
        from: i64,
        to: i64,
        after_event_id: i64,
        limit_num: i64,
        r: crate::error::Result<ActionEventsResponse>,
    ) -> bool {
        true
    }

    fn site_info(&self) -> (r: crate::error::Result<SiteInfo>)
        ensures
            self.answers_site_info(r),
    ;

    fn user_courses(&self, user_id: i64) -> (r: crate::error::Result<Vec<Course>>)
        ensures
            self.answers_user_courses(user_id, r),
    ;

    fn assignments(&self, course_ids: &[i64]) -> (r: crate::error::Result<AssignmentsResponse>)
        ensures
            self.answers_assignments(course_ids@, r),
    ;

    fn submission_status(&self, assign_id: i64) -> (r: crate::error::Result<
        SubmissionStatusResponse,
    >)
        ensures
            self.answers_submission_status(assign_id, r),
    ;

    fn action_events_by_timesort(
        &self,
        from: i64,
        to: i64,
        after_event_id: i64,
        limit_num: i64,
    ) -> (r: crate::error::Result<ActionEventsResponse>)
        ensures
            self.answers_action_events(from, to, after_event_id, limit_num, r),
    ;
}

} // verus!
