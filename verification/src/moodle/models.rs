//! Moodle Web Service responses, as plain values.

use vstd::prelude::*;

verus! {

#[derive(Debug, Clone)]
pub struct MoodleException {
    pub exception: Option<String>,
    pub errorcode: Option<String>,
    pub message: Option<String>,
}

#[derive(Debug, Clone)]
pub struct SiteInfo {
    pub userid: i64,
    pub username: String,
    pub fullname: Option<String>,
    pub sitename: Option<String>,
    pub siteurl: Option<String>,
    pub downloadfiles: Option<i64>,
    pub uploadfiles: Option<i64>,
    pub functions: Vec<WebServiceFunction>,
}

#[derive(Debug, Clone)]
pub struct WebServiceFunction {
    pub name: String,
    pub version: Option<String>,
}

#[derive(Debug, Clone)]
pub struct Course {
    pub id: i64,
    pub shortname: Option<String>,
    pub fullname: Option<String>,
    pub visible: Option<i64>,
}

#[derive(Debug, Clone)]
pub struct AssignmentsResponse {
    pub courses: Vec<AssignmentCourse>,
    pub warnings: Vec<MoodleWarning>,
}

#[derive(Debug, Clone)]
pub struct AssignmentCourse {
    pub id: i64,
    pub fullname: Option<String>,
    pub shortname: Option<String>,
    pub assignments: Vec<Assignment>,
}

#[derive(Debug, Clone)]
pub struct Assignment {
    pub id: i64,
    pub cmid: Option<i64>,
    pub course: Option<i64>,
    pub name: Option<String>,
    pub intro: Option<String>,
    pub duedate: Option<i64>,
    pub allowsubmissionsfromdate: Option<i64>,
    pub cutoffdate: Option<i64>,
    pub introattachments: Vec<MoodleFile>,
}

#[derive(Debug, Clone)]
pub struct MoodleFile {
    pub filename: Option<String>,
    pub filepath: Option<String>,
    pub contenthash: Option<String>,
    pub pathnamehash: Option<String>,
    pub filesize: Option<i64>,
    pub mimetype: Option<String>,
    pub fileurl: Option<String>,
}

#[derive(Debug, Clone)]
pub struct MoodleWarning {
    pub item: Option<String>,
    pub itemid: Option<i64>,
    pub warningcode: Option<String>,
    pub message: Option<String>,
}

#[derive(Debug, Clone)]
pub struct SubmissionStatusResponse {
    pub lastattempt: Option<LastAttempt>,
    pub warnings: Vec<MoodleWarning>,
}

#[derive(Debug, Clone)]
pub struct LastAttempt {
    pub submission: Option<Submission>,
    pub gradingstatus: Option<String>,
}

#[derive(Debug, Clone)]
pub struct Submission {
    pub status: Option<String>,
    pub timemodified: Option<i64>,
}

#[derive(Debug, Clone)]
pub struct ActionEventsResponse {
    pub events: Vec<ActionEvent>,
    pub warnings: Vec<MoodleWarning>,
}

#[derive(Debug, Clone)]
pub struct ActionEvent {
    pub id: i64,
    pub name: Option<String>,
    pub description: Option<String>,
    pub timestart: Option<i64>,
    pub timesort: Option<i64>,
    pub course: Option<CourseSummary>,
    pub modulename: Option<String>,
    pub instance: Option<i64>,
    pub url: Option<String>,
    pub action: Option<EventAction>,
}

#[derive(Debug, Clone)]
pub struct CourseSummary {
    pub id: Option<i64>,
    pub fullname: Option<String>,
    pub shortname: Option<String>,
}

#[derive(Debug, Clone)]
pub struct EventAction {
    pub name: Option<String>,
    pub actionable: Option<bool>,
}

} // verus!
