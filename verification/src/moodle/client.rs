//! How the answers of a Moodle site are classified: HTTP failures, Moodle
//! exceptions and the REST endpoint's location.

use vstd::prelude::*;

use crate::error::{self, CampusError, Result};
use crate::external;
use crate::dto::{UserInfo, WhoamiOutput, Warning};
use crate::moodle::models::{MoodleException, SiteInfo};
use crate::text::{self, opt_view};

verus! {

/// The path of the REST endpoint below a site's base URL.
pub open spec fn rest_path() -> Seq<char> {
    "webservice/rest/server.php"@
}

/// The REST endpoint of a site.
pub fn rest_endpoint(base_url: &str) -> (r: Result<String>)
    ensures
        match external::url_join_of(base_url@, rest_path()) {
            Ok(u) => r is Ok && r->Ok_0@ == u,
            Err(e) => r is Err && error::is_invalid_argument(
                r->Err_0,
                "invalid REST endpoint: "@ + e,
                None,
            ),
        },
{
    match external::url_join(base_url, "webservice/rest/server.php") {
        Ok(u) => Ok(u),
        Err(e) => {
            let message = text::concat2("invalid REST endpoint: ", e.as_str());
            Err(CampusError::invalid_argument(message.as_str(), None))
        },
    }
}

/// The error an unsuccessful HTTP status stands for: 401 an expired token,
/// 403 a refusal, 429 rate limiting, anything else a network error naming
/// the source and the status.
pub open spec fn http_failure_spec(
    e: CampusError,
    status: u16,
    status_text: Seq<char>,
    source: Seq<char>,
    json: bool,
) -> bool {
    if status == 401 {
        e == CampusError::AuthExpired { json }
    } else if status == 403 {
        e == CampusError::PermissionDenied { json }
    } else if status == 429 {
        e == CampusError::RateLimited { json }
    } else {
        e matches CampusError::Network { message, json: j } && j == json && message@ == source
            + " returned HTTP "@ + status_text
    }
}

pub fn http_failure(status: u16, status_text: &str, source: &str, json: bool) -> (e: CampusError)
    ensures
        http_failure_spec(e, status, status_text@, source@, json),
{
    if status == 401 {
        CampusError::AuthExpired { json }
    } else if status == 403 {
        CampusError::PermissionDenied { json }
    } else if status == 429 {
        CampusError::RateLimited { json }
    } else {
        let message = text::concat3(source, " returned HTTP ", status_text);
        CampusError::Network { message, json }
    }
}

/// Whether an HTTP status is a success (2xx).
pub open spec fn is_success(status: u16) -> bool {
    200 <= status <= 299
}

/// The message of a Moodle exception: its message, else its error code,
/// else a generic text.
pub open spec fn exception_message(x: MoodleException) -> Seq<char> {
    match x.message {
        Some(m) => m@,
        None => match x.errorcode {
            Some(c) => c@,
            None => "Moodle API returned an error"@,
        },
    }
}

/// The error a Moodle exception stands for, by its error code.
pub open spec fn classify_spec(e: CampusError, x: MoodleException) -> bool {
    let code = opt_view(x.errorcode);
    if code == Some("invalidtoken"@) {
        e == CampusError::AuthExpired { json: false }
    } else if code == Some("accessexception"@) || code == Some("nopermission"@) {
        e == CampusError::PermissionDenied { json: false }
    } else if code == Some("servicenotavailable"@) {
        e matches CampusError::UnsupportedMoodleFeature { message, json } && !json && message@
            == exception_message(x)
    } else {
        e matches CampusError::MoodleApi { message, json } && !json && message@ == exception_message(
            x,
        )
    }
}

pub fn classify_moodle_exception(exception: MoodleException) -> (e: CampusError)
    ensures
        classify_spec(e, exception),
{
    let message = match &exception.message {
        Some(m) => m.clone(),
        None => match &exception.errorcode {
            Some(c) => c.clone(),
            None => text::owned("Moodle API returned an error"),
        },
    };
    match &exception.errorcode {
        Some(c) => {
            if text::str_eq(c.as_str(), "invalidtoken") {
                CampusError::AuthExpired { json: false }
            } else if text::str_eq(c.as_str(), "accessexception") || text::str_eq(
                c.as_str(),
                "nopermission",
            ) {
                CampusError::PermissionDenied { json: false }
            } else if text::str_eq(c.as_str(), "servicenotavailable") {
                CampusError::UnsupportedMoodleFeature { message, json: false }
            } else {
                CampusError::MoodleApi { message, json: false }
            }
        },
        None => CampusError::MoodleApi { message, json: false },
    }
}

/// Whether a body that parses as a Moodle exception reports one.
pub open spec fn reports_exception(x: MoodleException) -> bool {
    x.exception is Some || x.errorcode is Some
}

/// What a REST answer means before its body is read as the expected data:
/// an unsuccessful status is an HTTP failure; a successful one whose body
/// reads as a Moodle exception (given as `exception`) is that exception's
/// error; otherwise `None`, and the body is to be parsed.
pub fn rest_failure(status: u16, status_text: &str, exception: Option<MoodleException>) -> (r: Option<
    CampusError,
>)
    ensures
        !is_success(status) ==> (r matches Some(e) && http_failure_spec(
            e,
            status,
            status_text@,
            "Moodle REST"@,
            false,
        )),
        is_success(status) ==> match exception {
            Some(x) => if reports_exception(x) {
                (r matches Some(e) && classify_spec(e, x))
            } else {
                r is None
            },
            None => r is None,
        },
{
    if !(200 <= status && status <= 299) {
        return Some(http_failure(status, status_text, "Moodle REST", false));
    }
    match exception {
        Some(x) => {
            if x.exception.is_some() || x.errorcode.is_some() {
                Some(classify_moodle_exception(x))
            } else {
                None
            }
        },
        None => None,
    }
}

/// What an unsuccessful answer of the token endpoint means.
pub fn token_http_failure(status: u16, status_text: &str, json: bool) -> (e: CampusError)
    ensures
        http_failure_spec(e, status, status_text@, "token endpoint"@, json),
{
    http_failure(status, status_text, "token endpoint", json)
}

/// The parse error of a REST body that is not the expected JSON.
pub fn body_parse_error(detail: &str) -> (e: CampusError)
    ensures
        e matches CampusError::Parse { message, json } && !json && message@ == detail@
            + "; Moodle response body could not be parsed as expected JSON"@,
{
    let message = text::concat2(detail, "; Moodle response body could not be parsed as expected JSON");
    CampusError::Parse { message, json: false }
}


/// What `whoami` prints for the site's answer: the user as `user:<id>`,
/// their username and full name, and the site's name.
pub fn whoami_output(site: SiteInfo, generated_at: String) -> (r: WhoamiOutput)
    ensures
        r.schema_version@ == "campus-lms.whoami.v1"@,
        r.generated_at == generated_at,
        r.user.id@ == "user:"@ + text::int_decimal(site.userid as int),
        r.user.username == site.username,
        r.user.fullname == site.fullname,
        r.user.site_name == site.sitename,
        r.warnings@.len() == 0,
{
    let id = text::concat2("user:", text::i64_decimal(site.userid).as_str());
    WhoamiOutput {
        schema_version: "campus-lms.whoami.v1",
        generated_at,
        user: UserInfo {
            id,
            username: site.username,
            fullname: site.fullname,
            site_name: site.sitename,
        },
        warnings: Vec::<Warning>::new(),
    }
}

} // verus!
