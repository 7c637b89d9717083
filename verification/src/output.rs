//! Time stamps of documents and the JSON error document.

use vstd::prelude::*;

use crate::error::{code_spec, hint_spec, next_steps_spec, retryable_spec, display_spec, CampusError};
use crate::external;
use crate::text;

verus! {

/// An ASCII decimal digit.
pub open spec fn is_digit(c: char) -> bool {
    '0' <= c && c <= '9'
}

/// An RFC 3339 time stamp in UTC: `YYYY-MM-DDTHH:MM:SS`, an optional
/// fraction of one to nine digits after `.`, then `Z`.
pub open spec fn rfc3339_utc_text(s: Seq<char>) -> bool {
    &&& 20 <= s.len() <= 30
    &&& forall|i: int|
        0 <= i < 19 && i != 4 && i != 7 && i != 10 && i != 13 && i != 16 ==> is_digit(
            #[trigger] s[i],
        )
    &&& s[4] == '-' && s[7] == '-' && s[10] == 'T' && s[13] == ':' && s[16] == ':'
    &&& s[s.len() - 1] == 'Z'
    &&& s.len() > 20 ==> s[19] == '.' && s.len() >= 22
    &&& forall|i: int| 20 <= i < s.len() - 1 ==> is_digit(#[trigger] s[i])
}

/// The time a document was generated, RFC 3339 in UTC; the UNIX epoch when
/// the clock cannot be formatted.
pub fn generated_at() -> (r: String)
    ensures
        rfc3339_utc_text(r@),
{
    proof {
        reveal_strlit("1970-01-01T00:00:00Z");
    }
    match external::now_rfc3339() {
        Some(s) => s,
        None => text::owned("1970-01-01T00:00:00Z"),
    }
}

/// The JSON error document.
#[derive(Debug)]
pub struct ErrorResponse<'a> {
    pub schema_version: &'static str,
    pub error: ErrorBody<'a>,
}

#[derive(Debug)]
pub struct ErrorBody<'a> {
    pub code: &'static str,
    pub message: String,
    pub retryable: bool,
    pub hint: Option<&'a str>,
    pub next_steps: Vec<&'a str>,
}

/// The error document printed for an error.
pub fn error_response(err: &CampusError) -> (r: ErrorResponse)
    ensures
        r.schema_version@ == "campus-lms.error.v1"@,
        r.error.code@ == code_spec(*err),
        r.error.message@ == display_spec(*err),
        r.error.retryable == retryable_spec(*err),
        match r.error.hint {
            Some(h) => hint_spec(*err) == Some(h@),
            None => hint_spec(*err) is None,
        },
        r.error.next_steps@.map_values(|s: &str| s@) == next_steps_spec(*err),
{
    let steps = err.next_steps();
    let mut next_steps: Vec<&str> = Vec::new();
    let n = steps.len();
    for i in 0..n
        invariant
            n == steps@.len(),
            next_steps@.map_values(|s: &str| s@) == steps@.take(i as int).map_values(
                |s: &'static str| s@,
            ),
    {
        next_steps.push(steps[i]);
        assert(steps@.take(i + 1).map_values(|s: &'static str| s@) =~= steps@.take(
            i as int,
        ).map_values(|s: &'static str| s@).push(steps@[i as int]@));
    }
    assert(steps@.take(n as int) == steps@);
    ErrorResponse {
        schema_version: "campus-lms.error.v1",
        error: ErrorBody {
            code: err.code(),
            message: err.display_text(),
            retryable: err.retryable(),
            hint: err.hint(),
            next_steps,
        },
    }
}

} // verus!
