//! Calls into the outside crates the library relies on (`time`, `url`,
//! `html2text`, `sha2`), each behind a wrapper whose contract names the
//! result as a function of the arguments.

use sha2::Digest;
use vstd::prelude::*;

verus! {

/// The RFC 3339 text of a UNIX timestamp in UTC, as the `time` crate
/// formats it; `None` where the timestamp is outside `time`'s range or the
/// value cannot be formatted.
pub uninterp spec fn rfc3339_of(timestamp: int) -> Option<Seq<char>>;

/// The calendar date (`YYYY-MM-DD`, UTC) of a UNIX timestamp as the `time`
/// crate prints a `Date`; `None` outside `time`'s range.
pub uninterp spec fn utc_date_of(timestamp: int) -> Option<Seq<char>>;

/// The plain text `html2text` renders from an HTML fragment at 80 columns;
/// `None` where `html2text` reports an error.
pub uninterp spec fn html_text_of(html: Seq<char>) -> Option<Seq<char>>;

/// The lower-case hexadecimal SHA-256 digest of the UTF-8 encoding of a text.
pub uninterp spec fn sha256_hex_of(text: Seq<char>) -> Seq<char>;

/// 64 lower-case hexadecimal digits, the text of a 32-byte digest.
pub open spec fn lower_hex_digest(s: Seq<char>) -> bool {
    s.len() == 64 && forall|i: int|
        0 <= i < 64 ==> ('0' <= #[trigger] s[i] <= '9' || 'a' <= s[i] <= 'f')
}

/// The serialization of the URL that `url` resolves `input` to against the
/// base URL `base`; where either does not parse, the text of `url`'s error.
pub uninterp spec fn url_join_of(base: Seq<char>, input: Seq<char>) -> core::result::Result<
    Seq<char>,
    Seq<char>,
>;

/// The components of a URL as the `url` crate parses them: scheme,
/// username, password, host and path; where it does not parse, the text of
/// `url`'s error.
pub uninterp spec fn url_parts_of(input: Seq<char>) -> core::result::Result<
    (Seq<char>, Seq<char>, Option<Seq<char>>, Option<Seq<char>>, Seq<char>),
    Seq<char>,
>;

/// The serialization of `input` parsed by `url`, with its query and fragment
/// removed and its path replaced by `path`.
pub uninterp spec fn url_with_path_of(input: Seq<char>, path: Seq<char>) -> Option<Seq<char>>;

/// What the URL logic reads of a parsed URL.
#[derive(Debug, Clone)]
pub struct UrlParts {
    pub scheme: String,
    pub username: String,
    pub password: Option<String>,
    pub host: Option<String>,
    pub path: String,
}

impl UrlParts {
    pub open spec fn view_tuple(self) -> (
        Seq<char>,
        Seq<char>,
        Option<Seq<char>>,
        Option<Seq<char>>,
        Seq<char>,
    ) {
        (
            self.scheme@,
            self.username@,
            match self.password {
                Some(p) => Some(p@),
                None => None,
            },
            match self.host {
                Some(h) => Some(h@),
                None => None,
            },
            self.path@,
        )
    }
}

/// Formats a UNIX timestamp as RFC 3339 with `time`'s
/// `OffsetDateTime::from_unix_timestamp` and `OffsetDateTime::format`.
/// The contract names the text; it claims nothing about its shape.
#[verifier::external_body]
pub(crate) fn rfc3339_utc(timestamp: i64) -> (r: Option<String>)
    ensures
        match r {
            Some(s) => rfc3339_of(timestamp as int) == Some(s@),
            None => rfc3339_of(timestamp as int) is None,
        },
{
    match time::OffsetDateTime::from_unix_timestamp(timestamp) {
        Ok(dt) => dt.format(&time::format_description::well_known::Rfc3339).ok(),
        Err(_) => None,
    }
}

/// The UTC calendar date of a UNIX timestamp via `time`'s
/// `OffsetDateTime::from_unix_timestamp`, printed with `Date`'s `Display`.
#[verifier::external_body]
pub(crate) fn utc_date(timestamp: i64) -> (r: Option<String>)
    ensures
        match r {
            Some(s) => utc_date_of(timestamp as int) == Some(s@),
            None => utc_date_of(timestamp as int) is None,
        },
{
    match time::OffsetDateTime::from_unix_timestamp(timestamp) {
        Ok(dt) => Some(dt.date().to_string()),
        Err(_) => None,
    }
}

/// The current time as RFC 3339 via `time`'s `OffsetDateTime::now_utc` and
/// `format`. Which time it is depends on the clock and is not stated; what
/// is stated is the shape `time`'s `Rfc3339` formatter writes for a UTC
/// value (four-digit year, two-digit fields, a fraction of the nonzero
/// nanoseconds with trailing zeros cut, then `Z`).
#[verifier::external_body]
pub(crate) fn now_rfc3339() -> (r: Option<String>)
    ensures
        r matches Some(s) ==> crate::output::rfc3339_utc_text(s@),
{
    time::OffsetDateTime::now_utc().format(&time::format_description::well_known::Rfc3339).ok()
}

/// Renders HTML as plain text at 80 columns with `html2text`'s plain
/// configuration (`config::plain().string_from_read`), the renderer behind
/// `html2text::from_read`; an error of the renderer gives `None`. Any text
/// is admitted: the renderer keeps only characters whose width
/// `unicode-width` knows (control characters are dropped when text is
/// added, in `add_text` and `add_preformatted_text`), so the width it
/// unwraps when splitting a long word is always there.
#[verifier::external_body]
pub(crate) fn html_text(html: &str) -> (r: Option<String>)
    ensures
        match r {
            Some(s) => html_text_of(html@) == Some(s@),
            None => html_text_of(html@) is None,
        },
{
    html2text::config::plain().string_from_read(html.as_bytes(), 80).ok()
}

/// The hexadecimal SHA-256 digest of a text with `sha2::Sha256`: the
/// 32-byte output printed with `{:x}`, two lower-case hex digits a byte.
#[verifier::external_body]
pub(crate) fn sha256_hex(text: &str) -> (r: String)
    ensures
        r@ == sha256_hex_of(text@),
        lower_hex_digest(r@),
{
    let mut hasher = sha2::Sha256::new();
    hasher.update(text.as_bytes());
    format!("{:x}", hasher.finalize())
}

/// Resolves `input` against `base` with `url::Url::join` (the base parsed
/// with `Url::parse`), serialized; a parse error is returned as its text.
#[verifier::external_body]
pub(crate) fn url_join(base: &str, input: &str) -> (r: core::result::Result<String, String>)
    ensures
        match r {
            Ok(s) => url_join_of(base@, input@) == Ok::<Seq<char>, Seq<char>>(s@),
            Err(e) => url_join_of(base@, input@) == Err::<Seq<char>, Seq<char>>(e@),
        },
{
    match url::Url::parse(base) {
        Ok(u) => match u.join(input) {
            Ok(joined) => Ok(joined.to_string()),
            Err(err) => Err(err.to_string()),
        },
        Err(err) => Err(err.to_string()),
    }
}

/// Parses a URL with `url::Url::parse` and reads its scheme, username,
/// password, host and path; a parse error is returned as its text.
#[verifier::external_body]
pub(crate) fn url_parts(input: &str) -> (r: core::result::Result<UrlParts, String>)
    ensures
        match r {
            Ok(p) => url_parts_of(input@) == Ok::<
                (Seq<char>, Seq<char>, Option<Seq<char>>, Option<Seq<char>>, Seq<char>),
                Seq<char>,
            >(p.view_tuple()),
            Err(e) => url_parts_of(input@) == Err::<
                (Seq<char>, Seq<char>, Option<Seq<char>>, Option<Seq<char>>, Seq<char>),
                Seq<char>,
            >(e@),
        },
{
    match url::Url::parse(input) {
        Ok(u) => Ok(
            UrlParts {
                scheme: u.scheme().to_string(),
                username: u.username().to_string(),
                password: u.password().map(|p| p.to_string()),
                host: u.host_str().map(|h| h.to_string()),
                path: u.path().to_string(),
            },
        ),
        Err(err) => Err(err.to_string()),
    }
}

/// Parses a URL with `url::Url::parse`, clears its query and fragment
/// (`set_query(None)`, `set_fragment(None)`), sets its path (`set_path`) and
/// serializes it. The same text parses the same way each time, so where
/// `url_parts` parses `input` this does too.
#[verifier::external_body]
pub(crate) fn url_with_path(input: &str, path: &str) -> (r: Option<String>)
    ensures
        match r {
            Some(s) => url_with_path_of(input@, path@) == Some(s@),
            None => url_with_path_of(input@, path@) is None,
        },
        url_parts_of(input@) is Ok ==> r is Some,
{
    match url::Url::parse(input) {
        Ok(mut u) => {
            u.set_query(None);
            u.set_fragment(None);
            u.set_path(path);
            Some(u.to_string())
        },
        Err(_) => None,
    }
}

} // verus!
