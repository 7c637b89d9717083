//! The command line surface: parsed arguments and their validation rules.

use vstd::prelude::*;

use crate::error::{is_invalid_argument, CampusError, Result};
use crate::text;

verus! {

/// Global options and the selected command.
#[derive(Debug, Clone)]
pub struct Cli {
    pub profile: Option<String>,
    pub config: Option<String>,
    pub json: bool,
    pub no_color: bool,
    pub verbose: bool,
    pub warning_details: Option<String>,
    pub quiet: bool,
    pub command: Commands,
}

#[allow(inconsistent_fields)]
#[derive(Debug, Clone)]
pub enum Commands {
    Auth { command: AuthCommand },
    Whoami,
    Doctor,
    Courses(CachedArgs),
    Todo(TodoArgs),
    Assignment { command: AssignmentCommand },
    Ai { command: AiCommand },
    Capabilities,
    Errors,
    Schema { command: SchemaCommand },
    Init(InitArgs),
    Cleanup(CleanupArgs),
    Uninstall(UninstallArgs),
}

#[derive(Debug, Clone)]
pub enum AuthCommand {
    Login(LoginArgs),
    ImportToken(ImportTokenArgs),
    Logout(LogoutArgs),
    Status(AuthStatusArgs),
    Verify(AuthVerifyArgs),
}

#[derive(Debug, Clone)]
pub struct LoginArgs {
    pub base_url: Option<String>,
    pub username: Option<String>,
    pub service: String,
    pub allow_insecure_localhost: bool,
    pub password_stdin: bool,
    pub password_env: Option<String>,
}

#[derive(Debug, Clone)]
pub struct ImportTokenArgs {
    pub base_url: String,
    pub username: String,
    pub service: String,
    pub allow_insecure_localhost: bool,
    pub token_stdin: bool,
    pub token_env: Option<String>,
    pub live: bool,
}

#[derive(Debug, Clone)]
pub struct LogoutArgs {
    pub keep_config: bool,
}

#[derive(Debug, Clone)]
pub struct AuthStatusArgs {
    pub live: bool,
}

#[derive(Debug, Clone)]
pub struct AuthVerifyArgs {
    pub live: bool,
}

#[derive(Debug, Clone)]
pub struct CachedArgs {
    pub refresh: bool,
    pub offline: bool,
}

#[derive(Debug, Clone)]
pub struct TodoArgs {
    pub days: u32,
    pub max_items: Option<usize>,
    pub refresh: bool,
    pub offline: bool,
    pub include_submitted: bool,
    pub course: Option<String>,
    pub status_check_limit: usize,
    pub no_submission_status_check: bool,
}

#[derive(Debug, Clone)]
pub enum AssignmentCommand {
    Show(AssignmentShowArgs),
}

#[derive(Debug, Clone)]
pub struct AssignmentShowArgs {
    pub id: String,
    pub max_chars: usize,
    pub include_html: bool,
    pub refresh: bool,
    pub offline: bool,
    pub no_cache: bool,
}

#[derive(Debug, Clone)]
pub enum AiCommand {
    Snapshot(AiSnapshotArgs),
    Instructions,
}

#[derive(Debug, Clone)]
pub struct AiSnapshotArgs {
    pub days: u32,
    pub max_items: usize,
    pub include_grades: bool,
    pub include_feedback: bool,
    pub refresh: bool,
    pub offline: bool,
}

#[derive(Debug, Clone)]
pub enum SchemaCommand {
    List,
    Show { name: String },
}

#[derive(Debug, Clone)]
pub struct InitArgs {
    pub force: bool,
    pub print_agents: bool,
}

#[derive(Debug, Clone)]
pub struct CleanupArgs {
    pub all: bool,
    pub local_config: bool,
    pub cache: bool,
    pub tokens: bool,
    pub yes: bool,
    pub dry_run: bool,
}

#[derive(Debug, Clone)]
pub struct UninstallArgs {
    pub yes: bool,
    pub dry_run: bool,
}

/// `--refresh` and `--offline` exclude each other.
pub fn ensure_cache_flags(refresh: bool, offline: bool) -> (r: Result<()>)
    ensures
        r is Ok <==> !(refresh && offline),
        r matches Err(e) ==> is_invalid_argument(
            e,
            "--refresh and --offline cannot be used together."@,
            Some("Choose either --refresh or --offline."@),
        ),
{
    if refresh && offline {
        return Err(
            CampusError::invalid_argument(
                "--refresh and --offline cannot be used together.",
                Some("Choose either --refresh or --offline."),
            ),
        );
    }
    Ok(())
}

/// A character allowed in a profile name.
pub open spec fn profile_name_char(c: char) -> bool {
    ('a' <= c && c <= 'z') || ('A' <= c && c <= 'Z') || ('0' <= c && c <= '9') || c == '.' || c
        == '_' || c == '-'
}

/// A valid profile name: non-empty, of ASCII letters, digits, `.`, `_` and `-`.
pub open spec fn valid_profile_name(s: Seq<char>) -> bool {
    s.len() > 0 && forall|i: int| 0 <= i < s.len() ==> profile_name_char(#[trigger] s[i])
}

pub fn ensure_profile_name(profile: &str) -> (r: Result<()>)
    ensures
        r is Ok <==> valid_profile_name(profile@),
        r matches Err(e) ==> is_invalid_argument(
            e,
            "profile must contain only letters, numbers, dot, underscore, or hyphen."@,
            Some("Use a profile name such as default, school, or my-university."@),
        ),
{
    let s = text::chars_of(profile);
    let n = s.len();
    let mut valid = n > 0;
    let mut i: usize = 0;
    while i < n
        invariant
            n == s@.len(),
            s@ == profile@,
            0 <= i <= n,
            valid == (n > 0 && forall|j: int| 0 <= j < i ==> profile_name_char(#[trigger] s@[j])),
        decreases n - i,
    {
        let c = s[i];
        let ok = ('a' <= c && c <= 'z') || ('A' <= c && c <= 'Z') || ('0' <= c && c <= '9') || c
            == '.' || c == '_' || c == '-';
        proof {
            if !ok {
                assert(!profile_name_char(s@[i as int]));
            }
        }
        valid = valid && ok;
        i = i + 1;
    }
    if valid {
        Ok(())
    } else {
        Err(
            CampusError::invalid_argument(
                "profile must contain only letters, numbers, dot, underscore, or hyphen.",
                Some("Use a profile name such as default, school, or my-university."),
            ),
        )
    }
}

pub fn ensure_days(days: u32) -> (r: Result<()>)
    ensures
        r is Ok <==> 1 <= days <= 365,
        r matches Err(e) ==> is_invalid_argument(
            e,
            "--days must be between 1 and 365."@,
            Some("For the AI entrypoint, use: campus-lms ai snapshot --days 14 --json"@),
        ),
{
    if 1 <= days && days <= 365 {
        Ok(())
    } else {
        Err(
            CampusError::invalid_argument(
                "--days must be between 1 and 365.",
                Some("For the AI entrypoint, use: campus-lms ai snapshot --days 14 --json"),
            ),
        )
    }
}

pub fn ensure_max_items(max_items: Option<usize>) -> (r: Result<()>)
    ensures
        r is Ok <==> match max_items {
            Some(v) => 1 <= v <= 500,
            None => true,
        },
        max_items == Some(0usize) ==> (r matches Err(e) && is_invalid_argument(
            e,
            "--max-items must be at least 1."@,
            None,
        )),
        (max_items matches Some(v) && v > 500) ==> (r matches Err(e) && is_invalid_argument(
            e,
            "--max-items must be 500 or less."@,
            None,
        )),
{
    match max_items {
        Some(0) => Err(CampusError::invalid_argument("--max-items must be at least 1.", None)),
        Some(value) => {
            if value > 500 {
                Err(CampusError::invalid_argument("--max-items must be 500 or less.", None))
            } else {
                Ok(())
            }
        },
        None => Ok(()),
    }
}

pub fn ensure_status_check_limit(limit: usize) -> (r: Result<()>)
    ensures
        r is Ok <==> limit <= 500,
        r matches Err(e) ==> is_invalid_argument(
            e,
            "--status-check-limit must be 500 or less."@,
            None,
        ),
{
    if limit <= 500 {
        Ok(())
    } else {
        Err(CampusError::invalid_argument("--status-check-limit must be 500 or less.", None))
    }
}

/// What `--course` accepts: `course:<id>` or `<id>`, where the id parses
/// as an `i64`.
pub open spec fn course_filter_id(input: Seq<char>) -> Option<i64> {
    text::parse_i64_spec(text::strip_prefix_or_self(input, "course:"@))
}

/// Normalises a `--course` value to `course:<id>` and the numeric id.
pub fn normalize_course_filter(input: &str) -> (r: Result<(String, i64)>)
    ensures
        match course_filter_id(input@) {
            None => r matches Err(e) && is_invalid_argument(
                e,
                "--course must look like course:123 or 123."@,
                Some("Example: campus-lms todo --course course:123 --json"@),
            ),
            Some(id) => if id <= 0 {
                r matches Err(e) && is_invalid_argument(
                    e,
                    "--course id must be a positive integer."@,
                    Some("Example: campus-lms todo --course course:123 --json"@),
                )
            } else {
                r matches Ok((s, n)) && n == id && s@ == "course:"@ + text::int_decimal(id as int)
            },
        },
{
    let raw = text::strip_prefix_or_self_exec(input, "course:");
    let raw_s = text::string_of(&raw);
    let id = match text::parse_i64(raw_s.as_str()) {
        Some(id) => id,
        None => {
            return Err(
                CampusError::invalid_argument(
                    "--course must look like course:123 or 123.",
                    Some("Example: campus-lms todo --course course:123 --json"),
                ),
            );
        },
    };
    if id <= 0 {
        return Err(
            CampusError::invalid_argument(
                "--course id must be a positive integer.",
                Some("Example: campus-lms todo --course course:123 --json"),
            ),
        );
    }
    let digits = text::i64_decimal(id);
    Ok((text::concat2("course:", digits.as_str()), id))
}

pub fn ensure_max_chars(max_chars: usize) -> (r: Result<()>)
    ensures
        r is Ok <==> max_chars <= 100_000,
        r matches Err(e) ==> is_invalid_argument(e, "--max-chars must be 100000 or less."@, None),
{
    if max_chars <= 100_000 {
        Ok(())
    } else {
        Err(CampusError::invalid_argument("--max-chars must be 100000 or less.", None))
    }
}

/// How many warning detail rows JSON output includes: `None` means all.
pub open spec fn warning_detail_limit_spec(warning_details: Option<Seq<char>>, verbose: bool) -> Option<Option<usize>> {
    match warning_details {
        Some(v) => if v == "all"@ {
            Some(None)
        } else {
            match text::parse_usize_spec(v) {
                Some(n) => Some(Some(n)),
                None => None,
            }
        },
        None => if verbose {
            Some(None)
        } else {
            Some(Some(0usize))
        },
    }
}

pub fn warning_detail_limit(cli: &Cli) -> (r: Result<Option<usize>>)
    ensures
        match warning_detail_limit_spec(
            match cli.warning_details {
                Some(s) => Some(s@),
                None => None,
            },
            cli.verbose,
        ) {
            Some(limit) => r == Ok::<Option<usize>, CampusError>(limit),
            None => r matches Err(e) && is_invalid_argument(
                e,
                "--warning-details must be 0, a positive integer, or all."@,
                Some("Use --warning-details 20 for debugging, or --verbose for all details."@),
            ),
        },
{
    match &cli.warning_details {
        Some(value) => {
            if text::str_eq(value.as_str(), "all") {
                Ok(None)
            } else {
                match text::parse_usize(value.as_str()) {
                    Some(limit) => Ok(Some(limit)),
                    None => Err(
                        CampusError::invalid_argument(
                            "--warning-details must be 0, a positive integer, or all.",
                            Some(
                                "Use --warning-details 20 for debugging, or --verbose for all details.",
                            ),
                        ),
                    ),
                }
            }
        },
        None => {
            if cli.verbose {
                Ok(None)
            } else {
                Ok(Some(0))
            }
        },
    }
}

} // verus!
