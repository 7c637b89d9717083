//! The error type of campus-lms: its stable codes, process exit codes,
//! retry advice, hints and next steps.

use vstd::prelude::*;

use crate::text;

verus! {

pub type Result<T> = core::result::Result<T, CampusError>;

/// Every failure the command line tool reports. `json` records whether the
/// failure is to be reported as a JSON document.
#[derive(Debug)]
pub enum CampusError {
    AuthRequired { json: bool },
    AuthExpired { json: bool },
    PermissionDenied { json: bool },
    Network { message: String, json: bool },
    RateLimited { json: bool },
    MoodleApi { message: String, json: bool },
    UnsupportedMoodleFeature { message: String, json: bool },
    InvalidArgument { message: String, hint: Option<String>, json: bool },
    NotFound { message: String, json: bool },
    Config { message: String, json: bool },
    Keychain { message: String, json: bool },
    Cache { message: String, json: bool },
    Parse { message: String, json: bool },
    Unknown { message: String, json: bool },
}

/// `e` is the invalid-argument error with this message and hint, not yet
/// marked for JSON output.
pub open spec fn is_invalid_argument(
    e: CampusError,
    message: Seq<char>,
    hint: Option<Seq<char>>,
) -> bool {
    e matches CampusError::InvalidArgument { message: m, hint: h, json } && m@ == message && !json
        && match hint {
        Some(x) => h matches Some(y) && y@ == x,
        None => h is None,
    }
}

/// The stable machine-readable code of an error.
pub open spec fn code_spec(e: CampusError) -> Seq<char> {
    match e {
        CampusError::AuthRequired { .. } => "AUTH_REQUIRED"@,
        CampusError::AuthExpired { .. } => "AUTH_EXPIRED"@,
        CampusError::PermissionDenied { .. } => "PERMISSION_DENIED"@,
        CampusError::Network { .. } => "NETWORK_ERROR"@,
        CampusError::RateLimited { .. } => "RATE_LIMITED"@,
        CampusError::MoodleApi { .. } => "MOODLE_API_ERROR"@,
        CampusError::UnsupportedMoodleFeature { .. } => "UNSUPPORTED_MOODLE_FEATURE"@,
        CampusError::InvalidArgument { .. } => "INVALID_ARGUMENT"@,
        CampusError::NotFound { .. } => "NOT_FOUND"@,
        CampusError::Config { .. } => "CONFIG_ERROR"@,
        CampusError::Keychain { .. } => "KEYCHAIN_UNAVAILABLE"@,
        CampusError::Cache { .. } => "CACHE_ERROR"@,
        CampusError::Parse { .. } => "PARSE_ERROR"@,
        CampusError::Unknown { .. } => "UNKNOWN_ERROR"@,
    }
}

/// The process exit code of an error.
pub open spec fn exit_code_spec(e: CampusError) -> i32 {
    match e {
        CampusError::Unknown { .. } => 1,
        CampusError::InvalidArgument { .. } => 2,
        CampusError::AuthRequired { .. } => 10,
        CampusError::PermissionDenied { .. } => 11,
        CampusError::Network { .. } => 12,
        CampusError::RateLimited { .. } => 13,
        CampusError::AuthExpired { .. } => 14,
        CampusError::MoodleApi { .. } => 20,
        CampusError::UnsupportedMoodleFeature { .. } => 21,
        CampusError::Config { .. } => 30,
        CampusError::Keychain { .. } => 31,
        CampusError::Cache { .. } => 32,
        CampusError::Parse { .. } => 40,
        CampusError::NotFound { .. } => 40,
    }
}

/// Whether retrying the same command may succeed.
pub open spec fn retryable_spec(e: CampusError) -> bool {
    e is Network || e is RateLimited
}

/// The hint printed after an error, if any.
pub open spec fn hint_spec(e: CampusError) -> Option<Seq<char>> {
    match e {
        CampusError::AuthRequired { .. } => Some(
            "Run: campus-lms auth verify --json, then campus-lms auth login or auth import-token."@,
        ),
        CampusError::AuthExpired { .. } => Some(
            "Run: campus-lms auth login or auth import-token."@,
        ),
        CampusError::Network { .. } => Some("Check your network connection or Moodle base URL."@),
        CampusError::UnsupportedMoodleFeature { .. } => Some(
            "Ask your university LMS administrator whether Moodle Web Services or Mobile Web Services are enabled."@,
        ),
        CampusError::Keychain { .. } => Some(
            "Check whether the OS credential store is available."@,
        ),
        CampusError::Cache { .. } => Some(
            "Retry the command. If it keeps failing, clear the cache with cleanup --cache."@,
        ),
        CampusError::Config { .. } => Some(
            "Check campus-lms config.toml or run auth login again."@,
        ),
        CampusError::InvalidArgument { hint, .. } => match hint {
            Some(h) => Some(h@),
            None => None,
        },
        _ => None,
    }
}

/// The suggested follow-up commands for an error.
pub open spec fn next_steps_spec(e: CampusError) -> Seq<Seq<char>> {
    match e {
        CampusError::AuthRequired { .. } => seq![
            "Run: campus-lms auth status --json"@,
            "Run: campus-lms auth verify --json"@,
            "If no token is stored, run: campus-lms auth login"@,
            "If your university uses SSO/MFA, use an administrator-issued token with: campus-lms auth import-token"@,
        ],
        CampusError::AuthExpired { .. } => seq![
            "Run: campus-lms auth status --live --json"@,
            "Run: campus-lms auth login"@,
            "If password login is blocked by SSO/MFA, run: campus-lms auth import-token"@,
        ],
        CampusError::PermissionDenied { .. } => seq![
            "Run: campus-lms doctor --json"@,
            "Ask the LMS administrator whether Mobile Web Services are enabled for your account."@,
        ],
        CampusError::UnsupportedMoodleFeature { .. } => seq![
            "Run: campus-lms doctor --json"@,
            "Ask the LMS administrator whether the missing Moodle Web Service function is enabled."@,
        ],
        CampusError::Keychain { .. } => seq![
            "Run: campus-lms auth verify --json"@,
            "Check whether the OS credential store is available."@,
            "On Windows, check Windows Credential Manager access and reinstall the latest campus-lms build."@,
        ],
        CampusError::Network { .. } => seq![
            "Check the Moodle base URL."@,
            "Check network, VPN, proxy, or captive portal requirements."@,
            "Run: campus-lms doctor --json"@,
        ],
        CampusError::RateLimited { .. } => seq![
            "Wait and retry later."@,
            "Use --offline when cached data is acceptable."@,
        ],
        CampusError::MoodleApi { .. } => seq![
            "Run: campus-lms doctor --json"@,
            "Check whether Moodle Web Services are enabled for this site and token."@,
        ],
        CampusError::Config { .. } => seq![
            "Run: campus-lms auth status --json"@,
            "Run: campus-lms init"@,
            "Run: campus-lms auth login"@,
        ],
        CampusError::InvalidArgument { .. } => seq![
            "Run the command with --help to see valid arguments."@,
        ],
        _ => Seq::empty(),
    }
}

/// Whether the error is to be reported as JSON.
pub open spec fn json_spec(e: CampusError) -> bool {
    match e {
        CampusError::AuthRequired { json } => json,
        CampusError::AuthExpired { json } => json,
        CampusError::PermissionDenied { json } => json,
        CampusError::Network { json, .. } => json,
        CampusError::RateLimited { json } => json,
        CampusError::MoodleApi { json, .. } => json,
        CampusError::UnsupportedMoodleFeature { json, .. } => json,
        CampusError::InvalidArgument { json, .. } => json,
        CampusError::NotFound { json, .. } => json,
        CampusError::Config { json, .. } => json,
        CampusError::Keychain { json, .. } => json,
        CampusError::Cache { json, .. } => json,
        CampusError::Parse { json, .. } => json,
        CampusError::Unknown { json, .. } => json,
    }
}

/// The same error with its `json` flag replaced.
pub open spec fn with_json_spec(e: CampusError, json: bool) -> CampusError {
    match e {
        CampusError::AuthRequired { .. } => CampusError::AuthRequired { json },
        CampusError::AuthExpired { .. } => CampusError::AuthExpired { json },
        CampusError::PermissionDenied { .. } => CampusError::PermissionDenied { json },
        CampusError::Network { message, .. } => CampusError::Network { message, json },
        CampusError::RateLimited { .. } => CampusError::RateLimited { json },
        CampusError::MoodleApi { message, .. } => CampusError::MoodleApi { message, json },
        CampusError::UnsupportedMoodleFeature { message, .. } => {
            CampusError::UnsupportedMoodleFeature { message, json }
        },
        CampusError::InvalidArgument { message, hint, .. } => CampusError::InvalidArgument {
            message,
            hint,
            json,
        },
        CampusError::NotFound { message, .. } => CampusError::NotFound { message, json },
        CampusError::Config { message, .. } => CampusError::Config { message, json },
        CampusError::Keychain { message, .. } => CampusError::Keychain { message, json },
        CampusError::Cache { message, .. } => CampusError::Cache { message, json },
        CampusError::Parse { message, .. } => CampusError::Parse { message, json },
        CampusError::Unknown { message, .. } => CampusError::Unknown { message, json },
    }
}

/// The human-readable text of an error (what `{}` prints).
pub open spec fn display_spec(e: CampusError) -> Seq<char> {
    match e {
        CampusError::AuthRequired { .. } => "authentication is required"@,
        CampusError::AuthExpired { .. } => "authentication expired or was rejected"@,
        CampusError::PermissionDenied { .. } => "permission denied"@,
        CampusError::Network { message, .. } => "network error: "@ + message@,
        CampusError::RateLimited { .. } => "rate limited"@,
        CampusError::MoodleApi { message, .. } => "Moodle API error: "@ + message@,
        CampusError::UnsupportedMoodleFeature { message, .. } => "unsupported Moodle feature: "@
            + message@,
        CampusError::InvalidArgument { message, .. } => "invalid argument: "@ + message@,
        CampusError::NotFound { message, .. } => "not found: "@ + message@,
        CampusError::Config { message, .. } => "config error: "@ + message@,
        CampusError::Keychain { message, .. } => "keychain unavailable: "@ + message@,
        CampusError::Cache { message, .. } => "cache error: "@ + message@,
        CampusError::Parse { message, .. } => "parse error: "@ + message@,
        CampusError::Unknown { message, .. } => "unknown error: "@ + message@,
    }
}

impl CampusError {
    pub fn code(&self) -> (r: &'static str)
        ensures
            r@ == code_spec(*self),
    {
        match self {
            Self::AuthRequired { .. } => "AUTH_REQUIRED",
            Self::AuthExpired { .. } => "AUTH_EXPIRED",
            Self::PermissionDenied { .. } => "PERMISSION_DENIED",
            Self::Network { .. } => "NETWORK_ERROR",
            Self::RateLimited { .. } => "RATE_LIMITED",
            Self::MoodleApi { .. } => "MOODLE_API_ERROR",
            Self::UnsupportedMoodleFeature { .. } => "UNSUPPORTED_MOODLE_FEATURE",
            Self::InvalidArgument { .. } => "INVALID_ARGUMENT",
            Self::NotFound { .. } => "NOT_FOUND",
            Self::Config { .. } => "CONFIG_ERROR",
            Self::Keychain { .. } => "KEYCHAIN_UNAVAILABLE",
            Self::Cache { .. } => "CACHE_ERROR",
            Self::Parse { .. } => "PARSE_ERROR",
            Self::Unknown { .. } => "UNKNOWN_ERROR",
        }
    }

    pub fn exit_code(&self) -> (r: i32)
        ensures
            r == exit_code_spec(*self),
    {
        match self {
            Self::Unknown { .. } => 1,
            Self::InvalidArgument { .. } => 2,
            Self::AuthRequired { .. } => 10,
            Self::PermissionDenied { .. } => 11,
            Self::Network { .. } => 12,
            Self::RateLimited { .. } => 13,
            Self::AuthExpired { .. } => 14,
            Self::MoodleApi { .. } => 20,
            Self::UnsupportedMoodleFeature { .. } => 21,
            Self::Config { .. } => 30,
            Self::Keychain { .. } => 31,
            Self::Cache { .. } => 32,
            Self::Parse { .. } => 40,
            Self::NotFound { .. } => 40,
        }
    }

    pub fn retryable(&self) -> (r: bool)
        ensures
            r == retryable_spec(*self),
    {
        match self {
            Self::Network { .. } | Self::RateLimited { .. } => true,
            _ => false,
        }
    }

    pub fn hint(&self) -> (r: Option<&str>)
        ensures
            match r {
                Some(h) => hint_spec(*self) == Some(h@),
                None => hint_spec(*self) is None,
            },
    {
        match self {
            Self::AuthRequired { .. } => Some(
                "Run: campus-lms auth verify --json, then campus-lms auth login or auth import-token.",
            ),
            Self::AuthExpired { .. } => Some("Run: campus-lms auth login or auth import-token."),
            Self::Network { .. } => Some("Check your network connection or Moodle base URL."),
            Self::UnsupportedMoodleFeature { .. } => Some(
                "Ask your university LMS administrator whether Moodle Web Services or Mobile Web Services are enabled.",
            ),
            Self::Keychain { .. } => Some("Check whether the OS credential store is available."),
            Self::Cache { .. } => Some(
                "Retry the command. If it keeps failing, clear the cache with cleanup --cache.",
            ),
            Self::Config { .. } => Some("Check campus-lms config.toml or run auth login again."),
            Self::InvalidArgument { hint, .. } => match hint {
                Some(h) => Some(h.as_str()),
                None => None,
            },
            _ => None,
        }
    }

    pub fn next_steps(&self) -> (r: Vec<&'static str>)
        ensures
            r@.map_values(|s: &'static str| s@) == next_steps_spec(*self),
    {
        let mut v: Vec<&'static str> = Vec::new();
        match self {
            Self::AuthRequired { .. } => {
                v.push("Run: campus-lms auth status --json");
                v.push("Run: campus-lms auth verify --json");
                v.push("If no token is stored, run: campus-lms auth login");
                v.push(
                    "If your university uses SSO/MFA, use an administrator-issued token with: campus-lms auth import-token",
                );
            },
            Self::AuthExpired { .. } => {
                v.push("Run: campus-lms auth status --live --json");
                v.push("Run: campus-lms auth login");
                v.push(
                    "If password login is blocked by SSO/MFA, run: campus-lms auth import-token",
                );
            },
            Self::PermissionDenied { .. } => {
                v.push("Run: campus-lms doctor --json");
                v.push(
                    "Ask the LMS administrator whether Mobile Web Services are enabled for your account.",
                );
            },
            Self::UnsupportedMoodleFeature { .. } => {
                v.push("Run: campus-lms doctor --json");
                v.push(
                    "Ask the LMS administrator whether the missing Moodle Web Service function is enabled.",
                );
            },
            Self::Keychain { .. } => {
                v.push("Run: campus-lms auth verify --json");
                v.push("Check whether the OS credential store is available.");
                v.push(
                    "On Windows, check Windows Credential Manager access and reinstall the latest campus-lms build.",
                );
            },
            Self::Network { .. } => {
                v.push("Check the Moodle base URL.");
                v.push("Check network, VPN, proxy, or captive portal requirements.");
                v.push("Run: campus-lms doctor --json");
            },
            Self::RateLimited { .. } => {
                v.push("Wait and retry later.");
                v.push("Use --offline when cached data is acceptable.");
            },
            Self::MoodleApi { .. } => {
                v.push("Run: campus-lms doctor --json");
                v.push("Check whether Moodle Web Services are enabled for this site and token.");
            },
            Self::Config { .. } => {
                v.push("Run: campus-lms auth status --json");
                v.push("Run: campus-lms init");
                v.push("Run: campus-lms auth login");
            },
            Self::InvalidArgument { .. } => {
                v.push("Run the command with --help to see valid arguments.");
            },
            _ => {},
        }
        assert(v@.map_values(|s: &'static str| s@) =~= next_steps_spec(*self));
        v
    }

    pub fn json_requested(&self) -> (r: bool)
        ensures
            r == json_spec(*self),
    {
        match self {
            Self::AuthRequired { json }
            | Self::AuthExpired { json }
            | Self::PermissionDenied { json }
            | Self::Network { json, .. }
            | Self::RateLimited { json }
            | Self::MoodleApi { json, .. }
            | Self::UnsupportedMoodleFeature { json, .. }
            | Self::InvalidArgument { json, .. }
            | Self::NotFound { json, .. }
            | Self::Config { json, .. }
            | Self::Keychain { json, .. }
            | Self::Cache { json, .. }
            | Self::Parse { json, .. }
            | Self::Unknown { json, .. } => *json,
        }
    }

    pub fn with_json(self, json: bool) -> (r: Self)
        ensures
            r == with_json_spec(self, json),
    {
        match self {
            Self::AuthRequired { .. } => Self::AuthRequired { json },
            Self::AuthExpired { .. } => Self::AuthExpired { json },
            Self::PermissionDenied { .. } => Self::PermissionDenied { json },
            Self::Network { message, .. } => Self::Network { message, json },
            Self::RateLimited { .. } => Self::RateLimited { json },
            Self::MoodleApi { message, .. } => Self::MoodleApi { message, json },
            Self::UnsupportedMoodleFeature { message, .. } => {
                Self::UnsupportedMoodleFeature { message, json }
            },
            Self::InvalidArgument { message, hint, .. } => Self::InvalidArgument {
                message,
                hint,
                json,
            },
            Self::NotFound { message, .. } => Self::NotFound { message, json },
            Self::Config { message, .. } => Self::Config { message, json },
            Self::Keychain { message, .. } => Self::Keychain { message, json },
            Self::Cache { message, .. } => Self::Cache { message, json },
            Self::Parse { message, .. } => Self::Parse { message, json },
            Self::Unknown { message, .. } => Self::Unknown { message, json },
        }
    }

    pub fn invalid_argument(message: &str, hint: Option<&str>) -> (r: Self)
        ensures
            is_invalid_argument(
                r,
                message@,
                match hint {
                    Some(x) => Some(x@),
                    None => None,
                },
            ),
    {
        Self::InvalidArgument {
            message: text::owned(message),
            hint: match hint {
                Some(h) => Some(text::owned(h)),
                None => None,
            },
            json: false,
        }
    }

    pub fn config(message: &str) -> (r: Self)
        ensures
            r matches CampusError::Config { message: m, json } && m@ == message@ && !json,
    {
        Self::Config { message: text::owned(message), json: false }
    }

    pub fn keychain(message: &str) -> (r: Self)
        ensures
            r matches CampusError::Keychain { message: m, json } && m@ == message@ && !json,
    {
        Self::Keychain { message: text::owned(message), json: false }
    }

    pub fn cache(message: &str) -> (r: Self)
        ensures
            r matches CampusError::Cache { message: m, json } && m@ == message@ && !json,
    {
        Self::Cache { message: text::owned(message), json: false }
    }

    /// The human-readable text of the error.
    pub fn display_text(&self) -> (r: String)
        ensures
            r@ == display_spec(*self),
    {
        match self {
            Self::AuthRequired { .. } => text::owned("authentication is required"),
            Self::AuthExpired { .. } => text::owned("authentication expired or was rejected"),
            Self::PermissionDenied { .. } => text::owned("permission denied"),
            Self::Network { message, .. } => text::concat2("network error: ", message.as_str()),
            Self::RateLimited { .. } => text::owned("rate limited"),
            Self::MoodleApi { message, .. } => text::concat2(
                "Moodle API error: ",
                message.as_str(),
            ),
            Self::UnsupportedMoodleFeature { message, .. } => text::concat2(
                "unsupported Moodle feature: ",
                message.as_str(),
            ),
            Self::InvalidArgument { message, .. } => text::concat2(
                "invalid argument: ",
                message.as_str(),
            ),
            Self::NotFound { message, .. } => text::concat2("not found: ", message.as_str()),
            Self::Config { message, .. } => text::concat2("config error: ", message.as_str()),
            Self::Keychain { message, .. } => text::concat2(
                "keychain unavailable: ",
                message.as_str(),
            ),
            Self::Cache { message, .. } => text::concat2("cache error: ", message.as_str()),
            Self::Parse { message, .. } => text::concat2("parse error: ", message.as_str()),
            Self::Unknown { message, .. } => text::concat2("unknown error: ", message.as_str()),
        }
    }
}

/// Replacing the JSON flag changes nothing but the JSON flag: the code,
/// exit code, retry advice, hint, next steps and text stay as they were.
pub proof fn law_with_json_keeps_classification(e: CampusError, json: bool)
    ensures
        json_spec(with_json_spec(e, json)) == json,
        code_spec(with_json_spec(e, json)) == code_spec(e),
        exit_code_spec(with_json_spec(e, json)) == exit_code_spec(e),
        retryable_spec(with_json_spec(e, json)) == retryable_spec(e),
        hint_spec(with_json_spec(e, json)) == hint_spec(e),
        next_steps_spec(with_json_spec(e, json)) == next_steps_spec(e),
        display_spec(with_json_spec(e, json)) == display_spec(e),
{
}

} // verus!
