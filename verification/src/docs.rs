//! Machine-readable documentation: the error codes and the command
//! capabilities printed for scripts and AI tools.

use vstd::prelude::*;

use crate::error::{code_spec, exit_code_spec, retryable_spec, CampusError};

verus! {

// ---------------------------------------------------------------------------
// Error codes
// ---------------------------------------------------------------------------
/// One documented error code.
#[derive(Debug, Clone, Copy)]
pub struct ErrorDoc {
    pub code: &'static str,
    pub exit_code: i32,
    pub retryable: bool,
    pub hint: &'static str,
}

/// The documented error codes as plain values: code, exit code, whether a
/// retry may help, hint.
pub open spec fn error_docs_spec() -> Seq<(Seq<char>, i32, bool, Seq<char>)> {
    seq![
        ("AUTH_REQUIRED"@, 10, false, "Run: campus-lms auth verify --json, then campus-lms auth login or auth import-token."@),
        ("AUTH_EXPIRED"@, 14, false, "Run: campus-lms auth login or auth import-token."@),
        ("PERMISSION_DENIED"@, 11, false, "Run: campus-lms doctor --json and check LMS permissions."@),
        ("NETWORK_ERROR"@, 12, true, "Check network, VPN, proxy, captive portal, or Moodle base URL."@),
        ("RATE_LIMITED"@, 13, true, "Wait and retry later, or use --offline when cached data is acceptable."@),
        ("MOODLE_API_ERROR"@, 20, false, "Run: campus-lms doctor --json to check enabled Web Service functions."@),
        ("UNSUPPORTED_MOODLE_FEATURE"@, 21, false, "Ask your LMS administrator about Mobile Web Services and the token service."@),
        ("CONFIG_ERROR"@, 30, false, "Run: campus-lms auth status --json or campus-lms init."@),
        ("KEYCHAIN_UNAVAILABLE"@, 31, false, "Run: campus-lms auth verify --json and check OS credential store availability."@),
        ("CACHE_ERROR"@, 32, false, "Run: campus-lms cleanup --cache --dry-run first, then cleanup --cache --yes."@),
        ("PARSE_ERROR"@, 40, false, "The LMS response may not match the expected schema; run campus-lms doctor --json."@),
    ]
}

pub open spec fn error_doc_view(d: ErrorDoc) -> (Seq<char>, i32, bool, Seq<char>) {
    (d.code@, d.exit_code, d.retryable, d.hint@)
}

fn doc(code: &'static str, exit_code: i32, retryable: bool, hint: &'static str) -> (d: ErrorDoc)
    ensures
        error_doc_view(d) == (code@, exit_code, retryable, hint@),
{
    ErrorDoc { code, exit_code, retryable, hint }
}

/// The table printed by `errors`.
pub fn error_docs() -> (r: Vec<ErrorDoc>)
    ensures
        r@.map_values(|d: ErrorDoc| error_doc_view(d)) == error_docs_spec(),
{
    let mut v: Vec<ErrorDoc> = Vec::new();
    v.push(doc("AUTH_REQUIRED", 10, false, "Run: campus-lms auth verify --json, then campus-lms auth login or auth import-token."));
    v.push(doc("AUTH_EXPIRED", 14, false, "Run: campus-lms auth login or auth import-token."));
    v.push(doc("PERMISSION_DENIED", 11, false, "Run: campus-lms doctor --json and check LMS permissions."));
    v.push(doc("NETWORK_ERROR", 12, true, "Check network, VPN, proxy, captive portal, or Moodle base URL."));
    v.push(doc("RATE_LIMITED", 13, true, "Wait and retry later, or use --offline when cached data is acceptable."));
    v.push(doc("MOODLE_API_ERROR", 20, false, "Run: campus-lms doctor --json to check enabled Web Service functions."));
    v.push(doc("UNSUPPORTED_MOODLE_FEATURE", 21, false, "Ask your LMS administrator about Mobile Web Services and the token service."));
    v.push(doc("CONFIG_ERROR", 30, false, "Run: campus-lms auth status --json or campus-lms init."));
    v.push(doc("KEYCHAIN_UNAVAILABLE", 31, false, "Run: campus-lms auth verify --json and check OS credential store availability."));
    v.push(doc("CACHE_ERROR", 32, false, "Run: campus-lms cleanup --cache --dry-run first, then cleanup --cache --yes."));
    v.push(doc("PARSE_ERROR", 40, false, "The LMS response may not match the expected schema; run campus-lms doctor --json."));
    assert(v@.map_values(|d: ErrorDoc| error_doc_view(d)) =~= error_docs_spec());
    v
}

/// An error of each documented kind, in table order.
pub open spec fn documented_error(i: int) -> CampusError {
    if i == 0 {
        CampusError::AuthRequired { json: false }
    } else if i == 1 {
        CampusError::AuthExpired { json: false }
    } else if i == 2 {
        CampusError::PermissionDenied { json: false }
    } else if i == 3 {
        CampusError::Network { message: arbitrary_text(), json: false }
    } else if i == 4 {
        CampusError::RateLimited { json: false }
    } else if i == 5 {
        CampusError::MoodleApi { message: arbitrary_text(), json: false }
    } else if i == 6 {
        CampusError::UnsupportedMoodleFeature { message: arbitrary_text(), json: false }
    } else if i == 7 {
        CampusError::Config { message: arbitrary_text(), json: false }
    } else if i == 8 {
        CampusError::Keychain { message: arbitrary_text(), json: false }
    } else if i == 9 {
        CampusError::Cache { message: arbitrary_text(), json: false }
    } else {
        CampusError::Parse { message: arbitrary_text(), json: false }
    }
}

pub open spec fn arbitrary_text() -> String {
    vstd::pervasive::arbitrary()
}

/// The error table agrees with the errors themselves: each row's code is
/// an error's code, its exit code is that error's exit code, and whether a
/// retry may help is what the error itself says.
pub proof fn law_error_docs_match_errors(i: int)
    requires
        0 <= i < error_docs_spec().len(),
    ensures
        code_spec(documented_error(i)) == error_docs_spec()[i].0,
        exit_code_spec(documented_error(i)) == error_docs_spec()[i].1,
        retryable_spec(documented_error(i)) == error_docs_spec()[i].2,
{
}

// ---------------------------------------------------------------------------
// Capabilities
// ---------------------------------------------------------------------------
/// One command as described to AI tools.
#[derive(Debug, Clone)]
pub struct CommandCapability {
    pub name: &'static str,
    pub read_only: bool,
    pub safe_for_ai: bool,
    pub description: &'static str,
    pub example: &'static str,
    pub ai_safety_notes: Vec<&'static str>,
}

/// What `capabilities` prints.
#[derive(Debug, Clone)]
pub struct Capabilities {
    pub schema_version: &'static str,
    pub recommended_entrypoint: &'static str,
    pub commands: Vec<CommandCapability>,
    pub dangerous_commands: Vec<&'static str>,
}

pub open spec fn capability_view(c: CommandCapability) -> (Seq<char>, bool, bool, Seq<char>, Seq<char>, Seq<Seq<char>>) {
    (
        c.name@,
        c.read_only,
        c.safe_for_ai,
        c.description@,
        c.example@,
        c.ai_safety_notes@.map_values(|s: &'static str| s@),
    )
}

/// The described commands as plain values: name, read-only, safe for AI,
/// description, example and safety notes.
pub open spec fn capabilities_spec() -> Seq<(Seq<char>, bool, bool, Seq<char>, Seq<char>, Seq<Seq<char>>)> {
    seq![
        ("auth login"@, false, false, "Request a Moodle Web Services token and verify OS credential-store persistence."@, "campus-lms auth login --base-url https://lms.example.edu/ --username student123 --password-stdin --json"@, Seq::empty()),
        ("auth import-token"@, false, false, "Store an administrator-issued Moodle Web Services token for SSO/MFA environments."@, "campus-lms auth import-token --base-url https://lms.example.edu/ --username student123 --token-stdin --live --json"@, Seq::empty()),
        ("auth status"@, true, true, "Show selected profile, credential target, token readability, and optional live API status."@, "campus-lms auth status --live --json"@, Seq::empty()),
        ("auth verify"@, true, true, "Verify profile configuration, OS credential-store roundtrip, token readability, and optional live API access."@, "campus-lms auth verify --live --json"@, Seq::empty()),
        ("ai snapshot"@, true, true, "Return a compact overview of upcoming Moodle tasks. Fallback submission-status checks are capped to reduce LMS load."@, "campus-lms ai snapshot --days 14 --json"@, seq!["Includes cache metadata so agents can tell whether the snapshot came from cache."@, "Reserved grade and feedback flags are reported as unsupported in this version."@]),
        ("assignment show"@, true, true, "Show assignment details without submitting or changing completion state. Use --no-cache for sensitive one-off detail reads."@, "campus-lms assignment show assign:12345 --no-cache --json"@, seq!["--include-html may expose raw LMS HTML and should be avoided unless explicitly needed."@, "Use --max-chars for large descriptions and prefer the detail_command returned by todo or ai snapshot."@]),
        ("courses"@, true, true, "List visible courses."@, "campus-lms courses --json"@, Seq::empty()),
        ("todo"@, true, true, "List upcoming LMS tasks. Use --status-check-limit or --no-submission-status-check to control fallback API load."@, "campus-lms todo --days 14 --status-check-limit 20 --json"@, seq!["Undated fallback assignments are excluded by default; use --include-undated only when needed."@, "Use --warning-details for debugging; normal AI flows should rely on warnings_summary."@]),
        ("doctor"@, true, true, "Diagnose profile, token, and Moodle Web Services function availability."@, "campus-lms doctor --json"@, Seq::empty()),
        ("init"@, true, true, "Create local config/cache directories and a non-secret default config."@, "campus-lms init --json"@, Seq::empty()),
        ("cleanup"@, false, false, "Remove selected local campus-lms data after explicit confirmation."@, "campus-lms cleanup --cache --dry-run --json"@, Seq::empty()),
        ("uninstall"@, false, false, "Clean local campus-lms user data and print the npm uninstall command."@, "campus-lms uninstall --dry-run --json"@, Seq::empty()),
    ]
}

pub open spec fn dangerous_spec() -> Seq<Seq<char>> {
    seq!["cleanup"@, "uninstall"@]
}

fn capability(
    name: &'static str,
    read_only: bool,
    safe_for_ai: bool,
    description: &'static str,
    example: &'static str,
    notes: Vec<&'static str>,
) -> (c: CommandCapability)
    ensures
        capability_view(c) == (
            name@,
            read_only,
            safe_for_ai,
            description@,
            example@,
            notes@.map_values(|s: &'static str| s@),
        ),
{
    CommandCapability { name, read_only, safe_for_ai, description, example, ai_safety_notes: notes }
}

fn notes(a: &'static str, b: &'static str) -> (r: Vec<&'static str>)
    ensures
        r@.map_values(|s: &'static str| s@) == seq![a@, b@],
{
    let mut v: Vec<&'static str> = Vec::new();
    v.push(a);
    v.push(b);
    assert(v@.map_values(|s: &'static str| s@) =~= seq![a@, b@]);
    v
}

fn no_notes() -> (r: Vec<&'static str>)
    ensures
        r@.map_values(|s: &'static str| s@) == Seq::<Seq<char>>::empty(),
{
    let v: Vec<&'static str> = Vec::new();
    assert(v@.map_values(|s: &'static str| s@) =~= Seq::<Seq<char>>::empty());
    v
}

/// The capabilities document.
pub fn capabilities() -> (r: Capabilities)
    ensures
        r.schema_version@ == "campus-lms.capabilities.v1"@,
        r.recommended_entrypoint@ == "campus-lms ai snapshot --days 14 --json"@,
        r.commands@.map_values(|c: CommandCapability| capability_view(c)) == capabilities_spec(),
        r.dangerous_commands@.map_values(|s: &'static str| s@) == dangerous_spec(),
{
    let mut v: Vec<CommandCapability> = Vec::new();
    v.push(capability("auth login", false, false, "Request a Moodle Web Services token and verify OS credential-store persistence.", "campus-lms auth login --base-url https://lms.example.edu/ --username student123 --password-stdin --json", no_notes()));
    v.push(capability("auth import-token", false, false, "Store an administrator-issued Moodle Web Services token for SSO/MFA environments.", "campus-lms auth import-token --base-url https://lms.example.edu/ --username student123 --token-stdin --live --json", no_notes()));
    v.push(capability("auth status", true, true, "Show selected profile, credential target, token readability, and optional live API status.", "campus-lms auth status --live --json", no_notes()));
    v.push(capability("auth verify", true, true, "Verify profile configuration, OS credential-store roundtrip, token readability, and optional live API access.", "campus-lms auth verify --live --json", no_notes()));
    v.push(capability("ai snapshot", true, true, "Return a compact overview of upcoming Moodle tasks. Fallback submission-status checks are capped to reduce LMS load.", "campus-lms ai snapshot --days 14 --json", notes("Includes cache metadata so agents can tell whether the snapshot came from cache.", "Reserved grade and feedback flags are reported as unsupported in this version.")));
    v.push(capability("assignment show", true, true, "Show assignment details without submitting or changing completion state. Use --no-cache for sensitive one-off detail reads.", "campus-lms assignment show assign:12345 --no-cache --json", notes("--include-html may expose raw LMS HTML and should be avoided unless explicitly needed.", "Use --max-chars for large descriptions and prefer the detail_command returned by todo or ai snapshot.")));
    v.push(capability("courses", true, true, "List visible courses.", "campus-lms courses --json", no_notes()));
    v.push(capability("todo", true, true, "List upcoming LMS tasks. Use --status-check-limit or --no-submission-status-check to control fallback API load.", "campus-lms todo --days 14 --status-check-limit 20 --json", notes("Undated fallback assignments are excluded by default; use --include-undated only when needed.", "Use --warning-details for debugging; normal AI flows should rely on warnings_summary.")));
    v.push(capability("doctor", true, true, "Diagnose profile, token, and Moodle Web Services function availability.", "campus-lms doctor --json", no_notes()));
    v.push(capability("init", true, true, "Create local config/cache directories and a non-secret default config.", "campus-lms init --json", no_notes()));
    v.push(capability("cleanup", false, false, "Remove selected local campus-lms data after explicit confirmation.", "campus-lms cleanup --cache --dry-run --json", no_notes()));
    v.push(capability("uninstall", false, false, "Clean local campus-lms user data and print the npm uninstall command.", "campus-lms uninstall --dry-run --json", no_notes()));
    assert(v@.map_values(|c: CommandCapability| capability_view(c)) =~= capabilities_spec());
    let mut dangerous: Vec<&'static str> = Vec::new();
    dangerous.push("cleanup");
    dangerous.push("uninstall");
    assert(dangerous@.map_values(|s: &'static str| s@) =~= dangerous_spec());
    Capabilities {
        schema_version: "campus-lms.capabilities.v1",
        recommended_entrypoint: "campus-lms ai snapshot --days 14 --json",
        commands: v,
        dangerous_commands: dangerous,
    }
}

/// Every command described as safe for AI tools is read-only, and every
/// dangerous command is described, as neither read-only nor safe for AI.
pub proof fn law_capabilities_safety()
    ensures
        forall|i: int|
            0 <= i < capabilities_spec().len() && (#[trigger] capabilities_spec()[i]).2
                ==> capabilities_spec()[i].1,
        forall|k: int|
            0 <= k < dangerous_spec().len() ==> exists|i: int|
                0 <= i < capabilities_spec().len() && (#[trigger] capabilities_spec()[i]).0
                    == #[trigger] dangerous_spec()[k] && !capabilities_spec()[i].1
                    && !capabilities_spec()[i].2,
{
    assert(capabilities_spec()[10].0 == dangerous_spec()[0]);
    assert(capabilities_spec()[11].0 == dangerous_spec()[1]);
}

} // verus!
