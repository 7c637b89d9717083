//! Authentication rules: what a base URL must look like, which inputs the
//! login commands need, how a token endpoint's answer is read, and what the
//! status and verification reports say.

use vstd::prelude::*;

use crate::config::Profile;
use crate::dto::{AuthImportTokenOutput, AuthLoginOutput, AuthLogoutOutput, AuthStatusOutput, AuthVerifyOutput, Warning};
use crate::error::{self, code_spec, display_spec, hint_spec, CampusError, Result};
use crate::keychain::{self, CredentialTarget};
use crate::external;
use crate::text::{self, opt_view};

verus! {

// ---------------------------------------------------------------------------
// Base URLs
// ---------------------------------------------------------------------------
pub open spec fn base_url_hint() -> Seq<char> {
    "Use a full URL such as https://lms.example.ac.jp/moodle/"@
}

pub open spec fn https_hint() -> Seq<char> {
    "Use HTTPS, or --allow-insecure-localhost for local development only."@
}

/// The hosts that count as the local machine.
pub open spec fn localhost_host(host: Option<Seq<char>>) -> bool {
    host == Some("localhost"@) || host == Some("127.0.0.1"@) || host == Some("::1"@)
}

/// A path that ends in `/`: `/` for an empty one, else the path with `/`
/// appended where it lacks one.
pub open spec fn directory_path(path: Seq<char>) -> Seq<char> {
    if path.len() == 0 {
        "/"@
    } else if path.last() == '/' {
        path
    } else {
        path + "/"@
    }
}

/// The outcome of normalizing a base URL, in terms of how `url` parses it.
pub open spec fn normalize_base_url_spec(r: Result<String>, input: Seq<char>, allow_insecure_localhost: bool) -> bool {
    match external::url_parts_of(input) {
        Err(msg) => r is Err && error::is_invalid_argument(
            r->Err_0,
            "invalid base URL: "@ + msg,
            Some(base_url_hint()),
        ),
        Ok((scheme, username, password, host, path)) => if username.len() > 0 || password is Some {
            r is Err && error::is_invalid_argument(
                r->Err_0,
                "base_url must not contain username or password."@,
                None,
            )
        } else if !(scheme == "https"@ || (allow_insecure_localhost && scheme == "http"@
            && localhost_host(host))) {
            r is Err && error::is_invalid_argument(
                r->Err_0,
                "auth login requires HTTPS base_url."@,
                Some(https_hint()),
            )
        } else {
            r is Ok && external::url_with_path_of(input, directory_path(path)) == Some(
                r->Ok_0@,
            )
        },
    }
}

/// Only a secure base URL is accepted: a normalized base URL comes from a
/// URL that parsed, carries no username or password, and uses HTTPS (or,
/// only where allowed, plain HTTP to the local machine); the result is that
/// URL with its path ending in `/`.
pub proof fn law_only_secure_base_urls_pass(
    r: Result<String>,
    input: Seq<char>,
    allow_insecure_localhost: bool,
)
    requires
        normalize_base_url_spec(r, input, allow_insecure_localhost),
    ensures
        r is Ok ==> (external::url_parts_of(input) matches Ok((scheme, user, pass, host, path))
            && user.len() == 0 && pass is None && (scheme == "https"@ || (allow_insecure_localhost
            && scheme == "http"@ && localhost_host(host))) && external::url_with_path_of(
            input,
            directory_path(path),
        ) == Some(r->Ok_0@) && directory_path(path).last() == '/'),
{
    reveal_strlit("/");
    match external::url_parts_of(input) {
        Ok((scheme, user, pass, host, path)) => {
            if path.len() == 0 {
                assert(directory_path(path) == "/"@);
            } else if path.last() != '/' {
                assert((path + "/"@).last() == '/');
            }
        },
        Err(_) => {},
    }
}

/// Checks and normalizes an LMS base URL: it must parse, carry no
/// credentials and use HTTPS (plain HTTP only to the local machine and only
/// when allowed); the query and fragment are dropped and the path made to
/// end in `/`.
pub fn normalize_base_url(input: &str, allow_insecure_localhost: bool) -> (r: Result<String>)
    ensures
        normalize_base_url_spec(r, input@, allow_insecure_localhost),
{
    let parts = match external::url_parts(input) {
        Ok(p) => p,
        Err(msg) => {
            let message = text::concat2("invalid base URL: ", msg.as_str());
            return Err(
                CampusError::invalid_argument(
                    message.as_str(),
                    Some("Use a full URL such as https://lms.example.ac.jp/moodle/"),
                ),
            );
        },
    };
    if text::chars_of(parts.username.as_str()).len() > 0 || parts.password.is_some() {
        return Err(
            CampusError::invalid_argument("base_url must not contain username or password.", None),
        );
    }
    let allowed_https = text::str_eq(parts.scheme.as_str(), "https");
    let allowed_localhost = allow_insecure_localhost && text::str_eq(parts.scheme.as_str(), "http")
        && match &parts.host {
        Some(h) => text::str_eq(h.as_str(), "localhost") || text::str_eq(h.as_str(), "127.0.0.1")
            || text::str_eq(h.as_str(), "::1"),
        None => false,
    };
    if !allowed_https && !allowed_localhost {
        return Err(
            CampusError::invalid_argument(
                "auth login requires HTTPS base_url.",
                Some("Use HTTPS, or --allow-insecure-localhost for local development only."),
            ),
        );
    }
    let path_chars = text::chars_of(parts.path.as_str());
    let path = if path_chars.len() == 0 {
        text::owned("/")
    } else if path_chars[path_chars.len() - 1] == '/' {
        parts.path.clone()
    } else {
        text::concat2(parts.path.as_str(), "/")
    };
    match external::url_with_path(input, path.as_str()) {
        Some(u) => Ok(u),
        None => {
            assert(false);
            Err(CampusError::invalid_argument("base_url could not be normalized.", None))
        },
    }
}

/// The URL of an endpoint below the base URL, where `url` can resolve it.
pub fn endpoint_url(base_url: &str, path: &str) -> (r: core::result::Result<String, String>)
    ensures
        match r {
            Ok(u) => external::url_join_of(base_url@, path@) == Ok::<Seq<char>, Seq<char>>(u@),
            Err(e) => external::url_join_of(base_url@, path@) == Err::<Seq<char>, Seq<char>>(e@),
        },
{
    external::url_join(base_url, path)
}

/// The token endpoint of a site, `login/token.php` below its base URL.
pub fn token_endpoint(base_url: &str) -> (r: Result<String>)
    ensures
        match external::url_join_of(base_url@, "login/token.php"@) {
            Ok(u) => r is Ok && r->Ok_0@ == u,
            Err(e) => r is Err && error::is_invalid_argument(
                r->Err_0,
                "invalid token endpoint: "@ + e,
                None,
            ),
        },
{
    match external::url_join(base_url, "login/token.php") {
        Ok(u) => Ok(u),
        Err(e) => {
            let message = text::concat2("invalid token endpoint: ", e.as_str());
            Err(CampusError::invalid_argument(message.as_str(), None))
        },
    }
}

// ---------------------------------------------------------------------------
// Inputs of the login commands
// ---------------------------------------------------------------------------
/// With `--json`, `auth login` cannot prompt: it needs the base URL, the
/// username and a non-interactive password source.
pub fn check_login_inputs(
    json: bool,
    has_base_url: bool,
    has_username: bool,
    password_stdin: bool,
    has_password_env: bool,
) -> (r: Result<()>)
    ensures
        json && (!has_base_url || !has_username) ==> r is Err && r->Err_0 is InvalidArgument
            && r->Err_0->InvalidArgument_json && r->Err_0->InvalidArgument_message@
            == "auth login --json requires --base-url and --username."@ && opt_view(
            r->Err_0->InvalidArgument_hint,
        ) == Some(
            "Run: campus-lms auth login --base-url <URL> --username <USER> --password-stdin --json"@,
        ),
        json && has_base_url && has_username && !password_stdin && !has_password_env ==> r is Err
            && r->Err_0 is InvalidArgument && r->Err_0->InvalidArgument_json
            && r->Err_0->InvalidArgument_message@
            == "auth login --json requires --password-stdin or --password-env."@ && opt_view(
            r->Err_0->InvalidArgument_hint,
        ) == Some(
            "Example: $env:MOODLE_PASSWORD='...'; campus-lms auth login --json --base-url <URL> --username <USER> --password-env MOODLE_PASSWORD"@,
        ),
        !json || (has_base_url && has_username && (password_stdin || has_password_env)) ==> r is Ok,
{
    if json && (!has_base_url || !has_username) {
        return Err(
            CampusError::invalid_argument(
                "auth login --json requires --base-url and --username.",
                Some(
                    "Run: campus-lms auth login --base-url <URL> --username <USER> --password-stdin --json",
                ),
            ).with_json(true),
        );
    }
    if json && !password_stdin && !has_password_env {
        return Err(
            CampusError::invalid_argument(
                "auth login --json requires --password-stdin or --password-env.",
                Some(
                    "Example: $env:MOODLE_PASSWORD='...'; campus-lms auth login --json --base-url <URL> --username <USER> --password-env MOODLE_PASSWORD",
                ),
            ).with_json(true),
        );
    }
    Ok(())
}

/// With `--json`, `auth import-token` needs a non-interactive token source.
pub fn check_import_inputs(json: bool, token_stdin: bool, has_token_env: bool) -> (r: Result<()>)
    ensures
        json && !token_stdin && !has_token_env ==> r is Err && r->Err_0 is InvalidArgument
            && r->Err_0->InvalidArgument_json && r->Err_0->InvalidArgument_message@
            == "auth import-token --json requires --token-stdin or --token-env."@ && opt_view(
            r->Err_0->InvalidArgument_hint,
        ) == Some(
            "Example: $env:MOODLE_TOKEN='...'; campus-lms auth import-token --json --base-url <URL> --username <USER> --token-env MOODLE_TOKEN"@,
        ),
        !(json && !token_stdin && !has_token_env) ==> r is Ok,
{
    if json && !token_stdin && !has_token_env {
        return Err(
            CampusError::invalid_argument(
                "auth import-token --json requires --token-stdin or --token-env.",
                Some(
                    "Example: $env:MOODLE_TOKEN='...'; campus-lms auth import-token --json --base-url <URL> --username <USER> --token-env MOODLE_TOKEN",
                ),
            ).with_json(true),
        );
    }
    Ok(())
}

/// A secret comes from standard input or from an environment variable, not
/// both.
pub fn check_secret_sources(from_stdin: bool, from_env: bool, secret_name: &str, json: bool) -> (r:
    Result<()>)
    ensures
        from_stdin && from_env ==> r is Err && r->Err_0 is InvalidArgument
            && r->Err_0->InvalidArgument_json == json && r->Err_0->InvalidArgument_message@
            == "use only one of --"@ + secret_name@ + "-stdin or --"@ + secret_name@ + "-env"@
            && r->Err_0->InvalidArgument_hint is None,
        !(from_stdin && from_env) ==> r is Ok,
{
    if from_stdin && from_env {
        let a = text::concat3("use only one of --", secret_name, "-stdin or --");
        let message = text::concat3(a.as_str(), secret_name, "-env");
        return Err(CampusError::invalid_argument(message.as_str(), None).with_json(json));
    }
    Ok(())
}

/// A secret read from standard input, without the line endings that end it.
pub open spec fn strip_line_end_spec(s: Seq<char>) -> Seq<char>
    decreases s.len(),
{
    if s.len() > 0 && (s.last() == '\r' || s.last() == '\n') {
        strip_line_end_spec(s.drop_last())
    } else {
        s
    }
}

pub fn strip_line_end(input: &str) -> (r: String)
    ensures
        r@ == strip_line_end_spec(input@),
{
    let cs = text::chars_of(input);
    let mut end = cs.len();
    assert(cs@.take(end as int) == cs@);
    while end > 0 && (cs[end - 1] == '\r' || cs[end - 1] == '\n')
        invariant
            cs@ == input@,
            end <= cs@.len(),
            strip_line_end_spec(input@) == strip_line_end_spec(cs@.take(end as int)),
        decreases end,
    {
        assert(cs@.take(end as int).drop_last() == cs@.take(end - 1));
        end = end - 1;
    }
    let kept = text::slice_chars(&cs, 0, end);
    assert(kept@ == cs@.take(end as int));
    text::string_of(&kept)
}

/// A secret must not be empty.
pub fn check_secret_value(value: &str, secret_name: &str, json: bool) -> (r: Result<()>)
    ensures
        value@.len() == 0 ==> r is Err && r->Err_0 is InvalidArgument
            && r->Err_0->InvalidArgument_json == json && r->Err_0->InvalidArgument_message@
            == secret_name@ + " must not be empty"@ && r->Err_0->InvalidArgument_hint is None,
        value@.len() > 0 ==> r is Ok,
{
    if text::chars_of(value).len() == 0 {
        let message = text::concat2(secret_name, " must not be empty");
        return Err(CampusError::invalid_argument(message.as_str(), None).with_json(json));
    }
    Ok(())
}

/// What a token endpoint's answer means: its token, else a Moodle error
/// carrying its error text, its error code, or a generic message.
pub fn token_outcome(
    token: Option<String>,
    error_text: Option<String>,
    errorcode: Option<String>,
    json: bool,
) -> (r: Result<String>)
    ensures
        match token {
            Some(t) => r is Ok && r->Ok_0 == t,
            None => r is Err && r->Err_0 is MoodleApi && r->Err_0->MoodleApi_json == json
                && r->Err_0->MoodleApi_message@ == match error_text {
                Some(e) => e@,
                None => match errorcode {
                    Some(c) => c@,
                    None => "login failed without a Moodle error message"@,
                },
            },
        },
{
    if let Some(t) = token {
        return Ok(t);
    }
    let message = match error_text {
        Some(e) => e,
        None => match errorcode {
            Some(c) => c,
            None => text::owned("login failed without a Moodle error message"),
        },
    };
    Err(CampusError::MoodleApi { message, json })
}

// ---------------------------------------------------------------------------
// Status and verification reports
// ---------------------------------------------------------------------------
/// What to run next, given how far the authentication checks got.
pub open spec fn auth_next_steps_spec(
    profile_configured: bool,
    token_readable: bool,
    live_ok: Option<bool>,
) -> Seq<Seq<char>> {
    if !profile_configured {
        seq![
            "Run: campus-lms auth login"@,
            "For SSO/MFA sites, run: campus-lms auth import-token"@,
        ]
    } else if !token_readable {
        seq![
            "Run: campus-lms auth verify --json"@,
            "Run: campus-lms auth login"@,
            "For SSO/MFA sites, run: campus-lms auth import-token"@,
        ]
    } else if live_ok == Some(false) {
        seq![
            "Run: campus-lms doctor --json"@,
            "If the token is expired, run campus-lms auth login or auth import-token."@,
            "Ask the LMS administrator whether Mobile Web Services are enabled for this account."@,
        ]
    } else {
        seq!["Run: campus-lms doctor --json"@, "Run: campus-lms ai snapshot --days 14 --json"@]
    }
}

/// The characters of each string of a list.
pub open spec fn views(v: Seq<String>) -> Seq<Seq<char>> {
    v.map_values(|s: String| s@)
}

fn strings_of(items: &[&str]) -> (r: Vec<String>)
    ensures
        r@.len() == items@.len(),
        forall|i: int| 0 <= i < items@.len() ==> (#[trigger] r@[i])@ == items@[i]@,
{
    let mut out: Vec<String> = Vec::new();
    let mut i: usize = 0;
    while i < items.len()
        invariant
            i <= items@.len(),
            out@.len() == i,
            forall|k: int| 0 <= k < i ==> (#[trigger] out@[k])@ == items@[k]@,
        decreases items@.len() - i,
    {
        out.push(text::owned(items[i]));
        i = i + 1;
    }
    out
}

pub fn auth_next_steps(profile_configured: bool, token_readable: bool, live_ok: Option<bool>) -> (r:
    Vec<String>)
    ensures
        views(r@) == auth_next_steps_spec(profile_configured, token_readable, live_ok),
{
    let r = if !profile_configured {
        strings_of(
            &["Run: campus-lms auth login", "For SSO/MFA sites, run: campus-lms auth import-token"],
        )
    } else if !token_readable {
        strings_of(
            &[
                "Run: campus-lms auth verify --json",
                "Run: campus-lms auth login",
                "For SSO/MFA sites, run: campus-lms auth import-token",
            ],
        )
    } else if live_ok == Some(false) {
        strings_of(
            &[
                "Run: campus-lms doctor --json",
                "If the token is expired, run campus-lms auth login or auth import-token.",
                "Ask the LMS administrator whether Mobile Web Services are enabled for this account.",
            ],
        )
    } else {
        strings_of(&["Run: campus-lms doctor --json", "Run: campus-lms ai snapshot --days 14 --json"])
    };
    assert(views(r@) == auth_next_steps_spec(profile_configured, token_readable, live_ok));
    r
}

/// The short form of a live-check status.
pub open spec fn live_check_spec(live_status: Seq<char>) -> Seq<char> {
    if live_status == "verified"@ {
        "ok"@
    } else if live_status == "failed"@ {
        "failed"@
    } else if live_status == "not_checked"@ {
        "not_checked"@
    } else {
        "not_run"@
    }
}

pub fn live_check(live_status: &str) -> (r: String)
    ensures
        r@ == live_check_spec(live_status@),
{
    if text::str_eq(live_status, "verified") {
        text::owned("ok")
    } else if text::str_eq(live_status, "failed") {
        text::owned("failed")
    } else if text::str_eq(live_status, "not_checked") {
        text::owned("not_checked")
    } else {
        text::owned("not_run")
    }
}


/// A warning as plain values: code, message and hint, with no item.
pub open spec fn warning_is(w: Warning, code: Seq<char>, message: Seq<char>, hint: Option<Seq<char>>) -> bool {
    &&& w.code@ == code
    &&& w.message@ == message
    &&& opt_view(w.hint) == hint
    &&& w.item is None
    &&& w.itemid is None
}

/// The warning that reports a failed call with the error's own code, text
/// and hint.
pub open spec fn error_warning_spec(w: Warning, e: CampusError) -> bool {
    warning_is(w, code_spec(e), display_spec(e), hint_spec(e))
}

fn hinted(code: &str, message: &str, hint: &str) -> (w: Warning)
    ensures
        warning_is(w, code@, message@, Some(hint@)),
{
    Warning::new(code, message, Some(text::owned(hint)))
}

/// A warning that carries an error's code, text and hint.
pub fn error_warning(e: &CampusError) -> (w: Warning)
    ensures
        error_warning_spec(w, *e),
{
    let hint = match e.hint() {
        Some(h) => Some(text::owned(h)),
        None => None,
    };
    let message = e.display_text();
    Warning::new(e.code(), message.as_str(), hint)
}

/// How the live check went: whether it passed (`None` when it did not
/// apply) and its status word.
pub open spec fn live_outcome_spec(
    has_profile: bool,
    token_readable: bool,
    live_requested: bool,
    live: Option<Result<()>>,
) -> (Option<bool>, Seq<char>) {
    if has_profile && live_requested && token_readable {
        match live {
            Some(Ok(())) => (Some(true), "verified"@),
            _ => (Some(false), "failed"@),
        }
    } else if has_profile && live_requested {
        (Some(false), "not_checked"@)
    } else if live_requested {
        (None, "not_checked"@)
    } else {
        (None, "not_requested"@)
    }
}

/// The credential target of the profile, if there is one.
pub open spec fn target_of(t: Option<CredentialTarget>, profile: Option<Profile>, backend: Seq<char>) -> bool {
    match profile {
        Some(p) => t matches Some(c) && c.service@ == keychain::service_name_spec(
            p.base_url@,
            p.service@,
        ) && c.account@ == p.username@ && c.backend@ == backend,
        None => t is None,
    }
}

fn target_for(profile: Option<&Profile>, backend: &str) -> (r: Option<CredentialTarget>)
    ensures
        target_of(
            r,
            match profile {
                Some(p) => Some(*p),
                None => None,
            },
            backend@,
        ),
{
    match profile {
        Some(p) => Some(keychain::credential_target(p, backend)),
        None => None,
    }
}

/// The part of a report both `auth status` and `auth verify` share.
pub open spec fn common_report(
    profile: Option<Profile>,
    base_url: Option<String>,
    username: Option<String>,
) -> bool {
    &&& opt_view(base_url) == match profile {
        Some(p) => Some(p.base_url@),
        None => None,
    }
    &&& opt_view(username) == match profile {
        Some(p) => Some(p.username@),
        None => None,
    }
}

/// Whether `o` is the `auth status` report for what the checks found:
/// `token_read` is the result of reading the profile's token (made when a
/// profile is configured), `live` that of the live call (made when asked for
/// and the token is readable).
pub open spec fn is_status_report(
    o: AuthStatusOutput,
    profile_name: Seq<char>,
    active_profile: Seq<char>,
    config_path: Option<Seq<char>>,
    profile: Option<Profile>,
    backend: Seq<char>,
    live_requested: bool,
    token_read: Option<Result<()>>,
    live: Option<Result<()>>,
) -> bool {
    let readable = profile is Some && token_read matches Some(Ok(()));
    let (live_ok, live_status) = live_outcome_spec(profile is Some, readable, live_requested, live);
    &&& o.schema_version@ == "campus-lms.auth_status.v1"@
    &&& o.profile@ == profile_name
    &&& o.active_profile@ == active_profile
    &&& opt_view(o.config_path) == config_path
    &&& common_report(profile, o.base_url, o.username)
    &&& target_of(o.credential_target, profile, backend)
    &&& o.token_available == readable
    &&& o.token_readable == readable
    &&& o.live_ok == live_ok
    &&& o.live_status@ == live_status
    &&& o.live_check@ == live_check_spec(live_status)
    &&& o.authenticated == (profile is Some && readable && live_ok != Some(false))
    &&& views(o.next_steps@) == auth_next_steps_spec(profile is Some, readable, live_ok)
    &&& match profile {
        None => o.warnings@.len() == 1 && warning_is(
            o.warnings@[0],
            "PROFILE_UNAVAILABLE"@,
            "No profile is configured for the selected profile name."@,
            Some("Run campus-lms auth login or auth import-token."@),
        ),
        Some(_) => {
            let token_warnings: int = if readable {
                0
            } else {
                1
            };
            let live_warnings: int = if live matches Some(Err(_)) && readable && live_requested {
                1
            } else {
                0
            };
            &&& o.warnings@.len() == token_warnings + live_warnings
            &&& match token_read {
                Some(Err(e)) => if e is AuthRequired {
                    warning_is(
                        o.warnings@[0],
                        "TOKEN_UNAVAILABLE"@,
                        "No token was found in the OS credential store."@,
                        Some(
                            "Run campus-lms auth login, or auth import-token for SSO/MFA environments."@,
                        ),
                    )
                } else {
                    warning_is(
                        o.warnings@[0],
                        "KEYCHAIN_UNAVAILABLE"@,
                        display_spec(e),
                        Some("Run campus-lms auth verify --json to test the credential backend."@),
                    )
                },
                _ => true,
            }
            &&& (live_warnings == 1 ==> (live matches Some(Err(e)) && error_warning_spec(
                o.warnings@[token_warnings],
                e,
            )))
        },
    }
}

fn live_step(
    has_profile: bool,
    readable: bool,
    live_requested: bool,
    live: &Option<Result<()>>,
    warnings: &mut Vec<Warning>,
) -> (r: (Option<bool>, String))
    ensures
        r.0 == live_outcome_spec(has_profile, readable, live_requested, *live).0,
        r.1@ == live_outcome_spec(has_profile, readable, live_requested, *live).1,
        (has_profile && live_requested && readable && live matches Some(Err(_))) ==> (final(warnings)@.len()
            == old(warnings)@.len() + 1 && final(warnings)@.take(old(warnings)@.len() as int)
            == old(warnings)@ && error_warning_spec(
            final(warnings)@[old(warnings)@.len() as int],
            live->Some_0->Err_0,
        )),
        !(has_profile && live_requested && readable && live matches Some(Err(_))) ==> final(warnings)@
            == old(warnings)@,
{
    if has_profile && live_requested && readable {
        match live {
            Some(Ok(())) => (Some(true), text::owned("verified")),
            Some(Err(e)) => {
                let ghost before = warnings@;
                warnings.push(error_warning(e));
                assert(warnings@.take(before.len() as int) == before);
                (Some(false), text::owned("failed"))
            },
            None => (Some(false), text::owned("failed")),
        }
    } else if has_profile && live_requested {
        (Some(false), text::owned("not_checked"))
    } else if live_requested {
        (None, text::owned("not_checked"))
    } else {
        (None, text::owned("not_requested"))
    }
}

/// The `auth status` report for what the checks found.
pub fn auth_status_report(
    profile_name: String,
    active_profile: String,
    config_path: Option<String>,
    profile: Option<&Profile>,
    backend: &str,
    live_requested: bool,
    token_read: &Option<Result<()>>,
    live: &Option<Result<()>>,
    generated_at: String,
) -> (r: AuthStatusOutput)
    ensures
        is_status_report(
            r,
            profile_name@,
            active_profile@,
            opt_view(config_path),
            match profile {
                Some(p) => Some(*p),
                None => None,
            },
            backend@,
            live_requested,
            *token_read,
            *live,
        ),
        r.generated_at == generated_at,
{
    let mut warnings: Vec<Warning> = Vec::new();
    let has_profile = profile.is_some();
    let mut readable = false;
    if has_profile {
        match token_read {
            Some(Ok(())) => {
                readable = true;
            },
            Some(Err(e)) => {
                if let CampusError::AuthRequired { .. } = e {
                    warnings.push(
                        hinted(
                            "TOKEN_UNAVAILABLE",
                            "No token was found in the OS credential store.",
                            "Run campus-lms auth login, or auth import-token for SSO/MFA environments.",
                        ),
                    );
                } else {
                    let message = e.display_text();
                    warnings.push(
                        hinted(
                            "KEYCHAIN_UNAVAILABLE",
                            message.as_str(),
                            "Run campus-lms auth verify --json to test the credential backend.",
                        ),
                    );
                }
            },
            None => {
                warnings.push(
                    hinted(
                        "TOKEN_UNAVAILABLE",
                        "No token was found in the OS credential store.",
                        "Run campus-lms auth login, or auth import-token for SSO/MFA environments.",
                    ),
                );
            },
        }
    } else {
        warnings.push(
            hinted(
                "PROFILE_UNAVAILABLE",
                "No profile is configured for the selected profile name.",
                "Run campus-lms auth login or auth import-token.",
            ),
        );
    }
    assert(readable == (token_read matches Some(Ok(())) && has_profile));
    let ghost before_live = warnings@;
    let (live_ok, live_status) = live_step(has_profile, readable, live_requested, live, &mut warnings);
    let authenticated = has_profile && readable && live_ok != Some(false);
    let next_steps = auth_next_steps(has_profile, readable, live_ok);
    let check = live_check(live_status.as_str());
    let base_url = match profile {
        Some(p) => Some(p.base_url.clone()),
        None => None,
    };
    let username = match profile {
        Some(p) => Some(p.username.clone()),
        None => None,
    };
    AuthStatusOutput {
        schema_version: "campus-lms.auth_status.v1",
        generated_at,
        authenticated,
        profile: profile_name,
        active_profile,
        config_path,
        base_url,
        username,
        credential_target: target_for(profile, backend),
        token_available: readable,
        token_readable: readable,
        live_status,
        live_check: check,
        live_ok,
        warnings,
        next_steps,
    }
}


/// Whether `o` is the `auth verify` report for what the checks found:
/// `roundtrip` is the result of writing, reading and deleting a test
/// credential and `token_read` that of reading the profile's token (both
/// made when a profile is configured), `live` that of the live call.
pub open spec fn is_verify_report(
    o: AuthVerifyOutput,
    profile_name: Seq<char>,
    active_profile: Seq<char>,
    config_path: Option<Seq<char>>,
    profile: Option<Profile>,
    backend: Seq<char>,
    live_requested: bool,
    roundtrip: Option<Result<()>>,
    token_read: Option<Result<()>>,
    live: Option<Result<()>>,
) -> bool {
    let readable = profile is Some && token_read matches Some(Ok(()));
    let roundtrip_ok = profile is Some && roundtrip matches Some(Ok(()));
    let (live_ok, live_status) = live_outcome_spec(profile is Some, readable, live_requested, live);
    &&& o.schema_version@ == "campus-lms.auth_verify.v1"@
    &&& o.profile@ == profile_name
    &&& o.active_profile@ == active_profile
    &&& opt_view(o.config_path) == config_path
    &&& o.profile_configured == profile is Some
    &&& common_report(profile, o.base_url, o.username)
    &&& target_of(o.credential_target, profile, backend)
    &&& o.backend_roundtrip_ok == roundtrip_ok
    &&& o.credential_backend_ok == roundtrip_ok
    &&& o.token_available == readable
    &&& o.token_readable == readable
    &&& o.live_ok == live_ok
    &&& o.live_status@ == live_status
    &&& o.live_check@ == live_check_spec(live_status)
    &&& views(o.next_steps@) == auth_next_steps_spec(profile is Some, readable, live_ok)
    &&& match profile {
        None => o.warnings@.len() == 1 && warning_is(
            o.warnings@[0],
            "PROFILE_UNAVAILABLE"@,
            "No profile is configured for the selected profile name."@,
            Some("Run campus-lms auth login or auth import-token."@),
        ),
        Some(_) => {
            let rw: int = if roundtrip_ok {
                0
            } else {
                1
            };
            let tw: int = if readable {
                0
            } else {
                1
            };
            let lw: int = if live matches Some(Err(_)) && readable && live_requested {
                1
            } else {
                0
            };
            &&& o.warnings@.len() == rw + tw + lw
            &&& match roundtrip {
                Some(Err(e)) => warning_is(
                    o.warnings@[0],
                    "KEYCHAIN_ROUNDTRIP_FAILED"@,
                    display_spec(e),
                    Some("The OS credential store could not write/read/delete a test credential."@),
                ),
                _ => true,
            }
            &&& match token_read {
                Some(Err(e)) => if e is AuthRequired {
                    warning_is(
                        o.warnings@[rw],
                        "TOKEN_UNAVAILABLE"@,
                        "No Moodle token was found for this profile."@,
                        Some(
                            "Run campus-lms auth login, or auth import-token for SSO/MFA environments."@,
                        ),
                    )
                } else {
                    warning_is(
                        o.warnings@[rw],
                        "TOKEN_READ_FAILED"@,
                        display_spec(e),
                        Some("The configured profile exists, but the token could not be read."@),
                    )
                },
                _ => true,
            }
            &&& (lw == 1 ==> error_warning_spec(o.warnings@[rw + tw], live->Some_0->Err_0))
        },
    }
}

/// The `auth verify` report for what the checks found.
pub fn auth_verify_report(
    profile_name: String,
    active_profile: String,
    config_path: Option<String>,
    profile: Option<&Profile>,
    backend: &str,
    live_requested: bool,
    roundtrip: &Option<Result<()>>,
    token_read: &Option<Result<()>>,
    live: &Option<Result<()>>,
    generated_at: String,
) -> (r: AuthVerifyOutput)
    ensures
        is_verify_report(
            r,
            profile_name@,
            active_profile@,
            opt_view(config_path),
            match profile {
                Some(p) => Some(*p),
                None => None,
            },
            backend@,
            live_requested,
            *roundtrip,
            *token_read,
            *live,
        ),
        r.generated_at == generated_at,
{
    let mut warnings: Vec<Warning> = Vec::new();
    let has_profile = profile.is_some();
    let mut roundtrip_ok = false;
    let mut readable = false;
    if has_profile {
        match roundtrip {
            Some(Ok(())) => {
                roundtrip_ok = true;
            },
            Some(Err(e)) => {
                let message = e.display_text();
                warnings.push(
                    hinted(
                        "KEYCHAIN_ROUNDTRIP_FAILED",
                        message.as_str(),
                        "The OS credential store could not write/read/delete a test credential.",
                    ),
                );
            },
            None => {
                warnings.push(
                    hinted(
                        "KEYCHAIN_ROUNDTRIP_FAILED",
                        "The credential store round trip was not run.",
                        "The OS credential store could not write/read/delete a test credential.",
                    ),
                );
            },
        }
        let ghost before_token = warnings@;
        assert(*roundtrip matches Some(Err(e)) ==> warning_is(
                    warnings@[0],
                    "KEYCHAIN_ROUNDTRIP_FAILED"@,
                    display_spec(e),
                    Some("The OS credential store could not write/read/delete a test credential."@),
                ));
        match token_read {
            Some(Ok(())) => {
                readable = true;
            },
            Some(Err(e)) => {
                if let CampusError::AuthRequired { .. } = e {
                    warnings.push(
                        hinted(
                            "TOKEN_UNAVAILABLE",
                            "No Moodle token was found for this profile.",
                            "Run campus-lms auth login, or auth import-token for SSO/MFA environments.",
                        ),
                    );
                } else {
                    let message = e.display_text();
                    warnings.push(
                        hinted(
                            "TOKEN_READ_FAILED",
                            message.as_str(),
                            "The configured profile exists, but the token could not be read.",
                        ),
                    );
                }
            },
            None => {
                warnings.push(
                    hinted(
                        "TOKEN_UNAVAILABLE",
                        "No Moodle token was found for this profile.",
                        "Run campus-lms auth login, or auth import-token for SSO/MFA environments.",
                    ),
                );
            },
        }
        assert forall|k: int| 0 <= k < before_token.len() implies warnings@[k] == before_token[k] by {}
    } else {
        warnings.push(
            hinted(
                "PROFILE_UNAVAILABLE",
                "No profile is configured for the selected profile name.",
                "Run campus-lms auth login or auth import-token.",
            ),
        );
    }
    let ghost before_live = warnings@;
    let (live_ok, live_status) = live_step(has_profile, readable, live_requested, live, &mut warnings);
    proof {
        assert forall|k: int| 0 <= k < before_live.len() implies warnings@[k] == before_live[k] by {
            if warnings@.len() > before_live.len() {
                assert(warnings@.take(before_live.len() as int)[k] == warnings@[k]);
            }
        }
    }
    let next_steps = auth_next_steps(has_profile, readable, live_ok);
    let check = live_check(live_status.as_str());
    let base_url = match profile {
        Some(p) => Some(p.base_url.clone()),
        None => None,
    };
    let username = match profile {
        Some(p) => Some(p.username.clone()),
        None => None,
    };
    AuthVerifyOutput {
        schema_version: "campus-lms.auth_verify.v1",
        generated_at,
        profile: profile_name,
        active_profile,
        config_path,
        profile_configured: has_profile,
        base_url,
        username,
        credential_target: target_for(profile, backend),
        backend_roundtrip_ok: roundtrip_ok,
        credential_backend_ok: roundtrip_ok,
        token_available: readable,
        token_readable: readable,
        live_status,
        live_check: check,
        live_ok,
        warnings,
        next_steps,
    }
}


// ---------------------------------------------------------------------------
// Login, token import and logout reports
// ---------------------------------------------------------------------------
/// What to run after storing a token.
pub open spec fn stored_next_steps() -> Seq<Seq<char>> {
    seq![
        "Run: campus-lms auth status --live --json"@,
        "Run: campus-lms doctor --json"@,
        "Run: campus-lms ai snapshot --days 14 --json"@,
    ]
}

fn stored_steps() -> (r: Vec<String>)
    ensures
        views(r@) == stored_next_steps(),
{
    let r = strings_of(
        &[
            "Run: campus-lms auth status --live --json",
            "Run: campus-lms doctor --json",
            "Run: campus-lms ai snapshot --days 14 --json",
        ],
    );
    assert(views(r@) == stored_next_steps());
    r
}

/// The report of a login whose token was stored and read back.
pub fn login_report(profile_name: String, profile: &Profile, backend: &str, generated_at: String) -> (r:
    AuthLoginOutput)
    ensures
        r.schema_version@ == "campus-lms.auth_login.v1"@,
        r.generated_at == generated_at,
        r.authenticated,
        r.profile == profile_name,
        r.base_url@ == profile.base_url@,
        r.username@ == profile.username@,
        target_of(Some(r.credential_target), Some(*profile), backend@),
        r.token_verified,
        r.warnings@.len() == 0,
        views(r.next_steps@) == stored_next_steps(),
{
    AuthLoginOutput {
        schema_version: "campus-lms.auth_login.v1",
        generated_at,
        authenticated: true,
        profile: profile_name,
        base_url: profile.base_url.clone(),
        username: profile.username.clone(),
        credential_target: keychain::credential_target(profile, backend),
        token_verified: true,
        warnings: Vec::new(),
        next_steps: stored_steps(),
    }
}

/// The report of an imported token that was stored and read back.
pub fn import_report(profile_name: String, profile: &Profile, backend: &str, generated_at: String) -> (r:
    AuthImportTokenOutput)
    ensures
        r.schema_version@ == "campus-lms.auth_import_token.v1"@,
        r.generated_at == generated_at,
        r.authenticated,
        r.profile == profile_name,
        r.base_url@ == profile.base_url@,
        r.username@ == profile.username@,
        target_of(Some(r.credential_target), Some(*profile), backend@),
        r.token_verified,
        r.warnings@.len() == 0,
        views(r.next_steps@) == stored_next_steps(),
{
    AuthImportTokenOutput {
        schema_version: "campus-lms.auth_import_token.v1",
        generated_at,
        authenticated: true,
        profile: profile_name,
        base_url: profile.base_url.clone(),
        username: profile.username.clone(),
        credential_target: keychain::credential_target(profile, backend),
        token_verified: true,
        warnings: Vec::new(),
        next_steps: stored_steps(),
    }
}

/// The report of a logout.
pub fn logout_report(profile_name: String, generated_at: String) -> (r: AuthLogoutOutput)
    ensures
        r.schema_version@ == "campus-lms.auth_logout.v1"@,
        r.generated_at == generated_at,
        r.logged_out,
        r.profile == profile_name,
        r.warnings@.len() == 0,
{
    AuthLogoutOutput {
        schema_version: "campus-lms.auth_logout.v1",
        generated_at,
        logged_out: true,
        profile: profile_name,
        warnings: Vec::new(),
    }
}

/// The profile a login stores: the site, account and service, with the
/// default cache periods.
pub fn new_profile(base_url: String, username: String, service: String) -> (r: Profile)
    ensures
        r.base_url == base_url,
        r.username == username,
        r.service == service,
        r.cache_ttl_seconds == 300,
        r.cache_retention_seconds == 30 * 24 * 60 * 60,
{
    Profile {
        base_url,
        username,
        service,
        cache_ttl_seconds: crate::config::default_cache_ttl_seconds(),
        cache_retention_seconds: crate::config::default_cache_retention_seconds(),
    }
}

} // verus!
