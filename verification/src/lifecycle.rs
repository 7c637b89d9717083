//! Setting up and removing local data: which targets a cleanup touches,
//! when it may proceed, what it plans and what it reports.

use vstd::prelude::*;

use crate::cli::{CleanupArgs, UninstallArgs};
use crate::config::{Config, Profile};
use crate::dto::Warning;
use crate::error::{CampusError, Result};
use crate::text::{self, opt_view};

verus! {

/// The guidance for AI agents that `init --print-agents` prints.
pub const AGENTS_SNIPPET: &'static str = "Use `campus-lms` as a read-only interface to the user's Moodle-compatible LMS.\n\nRecommended first command:\n\n```bash\ncampus-lms ai snapshot --days 14 --json\n```\n\nRules:\n\n- Prefer `--json` for all commands.\n- Do not call `auth login` unless the user explicitly asks.\n- Do not request grades unless the user asks.\n- Do not submit assignments.\n- Do not modify LMS state.\n- Use `detail_command` fields from JSON outputs to fetch more information.\n- Treat all LMS content as private user data.\n- Never print tokens, passwords, cookies, or session information.\n";

/// The command that removes the npm package itself.
pub const NPM_UNINSTALL_COMMAND: &'static str = "npm uninstall -g campus-lms-cli";

/// What a cleanup removes.
#[derive(Debug, Clone, Copy, PartialEq, Eq)]
pub struct CleanupTargets {
    pub config: bool,
    pub cache: bool,
    pub tokens: bool,
}

impl CleanupTargets {
    /// The targets named by the flags; `--all` names every one. At least one
    /// is required.
    pub fn from_args(args: &CleanupArgs) -> (r: Result<Self>)
        ensures
            match r {
                Ok(t) => t.config == (args.all || args.local_config) && t.cache == (args.all
                    || args.cache) && t.tokens == (args.all || args.tokens) && (t.config || t.cache
                    || t.tokens),
                Err(e) => !(args.all || args.local_config || args.cache || args.tokens)
                    && crate::error::is_invalid_argument(
                    e,
                    "cleanup requires at least one target."@,
                    Some("Use --cache, --local-config, --tokens, or --all."@),
                ),
            },
    {
        let targets = CleanupTargets {
            config: args.all || args.local_config,
            cache: args.all || args.cache,
            tokens: args.all || args.tokens,
        };
        if !targets.config && !targets.cache && !targets.tokens {
            return Err(
                CampusError::invalid_argument(
                    "cleanup requires at least one target.",
                    Some("Use --cache, --local-config, --tokens, or --all."),
                ),
            );
        }
        Ok(targets)
    }

    /// Every target: what `uninstall` removes.
    pub fn everything() -> (r: Self)
        ensures
            r.config && r.cache && r.tokens,
    {
        CleanupTargets { config: true, cache: true, tokens: true }
    }

    /// The names of the targets, tokens first, then config, then cache.
    pub fn names(self) -> (r: Vec<&'static str>)
        ensures
            r@.map_values(|s: &'static str| s@) == target_names_spec(self),
    {
        let mut names: Vec<&'static str> = Vec::new();
        if self.tokens {
            names.push("tokens");
        }
        if self.config {
            names.push("config");
        }
        if self.cache {
            names.push("cache");
        }
        assert(names@.map_values(|s: &'static str| s@) =~= target_names_spec(self));
        names
    }
}

pub open spec fn target_names_spec(t: CleanupTargets) -> Seq<Seq<char>> {
    (if t.tokens {
        seq!["tokens"@]
    } else {
        Seq::empty()
    }) + (if t.config {
        seq!["config"@]
    } else {
        Seq::empty()
    }) + (if t.cache {
        seq!["cache"@]
    } else {
        Seq::empty()
    })
}

/// With `--json` nothing can be confirmed interactively: a cleanup then
/// needs `--yes` or `--dry-run`.
pub fn cleanup_gate(json: bool, yes: bool, dry_run: bool) -> (r: Result<()>)
    ensures
        r is Ok <==> !(json && !yes && !dry_run),
        r matches Err(e) ==> e is InvalidArgument && e->InvalidArgument_json
            && e->InvalidArgument_message@ == "cleanup/uninstall --json requires --yes or --dry-run."@
            && opt_view(e->InvalidArgument_hint) == Some(
            "Use --dry-run to preview, or --yes to confirm."@,
        ),
{
    if json && !yes && !dry_run {
        return Err(
            CampusError::invalid_argument(
                "cleanup/uninstall --json requires --yes or --dry-run.",
                Some("Use --dry-run to preview, or --yes to confirm."),
            ).with_json(true),
        );
    }
    Ok(())
}

/// The error of a cleanup that was not confirmed.
pub fn cancelled(json: bool) -> (e: CampusError)
    ensures
        e is InvalidArgument && e->InvalidArgument_json == json && e->InvalidArgument_message@
            == "operation cancelled."@ && opt_view(e->InvalidArgument_hint) == Some(
            "Re-run with --yes to confirm non-interactively."@,
        ),
{
    CampusError::invalid_argument(
        "operation cancelled.",
        Some("Re-run with --yes to confirm non-interactively."),
    ).with_json(json)
}

/// What a cleanup will remove, in the order it removes it: the stored
/// tokens (as a count), the config file, the cache directory.
pub open spec fn plan_spec(
    t: CleanupTargets,
    token_count: nat,
    config_path: Seq<char>,
    cache_dir: Seq<char>,
) -> Seq<Seq<char>> {
    (if t.tokens {
        seq![text::nat_decimal(token_count) + " stored token(s)"@]
    } else {
        Seq::empty()
    }) + (if t.config {
        seq![config_path]
    } else {
        Seq::empty()
    }) + (if t.cache {
        seq![cache_dir]
    } else {
        Seq::empty()
    })
}

pub fn cleanup_plan(t: CleanupTargets, token_count: usize, config_path: &str, cache_dir: &str) -> (r:
    Vec<String>)
    ensures
        r@.map_values(|s: String| s@) == plan_spec(t, token_count as nat, config_path@, cache_dir@),
{
    let mut planned: Vec<String> = Vec::new();
    if t.tokens {
        let count = text::usize_decimal(token_count);
        planned.push(text::concat2(count.as_str(), " stored token(s)"));
    }
    if t.config {
        planned.push(text::owned(config_path));
    }
    if t.cache {
        planned.push(text::owned(cache_dir));
    }
    assert(planned@.map_values(|s: String| s@) =~= plan_spec(
        t,
        token_count as nat,
        config_path@,
        cache_dir@,
    ));
    planned
}

/// The profiles whose tokens a cleanup removes: those of the config file,
/// none where there is no config file.
pub fn profiles_for_cleanup(config: Option<Config>) -> (r: Vec<Profile>)
    ensures
        match config {
            Some(c) => r@ == c.profile@.map_values(|e: crate::config::ProfileEntry| e.profile),
            None => r@.len() == 0,
        },
{
    match config {
        None => Vec::new(),
        Some(c) => {
            let mut out: Vec<Profile> = Vec::new();
            let ghost entries = c.profile@;
            assert(entries.len() == c.profile.len());
            let mut rest = c.profile;
            let mut i: usize = 0;
            while rest.len() > 0
                invariant
                    i <= entries.len(),
                    entries.len() <= usize::MAX,
                    rest@ == entries.skip(i as int),
                    out@ == entries.take(i as int).map_values(
                        |e: crate::config::ProfileEntry| e.profile,
                    ),
                decreases rest.len(),
            {
                let e = rest.remove(0);
                assert(e == entries[i as int]);
                assert(rest@ == entries.skip(i + 1));
                out.push(e.profile);
                assert(entries.take(i + 1) == entries.take(i as int).push(entries[i as int]));
                assert(out@ == entries.take(i + 1).map_values(
                    |e: crate::config::ProfileEntry| e.profile,
                ));
                i = i + 1;
            }
            assert(entries.take(entries.len() as int) == entries);
            out
        },
    }
}

/// The warning recorded when a stored token could not be deleted.
pub open spec fn token_delete_warning(w: Warning, e: CampusError) -> bool {
    &&& w.code@ == "TOKEN_DELETE_FAILED"@
    &&& w.message@ == crate::error::display_spec(e)
    &&& opt_view(w.hint) == Some("The OS credential store may need manual cleanup."@)
    &&& w.item is None
    &&& w.itemid is None
}

/// The outcome of deleting the stored tokens: `token` for each deletion
/// that worked, a warning for each that failed.
pub fn token_cleanup_outcome(results: &Vec<Result<()>>) -> (r: (Vec<String>, Vec<Warning>))
    ensures
        r.0@.len() == results@.filter(|x: Result<()>| x is Ok).len(),
        forall|i: int| 0 <= i < r.0@.len() ==> (#[trigger] r.0@[i])@ == "token"@,
        r.1@.len() == results@.filter(|x: Result<()>| x is Err).len(),
        forall|i: int|
            0 <= i < r.1@.len() ==> token_delete_warning(
                #[trigger] r.1@[i],
                results@.filter(|x: Result<()>| x is Err)[i]->Err_0,
            ),
{
    let ghost ok = |x: Result<()>| x is Ok;
    let ghost failed = |x: Result<()>| x is Err;
    let mut removed: Vec<String> = Vec::new();
    let mut warnings: Vec<Warning> = Vec::new();
    let n = results.len();
    for i in 0..n
        invariant
            n == results@.len(),
            ok == (|x: Result<()>| x is Ok),
            failed == (|x: Result<()>| x is Err),
            removed@.len() == results@.take(i as int).filter(ok).len(),
            forall|k: int| 0 <= k < removed@.len() ==> (#[trigger] removed@[k])@ == "token"@,
            warnings@.len() == results@.take(i as int).filter(failed).len(),
            forall|k: int|
                0 <= k < warnings@.len() ==> token_delete_warning(
                    #[trigger] warnings@[k],
                    results@.take(i as int).filter(failed)[k]->Err_0,
                ),
    {
        proof {
            assert(results@.take(i + 1) == results@.take(i as int).push(results@[i as int]));
            results@.take(i as int).lemma_filter_push(results@[i as int], ok);
            results@.take(i as int).lemma_filter_push(results@[i as int], failed);
        }
        match &results[i] {
            Ok(()) => {
                removed.push(text::owned("token"));
            },
            Err(e) => {
                let message = e.display_text();
                warnings.push(
                    Warning::new(
                        "TOKEN_DELETE_FAILED",
                        message.as_str(),
                        Some(text::owned("The OS credential store may need manual cleanup.")),
                    ),
                );
            },
        }
    }
    assert(results@.take(n as int) == results@);
    (removed, warnings)
}

/// The report of a cleanup or uninstall.
#[derive(Debug, Clone)]
pub struct CleanupReport {
    pub schema_version: &'static str,
    pub generated_at: String,
    pub dry_run: bool,
    pub planned: Vec<String>,
    pub removed: Vec<String>,
    pub npm_uninstall_command: Option<&'static str>,
    pub warnings: Vec<Warning>,
}

/// The report of a cleanup (or, in uninstall mode, of an uninstall, which
/// also names the npm command that removes the package).
pub fn cleanup_report(
    uninstall_mode: bool,
    dry_run: bool,
    planned: Vec<String>,
    removed: Vec<String>,
    warnings: Vec<Warning>,
    generated_at: String,
) -> (r: CleanupReport)
    ensures
        r.schema_version@ == (if uninstall_mode {
            "campus-lms.uninstall.v1"@
        } else {
            "campus-lms.cleanup.v1"@
        }),
        r.generated_at == generated_at,
        r.dry_run == dry_run,
        r.planned == planned,
        r.removed == removed,
        r.warnings == warnings,
        match r.npm_uninstall_command {
            Some(c) => uninstall_mode && c@ == NPM_UNINSTALL_COMMAND@,
            None => !uninstall_mode,
        },
{
    CleanupReport {
        schema_version: if uninstall_mode {
            "campus-lms.uninstall.v1"
        } else {
            "campus-lms.cleanup.v1"
        },
        generated_at,
        dry_run,
        planned,
        removed,
        npm_uninstall_command: if uninstall_mode {
            Some(NPM_UNINSTALL_COMMAND)
        } else {
            None
        },
        warnings,
    }
}

/// A cleanup to carry out: its targets, whether it is confirmed, whether it
/// only previews, and whether it is an uninstall.
#[derive(Debug, Clone, Copy)]
pub struct CleanupRequest {
    pub targets: CleanupTargets,
    pub yes: bool,
    pub dry_run: bool,
    pub uninstall_mode: bool,
}

/// The cleanup that `cleanup` asks for.
pub fn cleanup(args: &CleanupArgs, json: bool) -> (r: Result<CleanupRequest>)
    ensures
        match r {
            Ok(q) => q.targets.config == (args.all || args.local_config) && q.targets.cache == (
            args.all || args.cache) && q.targets.tokens == (args.all || args.tokens) && (
            q.targets.config || q.targets.cache || q.targets.tokens) && q.yes == args.yes
                && q.dry_run == args.dry_run && !q.uninstall_mode,
            Err(e) => !(args.all || args.local_config || args.cache || args.tokens)
                && e is InvalidArgument && e->InvalidArgument_json == json
                && e->InvalidArgument_message@ == "cleanup requires at least one target."@
                && opt_view(e->InvalidArgument_hint) == Some(
                "Use --cache, --local-config, --tokens, or --all."@,
            ),
        },
{
    match CleanupTargets::from_args(args) {
        Ok(targets) => Ok(CleanupRequest { targets, yes: args.yes, dry_run: args.dry_run, uninstall_mode: false }),
        Err(e) => Err(e.with_json(json)),
    }
}

/// The cleanup that `uninstall` asks for: every target.
pub fn uninstall(args: &UninstallArgs) -> (r: CleanupRequest)
    ensures
        r.targets.config && r.targets.cache && r.targets.tokens,
        r.yes == args.yes,
        r.dry_run == args.dry_run,
        r.uninstall_mode,
{
    CleanupRequest { targets: CleanupTargets::everything(), yes: args.yes, dry_run: args.dry_run, uninstall_mode: true }
}

/// What a cleanup does next: show the plan only, ask for confirmation, or
/// remove.
#[derive(Debug, Clone, Copy)]
pub enum CleanupStep {
    Preview,
    Confirm,
    Remove,
}

/// The next step of a cleanup, given the answer to the confirmation prompt
/// where one was given: `--json` without `--yes` or `--dry-run` is refused;
/// a dry run only previews and removes nothing; `--yes` removes; otherwise
/// the user is asked, and removal follows only a confirming answer, a
/// declined one cancelling the cleanup.
pub fn cleanup_next(request: &CleanupRequest, json: bool, answer: Option<bool>) -> (r: Result<
    CleanupStep,
>)
    ensures
        json && !request.yes && !request.dry_run ==> (r matches Err(e) && e is InvalidArgument
            && e->InvalidArgument_json && e->InvalidArgument_message@
            == "cleanup/uninstall --json requires --yes or --dry-run."@),
        !(json && !request.yes && !request.dry_run) ==> if request.dry_run {
            r == Ok::<CleanupStep, CampusError>(CleanupStep::Preview)
        } else if request.yes {
            r == Ok::<CleanupStep, CampusError>(CleanupStep::Remove)
        } else {
            match answer {
                None => r == Ok::<CleanupStep, CampusError>(CleanupStep::Confirm),
                Some(true) => r == Ok::<CleanupStep, CampusError>(CleanupStep::Remove),
                Some(false) => r matches Err(e) && e is InvalidArgument && e->InvalidArgument_json
                    == json && e->InvalidArgument_message@ == "operation cancelled."@,
            }
        },
{
    match cleanup_gate(json, request.yes, request.dry_run) {
        Ok(()) => {},
        Err(e) => {
            return Err(e);
        },
    }
    if request.dry_run {
        return Ok(CleanupStep::Preview);
    }
    if request.yes {
        return Ok(CleanupStep::Remove);
    }
    match answer {
        None => Ok(CleanupStep::Confirm),
        Some(true) => Ok(CleanupStep::Remove),
        Some(false) => Err(cancelled(json)),
    }
}

// ---------------------------------------------------------------------------
// Confirmation
// ---------------------------------------------------------------------------
/// Unicode `White_Space`, which `str::trim` removes.
pub open spec fn is_whitespace(c: char) -> bool {
    ('\u{9}' <= c <= '\u{d}') || c == ' ' || c == '\u{85}' || c == '\u{a0}' || c == '\u{1680}' || (
    '\u{2000}' <= c <= '\u{200a}') || c == '\u{2028}' || c == '\u{2029}' || c == '\u{202f}' || c
        == '\u{205f}' || c == '\u{3000}'
}

fn is_whitespace_exec(c: char) -> (r: bool)
    ensures
        r == is_whitespace(c),
{
    ('\u{9}' <= c && c <= '\u{d}') || c == ' ' || c == '\u{85}' || c == '\u{a0}' || c == '\u{1680}'
        || ('\u{2000}' <= c && c <= '\u{200a}') || c == '\u{2028}' || c == '\u{2029}' || c
        == '\u{202f}' || c == '\u{205f}' || c == '\u{3000}'
}

/// A text without leading and trailing whitespace.
pub open spec fn trim_spec(s: Seq<char>) -> Seq<char>
    decreases s.len(),
{
    if s.len() > 0 && is_whitespace(s[0]) {
        trim_spec(s.drop_first())
    } else if s.len() > 0 && is_whitespace(s.last()) {
        trim_spec(s.drop_last())
    } else {
        s
    }
}

/// Whether an answer to the confirmation prompt confirms: `yes`, apart from
/// surrounding whitespace.
pub fn confirmation_accepted(input: &str) -> (r: bool)
    ensures
        r == (trim_spec(input@) == "yes"@),
{
    let cs = text::chars_of(input);
    let mut start: usize = 0;
    let mut end: usize = cs.len();
    assert(cs@.subrange(0, cs@.len() as int) == cs@);
    while start < end && (is_whitespace_exec(cs[start]) || is_whitespace_exec(cs[end - 1]))
        invariant
            cs@ == input@,
            start <= end <= cs@.len(),
            trim_spec(input@) == trim_spec(cs@.subrange(start as int, end as int)),
        decreases end - start,
    {
        let ghost s = cs@.subrange(start as int, end as int);
        if is_whitespace_exec(cs[start]) {
            assert(s.drop_first() == cs@.subrange(start + 1, end as int));
            start = start + 1;
        } else {
            assert(!is_whitespace(s[0]));
            assert(s.drop_last() == cs@.subrange(start as int, end - 1));
            end = end - 1;
        }
    }
    let kept = text::slice_chars(&cs, start, end);
    let ghost s = cs@.subrange(start as int, end as int);
    assert(kept@ == s);
    assert(trim_spec(s) == s);
    let kept_s = text::string_of(&kept);
    text::str_eq(kept_s.as_str(), "yes")
}

// ---------------------------------------------------------------------------
// init
// ---------------------------------------------------------------------------
/// The report of `init`.
#[derive(Debug, Clone)]
pub struct InitReport {
    pub schema_version: &'static str,
    pub generated_at: String,
    pub config_path: String,
    pub cache_dir: String,
    pub created: Vec<String>,
    pub existing: Vec<String>,
    pub agents_snippet: Option<&'static str>,
    pub next_steps: Vec<&'static str>,
    pub warnings: Vec<Warning>,
}

pub fn init_report(
    config_path: String,
    cache_dir: String,
    created: Vec<String>,
    existing: Vec<String>,
    print_agents: bool,
    generated_at: String,
) -> (r: InitReport)
    ensures
        r.schema_version@ == "campus-lms.init.v1"@,
        r.generated_at == generated_at,
        r.config_path == config_path,
        r.cache_dir == cache_dir,
        r.created == created,
        r.existing == existing,
        match r.agents_snippet {
            Some(s) => print_agents && s@ == AGENTS_SNIPPET@,
            None => !print_agents,
        },
        r.next_steps@.map_values(|s: &'static str| s@) == seq![
            "campus-lms auth login"@,
            "campus-lms ai snapshot --days 14 --json"@,
        ],
        r.warnings@.len() == 0,
{
    let mut next_steps: Vec<&'static str> = Vec::new();
    next_steps.push("campus-lms auth login");
    next_steps.push("campus-lms ai snapshot --days 14 --json");
    assert(next_steps@.map_values(|s: &'static str| s@) =~= seq![
        "campus-lms auth login"@,
        "campus-lms ai snapshot --days 14 --json"@,
    ]);
    InitReport {
        schema_version: "campus-lms.init.v1",
        generated_at,
        config_path,
        cache_dir,
        created,
        existing,
        agents_snippet: if print_agents {
            Some(AGENTS_SNIPPET)
        } else {
            None
        },
        next_steps,
        warnings: Vec::new(),
    }
}

} // verus!
