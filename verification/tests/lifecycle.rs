use campus_lms_cli::lifecycle::{cleanup_next, CleanupRequest, CleanupStep};
use campus_lms_cli::cli::{CleanupArgs, UninstallArgs};
use campus_lms_cli::config::{Config, Profile, ProfileEntry};
use campus_lms_cli::error::CampusError;
use campus_lms_cli::lifecycle::{
    cancelled, cleanup_gate, cleanup_plan, cleanup_report, confirmation_accepted, init_report,
    cleanup, profiles_for_cleanup, token_cleanup_outcome, uninstall, CleanupTargets,
    AGENTS_SNIPPET,
};

fn args(all: bool, local_config: bool, cache: bool, tokens: bool) -> CleanupArgs {
    CleanupArgs { all, local_config, cache, tokens, yes: false, dry_run: true }
}

#[test]
fn cleanup_needs_a_target() {
    let err = CleanupTargets::from_args(&args(false, false, false, false)).unwrap_err();
    assert_eq!(err.display_text(), "invalid argument: cleanup requires at least one target.");
    let t = CleanupTargets::from_args(&args(true, false, false, false)).unwrap();
    assert!(t.config && t.cache && t.tokens);
    let t = CleanupTargets::from_args(&args(false, false, true, false)).unwrap();
    assert_eq!(t.names(), vec!["cache"]);
    assert_eq!(CleanupTargets::everything().names(), vec!["tokens", "config", "cache"]);
}

#[test]
fn json_cleanup_needs_yes_or_dry_run() {
    assert!(cleanup_gate(true, false, false).is_err());
    assert!(cleanup_gate(true, true, false).is_ok());
    assert!(cleanup_gate(true, false, true).is_ok());
    assert!(cleanup_gate(false, false, false).is_ok());
    assert!(cancelled(true).json_requested());
}

#[test]
fn plan_lists_tokens_config_and_cache() {
    let plan = cleanup_plan(CleanupTargets::everything(), 2, "/c/config.toml", "/cache");
    assert_eq!(plan, vec!["2 stored token(s)", "/c/config.toml", "/cache"]);
    let t = CleanupTargets::from_args(&args(false, true, false, false)).unwrap();
    assert_eq!(cleanup_plan(t, 0, "/c", "/k"), vec!["/c"]);
}

#[test]
fn uninstall_report_names_the_npm_command() {
    let r = cleanup_report(true, false, vec![], vec!["token".to_string()], vec![], "now".to_string());
    assert_eq!(r.schema_version, "campus-lms.uninstall.v1");
    assert_eq!(r.npm_uninstall_command, Some("npm uninstall -g campus-lms-cli"));
    let r = cleanup_report(false, true, vec![], vec![], vec![], "now".to_string());
    assert_eq!(r.schema_version, "campus-lms.cleanup.v1");
    assert!(r.npm_uninstall_command.is_none());
    let q = uninstall(&UninstallArgs { yes: true, dry_run: false });
    assert!(q.targets.tokens && q.targets.config && q.targets.cache && q.yes && !q.dry_run && q.uninstall_mode);
    let q = cleanup(&args(false, false, true, false), true).unwrap();
    assert!(q.targets.cache && !q.targets.tokens && q.dry_run && !q.uninstall_mode);
    assert!(cleanup(&args(false, false, false, false), true).unwrap_err().json_requested());
}

#[test]
fn confirmation_requires_yes() {
    assert!(confirmation_accepted("yes\n"));
    assert!(confirmation_accepted("  yes \t"));
    assert!(!confirmation_accepted("y"));
    assert!(!confirmation_accepted("YES"));
    assert!(!confirmation_accepted(""));
}

#[test]
fn token_deletions_are_counted_and_failures_warned() {
    let results = vec![Ok(()), Err(CampusError::keychain("gone")), Ok(())];
    let (removed, warnings) = token_cleanup_outcome(&results);
    assert_eq!(removed, vec!["token", "token"]);
    assert_eq!(warnings.len(), 1);
    assert_eq!(warnings[0].code, "TOKEN_DELETE_FAILED");
    assert_eq!(warnings[0].message, "keychain unavailable: gone");
}

#[test]
fn cleanup_profiles_come_from_the_config() {
    assert!(profiles_for_cleanup(None).is_empty());
    let mut config = Config::default();
    config.profile.push(ProfileEntry {
        name: "school".to_string(),
        profile: Profile {
            base_url: "https://lms.example/".to_string(),
            username: "u".to_string(),
            service: "moodle_mobile_app".to_string(),
            cache_ttl_seconds: 300,
            cache_retention_seconds: 10,
        },
    });
    let profiles = profiles_for_cleanup(Some(config));
    assert_eq!(profiles.len(), 1);
    assert_eq!(profiles[0].username, "u");
}

#[test]
fn init_report_includes_snippet_on_request() {
    let r = init_report("/c".to_string(), "/k".to_string(), vec![], vec!["/c".to_string()], true, "now".to_string());
    assert_eq!(r.schema_version, "campus-lms.init.v1");
    assert_eq!(r.agents_snippet, Some(AGENTS_SNIPPET));
    assert_eq!(r.next_steps, vec!["campus-lms auth login", "campus-lms ai snapshot --days 14 --json"]);
    let r = init_report("/c".to_string(), "/k".to_string(), vec![], vec![], false, "now".to_string());
    assert!(r.agents_snippet.is_none());
}

#[test]
fn cleanup_steps_follow_the_flags() {
    let targets = CleanupTargets { config: true, cache: false, tokens: false };
    let req = |yes, dry_run| CleanupRequest { targets, yes, dry_run, uninstall_mode: false };
    let gate = cleanup_next(&req(false, false), true, None).unwrap_err();
    assert_eq!(gate.code(), "INVALID_ARGUMENT");
    assert!(matches!(cleanup_next(&req(false, true), false, None), Ok(CleanupStep::Preview)));
    assert!(matches!(cleanup_next(&req(true, false), false, None), Ok(CleanupStep::Remove)));
    assert!(matches!(cleanup_next(&req(false, false), false, None), Ok(CleanupStep::Confirm)));
    assert!(matches!(cleanup_next(&req(false, false), false, Some(true)), Ok(CleanupStep::Remove)));
    let declined = cleanup_next(&req(false, false), false, Some(false)).unwrap_err();
    assert_eq!(declined.display_text(), "invalid argument: operation cancelled.");
}

#[test]
fn storing_a_profile_twice_keeps_one_entry() {
    let p = |user: &str| Profile {
        base_url: "https://lms.example/".to_string(),
        username: user.to_string(),
        service: "moodle_mobile_app".to_string(),
        cache_ttl_seconds: 300,
        cache_retention_seconds: 10,
    };
    let mut config = Config::default();
    campus_lms_cli::config::set_active_profile(&mut config, "school".to_string(), p("a"));
    campus_lms_cli::config::set_active_profile(&mut config, "other".to_string(), p("b"));
    campus_lms_cli::config::set_active_profile(&mut config, "school".to_string(), p("c"));
    let names: Vec<&str> = config.profile.iter().map(|e| e.name.as_str()).collect();
    assert_eq!(names, vec!["other", "school"]);
    assert_eq!(config.profile[1].profile.username, "c");
}
