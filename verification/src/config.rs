//! The non-secret configuration: named profiles, privacy and output options.

use vstd::prelude::*;

use crate::cli::Cli;
use crate::error::{CampusError, Result};
use crate::text;

verus! {

/// One LMS account: where it is and how its data is cached.
#[derive(Debug, Clone)]
pub struct Profile {
    pub base_url: String,
    pub username: String,
    pub service: String,
    pub cache_ttl_seconds: u64,
    pub cache_retention_seconds: u64,
}

/// A profile under its name.
#[derive(Debug, Clone)]
pub struct ProfileEntry {
    pub name: String,
    pub profile: Profile,
}

#[derive(Debug, Clone)]
pub struct Privacy {
    pub include_grades_in_ai_snapshot: bool,
    pub include_feedback_in_ai_snapshot: bool,
}

#[derive(Debug, Clone)]
pub struct Output {
    pub timezone: String,
}

/// The whole configuration file.
#[derive(Debug, Clone)]
pub struct Config {
    pub active_profile: String,
    /// The profile table, one entry per name (`names_unique`): the default
    /// configuration has none, and storing or removing a profile keeps the
    /// names unique.
    pub profile: Vec<ProfileEntry>,
    pub privacy: Privacy,
    pub output: Output,
}

/// The profile stored under `name`: the first entry with that name.
pub open spec fn lookup(entries: Seq<ProfileEntry>, name: Seq<char>) -> Option<Profile>
    decreases entries.len(),
{
    if entries.len() == 0 {
        None
    } else {
        match lookup(entries.drop_last(), name) {
            Some(p) => Some(p),
            None => if entries.last().name@ == name {
                Some(entries.last().profile)
            } else {
                None
            },
        }
    }
}

/// Whether an entry is named otherwise than `name`.
pub open spec fn not_named(name: Seq<char>) -> spec_fn(ProfileEntry) -> bool {
    |e: ProfileEntry| e.name@ != name
}

/// Entries whose name differs from `name`.
pub open spec fn without(entries: Seq<ProfileEntry>, name: Seq<char>) -> Seq<ProfileEntry> {
    entries.filter(not_named(name))
}

impl Config {
    /// The configuration as a map from profile names to profiles.
    pub open spec fn profiles(self) -> Map<Seq<char>, Profile> {
        Map::new(
            |n: Seq<char>| lookup(self.profile@, n) is Some,
            |n: Seq<char>| lookup(self.profile@, n)->0,
        )
    }
}

proof fn lemma_lookup_without(entries: Seq<ProfileEntry>, name: Seq<char>, other: Seq<char>)
    ensures
        lookup(without(entries, name), name) is None,
        other != name ==> lookup(without(entries, name), other) == lookup(entries, other),
    decreases entries.len(),
{
    if entries.len() > 0 {
        let init = entries.drop_last();
        let last = entries.last();
        lemma_lookup_without(init, name, other);
        assert(init.push(last) == entries);
        init.lemma_filter_push(last, not_named(name));
        if not_named(name)(last) {
            assert(without(init, name).push(last).drop_last() == without(init, name));
        }
    } else {
        reveal_with_fuel(Seq::filter, 1);
    }
}

pub open spec fn default_profile_spec() -> Seq<char> {
    "default"@
}

pub fn default_profile() -> (r: String)
    ensures
        r@ == default_profile_spec(),
{
    text::owned("default")
}

pub fn default_service() -> (r: String)
    ensures
        r@ == "moodle_mobile_app"@,
{
    text::owned("moodle_mobile_app")
}

pub fn default_cache_ttl_seconds() -> (r: u64)
    ensures
        r == 300,
{
    300
}

pub fn default_cache_retention_seconds() -> (r: u64)
    ensures
        r == 30 * 24 * 60 * 60,
{
    30 * 24 * 60 * 60
}

pub fn default_timezone() -> (r: String)
    ensures
        r@ == "Asia/Tokyo"@,
{
    text::owned("Asia/Tokyo")
}

impl Default for Output {
    fn default() -> (r: Self)
        ensures
            r.timezone@ == "Asia/Tokyo"@,
    {
        Output { timezone: default_timezone() }
    }
}

impl Default for Privacy {
    fn default() -> (r: Self)
        ensures
            !r.include_grades_in_ai_snapshot,
            !r.include_feedback_in_ai_snapshot,
    {
        Privacy { include_grades_in_ai_snapshot: false, include_feedback_in_ai_snapshot: false }
    }
}

impl Default for Config {
    fn default() -> (r: Self)
        ensures
            r.active_profile@ == default_profile_spec(),
            r.profile@.len() == 0,
            names_unique(r.profile@),
            !r.privacy.include_grades_in_ai_snapshot,
            !r.privacy.include_feedback_in_ai_snapshot,
            r.output.timezone@ == "Asia/Tokyo"@,
    {
        Config {
            active_profile: default_profile(),
            profile: Vec::new(),
            privacy: Privacy { include_grades_in_ai_snapshot: false, include_feedback_in_ai_snapshot: false },
            output: Output { timezone: default_timezone() },
        }
    }
}

/// The output time zones the tool renders.
pub open spec fn supported_timezone(tz: Seq<char>) -> bool {
    tz == "UTC"@ || tz == "Asia/Tokyo"@
}

pub fn validate_timezone(timezone: &str) -> (r: Result<()>)
    ensures
        r is Ok <==> supported_timezone(timezone@),
        r matches Err(e) ==> e matches CampusError::Config { message, json } && !json
            && message@ == "unsupported output.timezone '"@ + timezone@
            + "'; supported values are UTC and Asia/Tokyo"@,
{
    if text::str_eq(timezone, "UTC") || text::str_eq(timezone, "Asia/Tokyo") {
        Ok(())
    } else {
        let mut message = text::concat2("unsupported output.timezone '", timezone);
        message.append("'; supported values are UTC and Asia/Tokyo");
        Err(CampusError::Config { message, json: false })
    }
}

pub fn validate(config: &Config) -> (r: Result<()>)
    ensures
        r is Ok <==> supported_timezone(config.output.timezone@),
{
    validate_timezone(config.output.timezone.as_str())
}

/// The name of the profile a command works on: `--profile`, else the
/// active profile of the configuration.
pub open spec fn selected_profile_name_spec(cli: Cli, config: Config) -> Seq<char> {
    match cli.profile {
        Some(p) => p@,
        None => config.active_profile@,
    }
}

pub fn selected_profile_name(cli: &Cli, config: &Config) -> (r: String)
    ensures
        r@ == selected_profile_name_spec(*cli, *config),
{
    match &cli.profile {
        Some(p) => p.clone(),
        None => config.active_profile.clone(),
    }
}

/// The index of the first entry named `name`.
fn find_profile(entries: &Vec<ProfileEntry>, name: &str) -> (r: Option<usize>)
    ensures
        match r {
            Some(i) => i < entries@.len() && entries@[i as int].name@ == name@ && lookup(
                entries@,
                name@,
            ) == Some(entries@[i as int].profile),
            None => lookup(entries@, name@) is None,
        },
{
    let n = entries.len();
    let mut i: usize = 0;
    while i < n
        invariant
            n == entries@.len(),
            0 <= i <= n,
            lookup(entries@.take(i as int), name@) is None,
        decreases n - i,
    {
        assert(entries@.take(i + 1).drop_last() == entries@.take(i as int));
        if text::str_eq(entries[i].name.as_str(), name) {
            proof {
                lemma_lookup_prefix(entries@, i + 1, name@);
            }
            return Some(i);
        }
        i = i + 1;
    }
    assert(entries@.take(n as int) == entries@);
    None
}

proof fn lemma_lookup_prefix(entries: Seq<ProfileEntry>, k: int, name: Seq<char>)
    requires
        0 <= k <= entries.len(),
        lookup(entries.take(k), name) is Some,
    ensures
        lookup(entries, name) == lookup(entries.take(k), name),
    decreases entries.len() - k,
{
    if k < entries.len() {
        assert(entries.take(k + 1).drop_last() == entries.take(k));
        lemma_lookup_prefix(entries, k + 1, name);
    } else {
        assert(entries.take(k) == entries);
    }
}

/// The profile a command works on, or `AUTH_REQUIRED` when none is stored
/// under the selected name.
pub fn active_profile<'a>(cli: &Cli, config: &'a Config) -> (r: Result<&'a Profile>)
    ensures
        match lookup(config.profile@, selected_profile_name_spec(*cli, *config)) {
            Some(p) => r matches Ok(q) && *q == p,
            None => r matches Err(e) && e == (CampusError::AuthRequired { json: cli.json }),
        },
{
    let name = selected_profile_name(cli, config);
    match find_profile(&config.profile, name.as_str()) {
        Some(i) => Ok(&config.profile[i].profile),
        None => Err(CampusError::AuthRequired { json: cli.json }),
    }
}

/// Drops every entry named `name`.
fn remove_named(entries: &mut Vec<ProfileEntry>, name: &str)
    ensures
        final(entries)@ == without(old(entries)@, name@),
{
    let mut kept: Vec<ProfileEntry> = Vec::new();
    let ghost orig = entries@;
    let ghost pred = not_named(name@);
    while entries.len() > 0
        invariant
            pred == not_named(name@),
            orig.filter(pred) == entries@.filter(pred) + kept@,
        decreases entries@.len(),
    {
        let ghost prev_entries = entries@;
        let e = entries.pop().unwrap();
        let ghost before = entries@.push(e);
        proof {
            assert(before =~= prev_entries);
            entries@.lemma_filter_push(e, pred);
        }
        let ghost prev_kept = kept@;
        if !text::str_eq(e.name.as_str(), name) {
            kept.insert(0, e);
            proof {
                assert(before.filter(pred) == entries@.filter(pred).push(e));
                assert(kept@ == seq![e] + prev_kept);
                assert(entries@.filter(pred).push(e) + prev_kept =~= entries@.filter(pred)
                    + kept@);
            }
        } else {
            proof {
                assert(before.filter(pred) == entries@.filter(pred));
            }
        }
    }
    assert(entries@.filter(pred) =~= Seq::<ProfileEntry>::empty()) by {
        reveal_with_fuel(Seq::filter, 1);
    }
    assert(kept@ =~= orig.filter(pred));
    *entries = kept;
}

/// Forgets the selected profile; when it was the active one, `default`
/// becomes active.
pub fn remove_active_profile(cli: &Cli, config: &mut Config)
    ensures
        ({
            let name = selected_profile_name_spec(*cli, *old(config));
            &&& final(config).profile@ == without(old(config).profile@, name)
            &&& final(config).active_profile@ == if old(config).active_profile@ == name {
                default_profile_spec()
            } else {
                old(config).active_profile@
            }
            &&& final(config).privacy == old(config).privacy
            &&& final(config).output == old(config).output
        }),
        names_unique(old(config).profile@) ==> names_unique(final(config).profile@),
{
    let name = selected_profile_name(cli, config);
    proof {
        if names_unique(config.profile@) {
            lemma_without_unique(config.profile@, name@);
        }
    }
    remove_named(&mut config.profile, name.as_str());
    if config.active_profile == name {
        config.active_profile = default_profile();
    }
}

/// Stores `profile` under `name` and makes it the active profile.
pub fn set_active_profile(config: &mut Config, name: String, profile: Profile)
    ensures
        final(config).active_profile@ == name@,
        final(config).profile@ == without(old(config).profile@, name@).push(
            ProfileEntry { name, profile },
        ),
        final(config).privacy == old(config).privacy,
        final(config).output == old(config).output,
        names_unique(old(config).profile@) ==> names_unique(final(config).profile@),
{
    proof {
        if names_unique(config.profile@) {
            law_profile_names_stay_unique(config.profile@, name, profile);
        }
    }
    remove_named(&mut config.profile, name.as_str());
    config.active_profile = name.clone();
    config.profile.push(ProfileEntry { name, profile });
}

/// After a profile is stored under a name, that name finds it and every
/// other name finds what it found before.
pub proof fn law_store_then_lookup(
    entries: Seq<ProfileEntry>,
    name: String,
    profile: Profile,
    other: Seq<char>,
)
    ensures
        lookup(without(entries, name@).push(ProfileEntry { name, profile }), name@) == Some(
            profile,
        ),
        other != name@ ==> lookup(
            without(entries, name@).push(ProfileEntry { name, profile }),
            other,
        ) == lookup(entries, other),
{
    let s = without(entries, name@).push(ProfileEntry { name, profile });
    assert(s.drop_last() == without(entries, name@));
    lemma_lookup_without(entries, name@, other);
}

/// After a profile is removed, its name finds nothing and every other name
/// finds what it found before.
pub proof fn law_remove_then_lookup(entries: Seq<ProfileEntry>, name: Seq<char>, other: Seq<char>)
    ensures
        lookup(without(entries, name), name) is None,
        other != name ==> lookup(without(entries, name), other) == lookup(entries, other),
{
    lemma_lookup_without(entries, name, other);
}

/// No two entries carry the same profile name.
pub open spec fn names_unique(entries: Seq<ProfileEntry>) -> bool {
    forall|i: int, j: int|
        0 <= i < j < entries.len() ==> (#[trigger] entries[i]).name@ != (#[trigger] entries[j]).name@
}

proof fn lemma_without_unique(entries: Seq<ProfileEntry>, name: Seq<char>)
    requires
        names_unique(entries),
    ensures
        names_unique(without(entries, name)),
    decreases entries.len(),
{
    if entries.len() > 0 {
        let d = entries.drop_last();
        let last = entries.last();
        assert(entries == d.push(last));
        assert forall|i: int, j: int| 0 <= i < j < d.len() implies (#[trigger] d[i]).name@ != (
        #[trigger] d[j]).name@ by {
            assert(d[i] == entries[i] && d[j] == entries[j]);
        }
        lemma_without_unique(d, name);
        d.lemma_filter_push(last, not_named(name));
        let wd = without(d, name);
        let w = without(entries, name);
        if not_named(name)(last) {
            assert(w == wd.push(last));
            assert forall|i: int, j: int| 0 <= i < j < w.len() implies (#[trigger] w[i]).name@ != (
            #[trigger] w[j]).name@ by {
                if j == wd.len() {
                    assert(w[i] == wd[i]);
                    assert(wd.contains(wd[i]));
                    d.lemma_filter_contains_rev(not_named(name), wd[i]);
                    let k = choose|k: int| 0 <= k < d.len() && d[k] == wd[i];
                    assert(entries[k] == d[k]);
                    assert(entries[entries.len() - 1] == last);
                } else {
                    assert(w[i] == wd[i] && w[j] == wd[j]);
                }
            }
        } else {
            assert(w == wd);
        }
    }
}

/// Storing and removing profiles keeps their names unique, as the keys of
/// the configuration's profile table are.
pub proof fn law_profile_names_stay_unique(
    entries: Seq<ProfileEntry>,
    name: String,
    profile: Profile,
)
    requires
        names_unique(entries),
    ensures
        names_unique(without(entries, name@)),
        names_unique(without(entries, name@).push(ProfileEntry { name, profile })),
{
    lemma_without_unique(entries, name@);
    let w = without(entries, name@);
    let s = w.push(ProfileEntry { name, profile });
    assert forall|i: int, j: int| 0 <= i < j < s.len() implies (#[trigger] s[i]).name@ != (
    #[trigger] s[j]).name@ by {
        if j == w.len() {
            assert(s[i] == w[i]);
            entries.lemma_filter_pred(not_named(name@), i);
        } else {
            assert(s[i] == w[i] && s[j] == w[j]);
        }
    }
}

/// `--profile` decides which profile a command works on: when it is given,
/// the selected name is that name and the profile used is the one stored
/// under it; only without it is the active profile used.
pub proof fn law_profile_flag_selects(cli: Cli, config: Config)
    ensures
        cli.profile matches Some(p) ==> (selected_profile_name_spec(cli, config) == p@
            && lookup(config.profile@, selected_profile_name_spec(cli, config)) == lookup(
            config.profile@,
            p@,
        )),
        cli.profile is None ==> selected_profile_name_spec(cli, config) == config.active_profile@,
{
}

} // verus!
