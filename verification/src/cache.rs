//! Cache entries and the names of cache files.

use vstd::prelude::*;

use crate::config::Profile;
use crate::error::{CampusError, Result};
use crate::external;
use crate::text;

verus! {

/// A value read back from the cache with its age.
#[derive(Debug, Clone)]
pub struct CacheEntry<T> {
    pub value: T,
    pub fetched_at: Option<String>,
    pub age_seconds: u64,
    pub stale: bool,
}

/// The file name of a cache entry: `<name>-<sha256 of input>.json`.
pub open spec fn key_spec(name: Seq<char>, input: Seq<char>) -> Seq<char> {
    name + "-"@ + external::sha256_hex_of(input) + ".json"@
}

pub fn key(name: &str, input: &str) -> (r: String)
    ensures
        r@ == key_spec(name@, input@),
{
    let digest = external::sha256_hex(input);
    let mut out = text::concat3(name, "-", digest.as_str());
    out.append(".json");
    out
}

/// The file name of a cache entry that belongs to one profile namespace.
pub open spec fn profile_key_spec(name: Seq<char>, namespace: Seq<char>, input: Seq<char>) -> Seq<
    char,
> {
    key_spec(name, namespace + ":"@ + input)
}

pub fn profile_key(name: &str, namespace: &str, input: &str) -> (r: String)
    ensures
        r@ == profile_key_spec(name@, namespace@, input@),
{
    let scoped = text::concat3(namespace, ":", input);
    key(name, scoped.as_str())
}


/// What to do with a cache lookup.
#[derive(Debug, Clone, Copy, PartialEq, Eq)]
pub enum CacheLookup {
    /// Do not use the cache: fetch live.
    Skip,
    /// Read the entry; `stale` when it is older than its time to live.
    Read { stale: bool },
}

/// Whether an age of `age_secs` seconds and `age_nanos` nanoseconds exceeds
/// a time to live of `ttl_secs` seconds.
pub open spec fn older_than(age_secs: u64, age_nanos: u32, ttl_secs: u64) -> bool {
    age_secs > ttl_secs || (age_secs == ttl_secs && age_nanos > 0)
}

/// The cache rules: `--refresh` skips the cache; a missing entry is a miss,
/// an error under `--offline`; an entry older than its time to live is a
/// miss unless `--offline`, which reads it anyway.
pub fn cache_lookup(
    refresh: bool,
    offline: bool,
    exists: bool,
    age_secs: u64,
    age_nanos: u32,
    ttl_secs: u64,
    path: &str,
) -> (r: Result<CacheLookup>)
    ensures
        refresh ==> r == Ok::<CacheLookup, CampusError>(CacheLookup::Skip),
        !refresh && !exists && !offline ==> r == Ok::<CacheLookup, CampusError>(CacheLookup::Skip),
        !refresh && !exists && offline ==> (r matches Err(e) && e is Cache && !e->Cache_json
            && e->Cache_message@ == "offline cache entry not found: "@ + path@),
        !refresh && exists && older_than(age_secs, age_nanos, ttl_secs) && !offline ==> r == Ok::<
            CacheLookup,
            CampusError,
        >(CacheLookup::Skip),
        !refresh && exists && (offline || !older_than(age_secs, age_nanos, ttl_secs)) ==> r == Ok::<
            CacheLookup,
            CampusError,
        >(CacheLookup::Read { stale: older_than(age_secs, age_nanos, ttl_secs) }),
{
    if refresh {
        return Ok(CacheLookup::Skip);
    }
    if !exists {
        if offline {
            let message = text::concat2("offline cache entry not found: ", path);
            return Err(CampusError::Cache { message, json: false });
        }
        return Ok(CacheLookup::Skip);
    }
    let older = age_secs > ttl_secs || (age_secs == ttl_secs && age_nanos > 0);
    if older && !offline {
        return Ok(CacheLookup::Skip);
    }
    Ok(CacheLookup::Read { stale: older })
}


/// The cache namespace of a profile: its name, site, account and service,
/// so that no two accounts share cache entries.
pub open spec fn profile_namespace_spec(profile_name: Seq<char>, p: Profile) -> Seq<char> {
    profile_name + ":"@ + p.base_url@ + ":"@ + p.username@ + ":"@ + p.service@
}

pub fn profile_namespace(profile_name: &str, profile: &Profile) -> (r: String)
    ensures
        r@ == profile_namespace_spec(profile_name@, *profile),
{
    let a = text::concat3(profile_name, ":", profile.base_url.as_str());
    let b = text::concat3(a.as_str(), ":", profile.username.as_str());
    text::concat3(b.as_str(), ":", profile.service.as_str())
}

/// The cache entry name of a task list: it depends on the namespace, the
/// range, the course filter and whether submitted work is included.
pub open spec fn todo_cache_input(namespace: Seq<char>, days: u32, course: Option<Seq<char>>, include_submitted: bool) -> Seq<char> {
    namespace + ":"@ + text::nat_decimal(days as nat) + ":"@ + (match course {
        Some(c) => "course="@ + c,
        None => "all"@,
    }) + ":"@ + (if include_submitted {
        "true"@
    } else {
        "false"@
    })
}

pub fn todo_cache_key(namespace: &str, days: u32, course: &Option<String>, include_submitted: bool) -> (r: String)
    ensures
        r@ == key_spec("todo"@, todo_cache_input(namespace@, days, text::opt_view(*course), include_submitted)),
{
    let d = text::u64_decimal(days as u64);
    let a = text::concat3(namespace, ":", d.as_str());
    let c = match course {
        Some(c) => text::concat2("course=", c.as_str()),
        None => text::owned("all"),
    };
    let b = text::concat3(a.as_str(), ":", c.as_str());
    let flag = if include_submitted {
        "true"
    } else {
        "false"
    };
    let input = text::concat3(b.as_str(), ":", flag);
    key("todo", input.as_str())
}

} // verus!
