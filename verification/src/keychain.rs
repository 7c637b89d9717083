//! Where a profile's token lives in the OS credential store.

use vstd::prelude::*;

use crate::config::Profile;
use crate::error::{CampusError, Result};
use crate::text;

verus! {

/// The credential-store entry that holds a profile's token.
#[derive(Debug, Clone)]
pub struct CredentialTarget {
    pub service: String,
    pub account: String,
    pub backend: String,
}

/// `s` without trailing `/`.
pub open spec fn trim_end_slashes(s: Seq<char>) -> Seq<char>
    decreases s.len(),
{
    if s.len() > 0 && s.last() == '/' {
        trim_end_slashes(s.drop_last())
    } else {
        s
    }
}

/// The service name tokens were stored under before the service shortname
/// was part of it: `campus-lms:<base_url without trailing slashes>`.
pub open spec fn legacy_service_name_spec(base_url: Seq<char>) -> Seq<char> {
    "campus-lms:"@ + trim_end_slashes(base_url)
}

/// The service name of a profile's token: the legacy name, `:`, and the
/// Moodle service shortname.
pub open spec fn service_name_spec(base_url: Seq<char>, service: Seq<char>) -> Seq<char> {
    legacy_service_name_spec(base_url) + ":"@ + service
}

pub fn legacy_service_name(base_url: &str) -> (r: String)
    ensures
        r@ == legacy_service_name_spec(base_url@),
{
    let cs = text::chars_of(base_url);
    let mut end = cs.len();
    assert(cs@.take(end as int) == cs@);
    while end > 0 && cs[end - 1] == '/'
        invariant
            cs@ == base_url@,
            end <= cs@.len(),
            trim_end_slashes(base_url@) == trim_end_slashes(cs@.take(end as int)),
        decreases end,
    {
        assert(cs@.take(end as int).drop_last() == cs@.take(end - 1));
        end = end - 1;
    }
    let kept = text::slice_chars(&cs, 0, end);
    assert(kept@ == cs@.take(end as int));
    assert(trim_end_slashes(kept@) == kept@);
    let kept_s = text::string_of(&kept);
    text::concat2("campus-lms:", kept_s.as_str())
}

pub fn service_name(profile: &Profile) -> (r: String)
    ensures
        r@ == service_name_spec(profile.base_url@, profile.service@),
{
    let legacy = legacy_service_name(profile.base_url.as_str());
    text::concat3(legacy.as_str(), ":", profile.service.as_str())
}

/// The credential target of a profile on the named credential backend.
pub fn credential_target(profile: &Profile, backend: &str) -> (r: CredentialTarget)
    ensures
        r.service@ == service_name_spec(profile.base_url@, profile.service@),
        r.account@ == profile.username@,
        r.backend@ == backend@,
{
    CredentialTarget {
        service: service_name(profile),
        account: profile.username.clone(),
        backend: text::owned(backend),
    }
}


/// The name of the credential backend used on an operating system: the
/// native store on Windows and macOS, the persistent Secret Service store on
/// other Unix systems, `unknown` elsewhere. `os` is the target's OS name as
/// `std::env::consts::OS` gives it; `unix` whether it is of the Unix family.
pub open spec fn backend_name_spec(os: Seq<char>, unix: bool) -> Seq<char> {
    if os == "windows"@ {
        "windows-native"@
    } else if os == "macos"@ {
        "apple-native"@
    } else if unix {
        "linux-native-sync-persistent"@
    } else {
        "unknown"@
    }
}

pub fn backend_name(os: &str, unix: bool) -> (r: &'static str)
    ensures
        r@ == backend_name_spec(os@, unix),
{
    if text::str_eq(os, "windows") {
        "windows-native"
    } else if text::str_eq(os, "macos") {
        "apple-native"
    } else if unix {
        "linux-native-sync-persistent"
    } else {
        "unknown"
    }
}


/// The value written to test the credential backend.
pub const BACKEND_PROBE: &'static str = "campus-lms-keychain-probe";

/// The account the backend test writes under: the profile's, with
/// `:verify` appended.
pub fn probe_account(account: &str) -> (r: String)
    ensures
        r@ == account@ + ":verify"@,
{
    text::concat2(account, ":verify")
}

/// A stored token must read back as what was written.
pub fn check_token_roundtrip(stored: Result<String>, expected: &str) -> (r: Result<()>)
    ensures
        match stored {
            Ok(s) => if s@ == expected@ {
                r is Ok
            } else {
                r matches Err(e) && e is Keychain && !e->Keychain_json && e->Keychain_message@
                    == "token was stored but could not be read back correctly"@
            },
            Err(e) => r == Err::<(), CampusError>(e),
        },
{
    match stored {
        Ok(s) => if text::str_eq(s.as_str(), expected) {
            Ok(())
        } else {
            Err(CampusError::keychain("token was stored but could not be read back correctly"))
        },
        Err(e) => Err(e),
    }
}

/// The backend test passes when the probe reads back unchanged.
pub fn check_backend_roundtrip(read_back: &str) -> (r: Result<()>)
    ensures
        read_back@ == BACKEND_PROBE@ ==> r is Ok,
        read_back@ != BACKEND_PROBE@ ==> (r matches Err(e) && e is Keychain && !e->Keychain_json
            && e->Keychain_message@ == "credential backend roundtrip returned a different value"@),
{
    if text::str_eq(read_back, BACKEND_PROBE) {
        Ok(())
    } else {
        Err(CampusError::keychain("credential backend roundtrip returned a different value"))
    }
}

} // verus!
