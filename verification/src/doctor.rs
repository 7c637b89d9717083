//! The health check: is a profile configured, is its token available, does
//! the site answer, and does the token's service offer every Web Service
//! function the tool calls.

use vstd::prelude::*;

use crate::auth::{self, auth_next_steps_spec, target_of, views, warning_is};
use crate::config::Profile;
use crate::dto::{DoctorCheck, DoctorOutput, Warning};
use crate::error::{display_spec, CampusError, Result};
use crate::keychain::CredentialTarget;
use crate::moodle::models::SiteInfo;
use crate::text::{self, opt_view};

verus! {

/// The Moodle Web Service functions the tool calls.
pub open spec fn required_functions() -> Seq<Seq<char>> {
    seq![
        "core_webservice_get_site_info"@,
        "core_enrol_get_users_courses"@,
        "mod_assign_get_assignments"@,
        "mod_assign_get_submission_status"@,
        "core_calendar_get_action_events_by_timesort"@,
    ]
}

pub fn required_function_names() -> (r: Vec<&'static str>)
    ensures
        r@.map_values(|s: &'static str| s@) == required_functions(),
{
    let mut v: Vec<&'static str> = Vec::new();
    v.push("core_webservice_get_site_info");
    v.push("core_enrol_get_users_courses");
    v.push("mod_assign_get_assignments");
    v.push("mod_assign_get_submission_status");
    v.push("core_calendar_get_action_events_by_timesort");
    assert(v@.map_values(|s: &'static str| s@) =~= required_functions());
    v
}

/// Whether the site's answer lists the function among those the token may
/// call.
pub open spec fn offers(site: SiteInfo, name: Seq<char>) -> bool {
    exists|k: int| 0 <= k < site.functions@.len() && (#[trigger] site.functions@[k]).name@ == name
}

/// A check as plain values.
pub open spec fn check_is(c: DoctorCheck, name: Seq<char>, ok: bool, detail: Seq<char>) -> bool {
    c.name@ == name && c.ok == ok && c.detail@ == detail
}

/// The detail of a function check.
pub open spec fn function_detail(ok: bool) -> Seq<char> {
    if ok {
        "Available in the current Web Services token."@
    } else {
        "Missing from the current Web Services token."@
    }
}

/// The required functions the site does not offer, in order.
pub open spec fn missing_spec(site: SiteInfo) -> Seq<Seq<char>> {
    required_functions().filter(|n: Seq<char>| !offers(site, n))
}

/// The site name shown in the connection check: the site's, else `Moodle`.
pub open spec fn site_label(site: SiteInfo) -> Seq<char> {
    match site.sitename {
        Some(n) => n@,
        None => "Moodle"@,
    }
}

pub open spec fn profile_check(c: DoctorCheck, profile_name: Seq<char>) -> bool {
    check_is(c, "profile"@, true, "Profile "@ + profile_name + " is configured."@)
}

/// Whether `o` is the health report for what the checks found: `token_available`
/// says whether the profile's token could be read (asked when a profile is
/// configured) and `site` is the answer to the site-information call (made
/// when the token is available).
pub open spec fn is_doctor_report(
    o: DoctorOutput,
    profile_name: Seq<char>,
    active_profile: Seq<char>,
    config_path: Option<Seq<char>>,
    profile: Option<Profile>,
    backend: Seq<char>,
    token_available: bool,
    site: Option<Result<SiteInfo>>,
) -> bool {
    let reached = profile is Some && token_available && site matches Some(Ok(_));
    &&& o.schema_version@ == "campus-lms.doctor.v1"@
    &&& o.profile@ == profile_name
    &&& o.active_profile@ == active_profile
    &&& opt_view(o.config_path) == config_path
    &&& auth::common_report(profile, o.base_url, o.username)
    &&& target_of(o.credential_target, profile, backend)
    &&& o.authenticated == reached
    &&& views(o.unchecked_functions@) == (if reached {
        Seq::empty()
    } else {
        required_functions()
    })
    &&& views(o.next_steps@) == auth_next_steps_spec(
        profile is Some,
        profile is Some && token_available,
        if profile is Some && token_available {
            Some(reached)
        } else {
            None
        },
    )
    &&& match profile {
        None => {
            &&& o.checks@.len() == 1
            &&& check_is(o.checks@[0], "profile"@, false, "No profile is configured."@)
            &&& views(o.missing_functions@) == required_functions()
            &&& o.warnings@.len() == 1
            &&& warning_is(
                o.warnings@[0],
                "AUTH_REQUIRED"@,
                "No campus-lms profile is configured."@,
                Some(
                    "Run campus-lms auth login. SSO/MFA-only Moodle sites may require an administrator-issued Web Services token instead of password login."@,
                ),
            )
        },
        Some(_) => if !token_available {
            &&& o.checks@.len() == 2
            &&& profile_check(o.checks@[0], profile_name)
            &&& check_is(
                o.checks@[1],
                "token"@,
                false,
                "No token was found in the OS credential store."@,
            )
            &&& views(o.missing_functions@) == required_functions()
            &&& o.warnings@.len() == 1
            &&& warning_is(
                o.warnings@[0],
                "TOKEN_UNAVAILABLE"@,
                "The profile exists, but no Moodle token is available."@,
                Some(
                    "Run campus-lms auth login. If the university uses SSO/MFA, ask whether Mobile Web Services or user token issuance is enabled."@,
                ),
            )
        } else {
            &&& profile_check(o.checks@[0], profile_name)
            &&& check_is(
                o.checks@[1],
                "token"@,
                true,
                "A token is available in the OS credential store."@,
            )
            &&& match site {
                Some(Ok(info)) => {
                    &&& o.checks@.len() == 3 + required_functions().len()
                    &&& check_is(
                        o.checks@[2],
                        "core_webservice_get_site_info"@,
                        true,
                        "Connected as "@ + info.username@ + " on "@ + site_label(info) + "."@,
                    )
                    &&& forall|i: int|
                        0 <= i < required_functions().len() ==> check_is(
                            #[trigger] o.checks@[3 + i],
                            required_functions()[i],
                            offers(info, required_functions()[i]),
                            function_detail(offers(info, required_functions()[i])),
                        )
                    &&& views(o.missing_functions@) == missing_spec(info)
                    &&& o.warnings@.len() == (if missing_spec(info).len() == 0 {
                        0int
                    } else {
                        1int
                    })
                    &&& missing_spec(info).len() > 0 ==> warning_is(
                        o.warnings@[0],
                        "MOODLE_FUNCTIONS_MISSING"@,
                        "Some Moodle Web Service functions required by campus-lms are unavailable."@,
                        Some(
                            "Ask the LMS administrator whether Mobile Web Services are enabled and whether the token's service includes the missing functions."@,
                        ),
                    )
                },
                Some(Err(e)) => {
                    &&& o.checks@.len() == 3
                    &&& check_is(
                        o.checks@[2],
                        "core_webservice_get_site_info"@,
                        false,
                        display_spec(e),
                    )
                    &&& views(o.missing_functions@) == required_functions()
                    &&& o.warnings@.len() == 1
                    &&& warning_is(
                        o.warnings@[0],
                        "SITE_INFO_UNAVAILABLE"@,
                        display_spec(e),
                        Some(
                            "Mobile Web Services may be disabled, the token may be expired, or the service may not include core_webservice_get_site_info."@,
                        ),
                    )
                },
                None => true,
            }
        },
    }
}

fn check(name: &str, ok: bool, detail: &str) -> (c: DoctorCheck)
    ensures
        check_is(c, name@, ok, detail@),
{
    DoctorCheck { name: text::owned(name), ok, detail: text::owned(detail) }
}

fn all_required() -> (r: Vec<String>)
    ensures
        views(r@) == required_functions(),
{
    let names = required_function_names();
    let mut out: Vec<String> = Vec::new();
    let mut i: usize = 0;
    while i < names.len()
        invariant
            i <= names@.len(),
            names@.map_values(|s: &'static str| s@) == required_functions(),
            views(out@) == required_functions().take(i as int),
        decreases names@.len() - i,
    {
        let ghost before = out@;
        out.push(text::owned(names[i]));
        assert(views(out@) == views(before).push(names@[i as int]@));
        assert(required_functions().take(i + 1) == required_functions().take(i as int).push(
            required_functions()[i as int],
        ));
        i = i + 1;
    }
    assert(required_functions().take(5) == required_functions());
    out
}

fn offers_exec(site: &SiteInfo, name: &str) -> (r: bool)
    ensures
        r == offers(*site, name@),
{
    let mut k: usize = 0;
    while k < site.functions.len()
        invariant
            k <= site.functions@.len(),
            forall|j: int| 0 <= j < k ==> (#[trigger] site.functions@[j]).name@ != name@,
        decreases site.functions@.len() - k,
    {
        if text::str_eq(site.functions[k].name.as_str(), name) {
            return true;
        }
        k = k + 1;
    }
    false
}

/// The health report for what the checks found.
pub fn run(
    profile_name: String,
    active_profile: String,
    config_path: Option<String>,
    profile: Option<&Profile>,
    backend: &str,
    token_available: bool,
    site: &Option<Result<SiteInfo>>,
    generated_at: String,
) -> (r: DoctorOutput)
    requires
        (profile is Some && token_available) == site is Some,
    ensures
        is_doctor_report(
            r,
            profile_name@,
            active_profile@,
            opt_view(config_path),
            match profile {
                Some(p) => Some(*p),
                None => None,
            },
            backend@,
            token_available,
            *site,
        ),
        r.generated_at == generated_at,
{
    let has_profile = profile.is_some();
    let base_url = match profile {
        Some(p) => Some(p.base_url.clone()),
        None => None,
    };
    let username = match profile {
        Some(p) => Some(p.username.clone()),
        None => None,
    };
    let target: Option<CredentialTarget> = match profile {
        Some(p) => Some(crate::keychain::credential_target(p, backend)),
        None => None,
    };
    let mut checks: Vec<DoctorCheck> = Vec::new();
    let mut warnings: Vec<Warning> = Vec::new();
    let mut missing: Vec<String> = Vec::new();
    let mut unchecked: Vec<String> = Vec::new();
    let mut reached = false;
    if !has_profile {
        checks.push(check("profile", false, "No profile is configured."));
        missing = all_required();
        unchecked = all_required();
        warnings.push(
            Warning::new(
                "AUTH_REQUIRED",
                "No campus-lms profile is configured.",
                Some(
                    text::owned(
                        "Run campus-lms auth login. SSO/MFA-only Moodle sites may require an administrator-issued Web Services token instead of password login.",
                    ),
                ),
            ),
        );
    } else {
        let detail = text::concat3("Profile ", profile_name.as_str(), " is configured.");
        checks.push(check("profile", true, detail.as_str()));
        if !token_available {
            checks.push(check("token", false, "No token was found in the OS credential store."));
            missing = all_required();
            unchecked = all_required();
            warnings.push(
                Warning::new(
                    "TOKEN_UNAVAILABLE",
                    "The profile exists, but no Moodle token is available.",
                    Some(
                        text::owned(
                            "Run campus-lms auth login. If the university uses SSO/MFA, ask whether Mobile Web Services or user token issuance is enabled.",
                        ),
                    ),
                ),
            );
        } else {
            checks.push(check("token", true, "A token is available in the OS credential store."));
            match site {
                Some(Err(e)) => {
                    let message = e.display_text();
                    checks.push(check("core_webservice_get_site_info", false, message.as_str()));
                    missing = all_required();
                    unchecked = all_required();
                    warnings.push(
                        Warning::new(
                            "SITE_INFO_UNAVAILABLE",
                            message.as_str(),
                            Some(
                                text::owned(
                                    "Mobile Web Services may be disabled, the token may be expired, or the service may not include core_webservice_get_site_info.",
                                ),
                            ),
                        ),
                    );
                },
                Some(Ok(info)) => {
                    reached = true;
                    let label = match &info.sitename {
                        Some(n) => n.clone(),
                        None => text::owned("Moodle"),
                    };
                    let a = text::concat3("Connected as ", info.username.as_str(), " on ");
                    let detail = text::concat3(a.as_str(), label.as_str(), ".");
                    checks.push(check("core_webservice_get_site_info", true, detail.as_str()));
                    let names = required_function_names();
                    let ghost pred = |n: Seq<char>| !offers(*info, n);
                    let mut i: usize = 0;
                    while i < names.len()
                        invariant
                            i <= names@.len(),
                            names@.map_values(|s: &'static str| s@) == required_functions(),
                            pred == (|n: Seq<char>| !offers(*info, n)),
                            checks@.len() == 3 + i,
                            check_is(
                                checks@[2],
                                "core_webservice_get_site_info"@,
                                true,
                                "Connected as "@ + info.username@ + " on "@ + site_label(*info)
                                    + "."@,
                            ),
                            profile_check(checks@[0], profile_name@),
                            check_is(
                                checks@[1],
                                "token"@,
                                true,
                                "A token is available in the OS credential store."@,
                            ),
                            forall|j: int|
                                0 <= j < i ==> check_is(
                                    #[trigger] checks@[3 + j],
                                    required_functions()[j],
                                    offers(*info, required_functions()[j]),
                                    function_detail(offers(*info, required_functions()[j])),
                                ),
                            views(missing@) == required_functions().take(i as int).filter(pred),
                        decreases names@.len() - i,
                    {
                        let name = names[i];
                        assert(name@ == required_functions()[i as int]);
                        let ok = offers_exec(info, name);
                        let ghost before_missing = missing@;
                        proof {
                            assert(required_functions().take(i + 1) == required_functions().take(
                                i as int,
                            ).push(required_functions()[i as int]));
                            required_functions().take(i as int).lemma_filter_push(
                                required_functions()[i as int],
                                pred,
                            );
                        }
                        if !ok {
                            missing.push(text::owned(name));
                            assert(views(missing@) == views(before_missing).push(name@));
                        }
                        let detail = if ok {
                            "Available in the current Web Services token."
                        } else {
                            "Missing from the current Web Services token."
                        };
                        let ghost before_checks = checks@;
                        checks.push(check(name, ok, detail));
                        assert forall|j: int| 0 <= j < i + 1 implies check_is(
                            #[trigger] checks@[3 + j],
                            required_functions()[j],
                            offers(*info, required_functions()[j]),
                            function_detail(offers(*info, required_functions()[j])),
                        ) by {
                            if j < i {
                                assert(checks@[3 + j] == before_checks[3 + j]);
                            }
                        }
                        i = i + 1;
                    }
                    assert(required_functions().take(5) == required_functions());
                    if missing.len() > 0 {
                        warnings.push(
                            Warning::new(
                                "MOODLE_FUNCTIONS_MISSING",
                                "Some Moodle Web Service functions required by campus-lms are unavailable.",
                                Some(
                                    text::owned(
                                        "Ask the LMS administrator whether Mobile Web Services are enabled and whether the token's service includes the missing functions.",
                                    ),
                                ),
                            ),
                        );
                    }
                },
                None => {},
            }
        }
    }
    proof {
        if reached {
            assert(views(unchecked@) =~= Seq::<Seq<char>>::empty());
        }
    }
    let token_readable = has_profile && token_available;
    let live_ok = if token_readable {
        Some(reached)
    } else {
        None
    };
    let next_steps = auth::auth_next_steps(has_profile, token_readable, live_ok);
    DoctorOutput {
        schema_version: "campus-lms.doctor.v1",
        generated_at,
        profile: profile_name,
        active_profile,
        config_path,
        base_url,
        username,
        credential_target: target,
        authenticated: reached,
        checks,
        missing_functions: missing,
        unchecked_functions: unchecked,
        warnings,
        next_steps,
    }
}


/// In a report on a site that answered, a required function is listed as
/// missing exactly when its check failed.
pub proof fn law_doctor_missing_matches_checks(
    o: DoctorOutput,
    profile_name: Seq<char>,
    active_profile: Seq<char>,
    config_path: Option<Seq<char>>,
    profile: Profile,
    backend: Seq<char>,
    info: SiteInfo,
)
    requires
        is_doctor_report(
            o,
            profile_name,
            active_profile,
            config_path,
            Some(profile),
            backend,
            true,
            Some(Ok(info)),
        ),
    ensures
        forall|i: int|
            0 <= i < required_functions().len() ==> (views(o.missing_functions@).contains(
                required_functions()[i],
            ) <==> !(#[trigger] o.checks@[3 + i]).ok),
{
    let pred = |n: Seq<char>| !offers(info, n);
    assert forall|i: int| 0 <= i < required_functions().len() implies (views(
        o.missing_functions@,
    ).contains(required_functions()[i]) <==> !(#[trigger] o.checks@[3 + i]).ok) by {
        let x = required_functions()[i];
        let f = required_functions().filter(pred);
        assert(views(o.missing_functions@) == f);
        if pred(x) {
            required_functions().lemma_filter_contains(pred, i);
        }
        if f.contains(x) {
            let w = choose|w: int| 0 <= w < f.len() && f[w] == x;
            required_functions().lemma_filter_pred(pred, w);
        }
    }
}

} // verus!
