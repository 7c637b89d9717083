//! The documents the tool prints, and the warning aggregation shared by them.

use vstd::prelude::*;

use crate::cache::CacheEntry;
use crate::keychain::CredentialTarget;
use crate::moodle::models::MoodleWarning;
use crate::text::{self, opt_lt, opt_view, seq_lt};

verus! {

/// One warning attached to an output document.
#[derive(Debug, Clone)]
pub struct Warning {
    pub code: String,
    pub message: String,
    pub hint: Option<String>,
    pub item: Option<String>,
    pub itemid: Option<i64>,
}

/// All warnings that share a code, message and hint, counted.
#[derive(Debug, Clone)]
pub struct WarningSummary {
    pub code: String,
    pub count: usize,
    pub message: String,
    pub hint: Option<String>,
}

/// Warnings grouped for output, with a bounded list of detail rows.
#[derive(Debug, Clone)]
pub struct WarningReport {
    pub summary: Vec<WarningSummary>,
    pub details: Vec<Warning>,
    pub total_count: usize,
    pub returned_count: usize,
    pub details_truncated: bool,
}

/// What groups warnings: code, message and hint.
pub type WarningKey = (Seq<char>, Seq<char>, Option<Seq<char>>);

pub open spec fn warning_key(w: Warning) -> WarningKey {
    (w.code@, w.message@, opt_view(w.hint))
}

pub open spec fn summary_key(s: WarningSummary) -> WarningKey {
    (s.code@, s.message@, opt_view(s.hint))
}

/// The order of `(code, message, hint)` tuples that std's `Ord` gives.
pub open spec fn key_lt(a: WarningKey, b: WarningKey) -> bool {
    seq_lt(a.0, b.0) || (a.0 == b.0 && (seq_lt(a.1, b.1) || (a.1 == b.1 && opt_lt(a.2, b.2))))
}

/// How many warnings have the key `k`.
pub open spec fn count_key(ws: Seq<Warning>, k: WarningKey) -> nat
    decreases ws.len(),
{
    if ws.len() == 0 {
        0
    } else {
        count_key(ws.drop_last(), k) + if warning_key(ws.last()) == k {
            1nat
        } else {
            0nat
        }
    }
}

/// `summary` holds one row per distinct key of `ws`, ordered by key, each
/// with the number of warnings that have that key.
pub open spec fn summarizes(summary: Seq<WarningSummary>, ws: Seq<Warning>) -> bool {
    &&& forall|a: int, b: int|
        0 <= a < b < summary.len() ==> key_lt(
            summary_key(#[trigger] summary[a]),
            summary_key(#[trigger] summary[b]),
        )
    &&& forall|a: int|
        0 <= a < summary.len() ==> (#[trigger] summary[a]).count == count_key(
            ws,
            summary_key(summary[a]),
        ) && summary[a].count > 0
    &&& forall|t: int|
        0 <= t < ws.len() ==> exists|a: int|
            0 <= a < summary.len() && summary_key(#[trigger] summary[a]) == warning_key(
                #[trigger] ws[t],
            )
}

/// The report of a list of warnings, keeping at most `limit` detail rows
/// (`None`: all).
pub open spec fn report_spec(r: WarningReport, ws: Seq<Warning>, limit: Option<usize>) -> bool {
    let kept = match limit {
        Some(l) => if ws.len() > l {
            l as int
        } else {
            ws.len() as int
        },
        None => ws.len() as int,
    };
    &&& summarizes(r.summary@, ws)
    &&& r.details@ == ws.take(kept)
    &&& r.total_count == ws.len()
    &&& r.returned_count == kept
    &&& r.details_truncated == (kept < ws.len())
}

proof fn lemma_key_order(a: WarningKey, b: WarningKey, c: WarningKey)
    ensures
        !key_lt(a, a),
        key_lt(a, b) || key_lt(b, a) || a == b,
        !(key_lt(a, b) && key_lt(b, a)),
        key_lt(a, b) && key_lt(b, c) ==> key_lt(a, c),
{
    text::lemma_seq_lt_irreflexive(a.0);
    text::lemma_seq_lt_irreflexive(a.1);
    text::lemma_seq_lt_trichotomy(a.0, b.0);
    text::lemma_seq_lt_trichotomy(a.1, b.1);
    text::lemma_opt_lt_order(a.2, b.2, c.2);
    if seq_lt(a.0, b.0) && seq_lt(b.0, c.0) {
        text::lemma_seq_lt_transitive(a.0, b.0, c.0);
    }
    if seq_lt(a.1, b.1) && seq_lt(b.1, c.1) {
        text::lemma_seq_lt_transitive(a.1, b.1, c.1);
    }
}

proof fn lemma_count_key_bound(ws: Seq<Warning>, k: WarningKey)
    ensures
        count_key(ws, k) <= ws.len(),
        count_key(ws, k) > 0 ==> exists|t: int| 0 <= t < ws.len() && warning_key(ws[t]) == k,
    decreases ws.len(),
{
    if ws.len() > 0 {
        lemma_count_key_bound(ws.drop_last(), k);
        if count_key(ws.drop_last(), k) > 0 {
            let t = choose|t: int|
                0 <= t < ws.drop_last().len() && warning_key(ws.drop_last()[t]) == k;
            assert(ws[t] == ws.drop_last()[t]);
        }
    }
}

proof fn lemma_count_key_step(ws: Seq<Warning>, i: int, k: WarningKey)
    requires
        0 <= i < ws.len(),
    ensures
        count_key(ws.take(i + 1), k) == count_key(ws.take(i), k) + if warning_key(ws[i]) == k {
            1nat
        } else {
            0nat
        },
{
    assert(ws.take(i + 1).drop_last() == ws.take(i));
}

fn summary_before(s: &WarningSummary, w: &Warning) -> (r: bool)
    ensures
        r == key_lt(summary_key(*s), warning_key(*w)),
{
    if text::str_lt(s.code.as_str(), w.code.as_str()) {
        return true;
    }
    if !(s.code == w.code) {
        return false;
    }
    if text::str_lt(s.message.as_str(), w.message.as_str()) {
        return true;
    }
    if !(s.message == w.message) {
        return false;
    }
    text::opt_lt_exec(&s.hint, &w.hint)
}

fn same_key(s: &WarningSummary, w: &Warning) -> (r: bool)
    ensures
        r == (summary_key(*s) == warning_key(*w)),
{
    s.code == w.code && s.message == w.message && text::opt_eq(&s.hint, &w.hint)
}

/// Groups warnings by code, message and hint into `summary`.
fn summarize(warnings: &Vec<Warning>) -> (summary: Vec<WarningSummary>)
    ensures
        summarizes(summary@, warnings@),
{
    let n = warnings.len();
    let mut summary: Vec<WarningSummary> = Vec::new();
    for i in 0..n
        invariant
            n == warnings@.len(),
            summarizes(summary@, warnings@.take(i as int)),
    {
        let w = &warnings[i];
        let ghost ws = warnings@.take(i as int);
        let ghost ws1 = warnings@.take(i + 1);
        let ghost k = warning_key(*w);
        let ghost old_s = summary@;
        proof {
            assert(ws1.drop_last() == ws);
        }
        let m = summary.len();
        let mut j: usize = 0;
        let mut scanning = true;
        while scanning && j < m
            invariant
                m == summary@.len(),
                summary@ == old_s,
                k == warning_key(*w),
                0 <= j <= m,
                forall|a: int| 0 <= a < j ==> key_lt(summary_key(#[trigger] old_s[a]), k),
                !scanning ==> j < m && !key_lt(summary_key(old_s[j as int]), k),
            decreases m - j + if scanning { 1int } else { 0int },
        {
            if summary_before(&summary[j], w) {
                j = j + 1;
            } else {
                scanning = false;
            }
        }
        // Every row from j on has a key greater than or equal to k.
        proof {
            assert forall|a: int| j <= a < m implies key_lt(k, summary_key(#[trigger] old_s[a]))
                || summary_key(old_s[a]) == k by {
                if j < m {
                    lemma_key_order(summary_key(old_s[j as int]), k, k);
                    if a > j {
                        lemma_key_order(k, summary_key(old_s[j as int]), summary_key(old_s[a]));
                    }
                }
            }
        }
        if j < m && same_key(&summary[j], w) {
            let old_count = summary[j].count;
            proof {
                lemma_count_key_bound(ws, k);
                lemma_count_key_step(warnings@, i as int, k);
            }
            let row = WarningSummary {
                code: summary[j].code.clone(),
                count: old_count + 1,
                message: summary[j].message.clone(),
                hint: text::clone_opt(&summary[j].hint),
            };
            summary.set(j, row);
            proof {
                let s = summary@;
                assert forall|a: int| 0 <= a < s.len() && a != j implies summary_key(
                    #[trigger] s[a],
                ) != k by {
                    if a < j {
                        lemma_key_order(summary_key(old_s[a]), k, k);
                    } else {
                        lemma_key_order(summary_key(old_s[j as int]), summary_key(old_s[a]), k);
                    }
                }
                assert forall|a: int| 0 <= a < s.len() implies (#[trigger] s[a]).count
                    == count_key(ws1, summary_key(s[a])) && s[a].count > 0 by {
                    lemma_count_key_step(warnings@, i as int, summary_key(s[a]));
                }
                assert forall|t: int| 0 <= t < ws1.len() implies exists|a: int|
                    0 <= a < s.len() && summary_key(#[trigger] s[a]) == warning_key(
                        #[trigger] ws1[t],
                    ) by {
                    if t < i {
                        assert(ws1[t] == ws[t]);
                        let a = choose|a: int|
                            0 <= a < old_s.len() && summary_key(old_s[a]) == warning_key(ws[t]);
                        assert(summary_key(s[a]) == summary_key(old_s[a]));
                    } else {
                        assert(summary_key(s[j as int]) == warning_key(ws1[t]));
                    }
                }
            }
        } else {
            proof {
                assert forall|a: int| 0 <= a < m implies summary_key(#[trigger] old_s[a]) != k by {
                    if a < j {
                        lemma_key_order(summary_key(old_s[a]), k, k);
                    } else {
                        lemma_key_order(summary_key(old_s[j as int]), k, k);
                        if a > j {
                            lemma_key_order(
                                k,
                                summary_key(old_s[j as int]),
                                summary_key(old_s[a]),
                            );
                        }
                        lemma_key_order(k, summary_key(old_s[a]), k);
                    }
                }
                assert forall|t: int| 0 <= t < ws.len() implies warning_key(ws[t]) != k by {
                    let a = choose|a: int|
                        0 <= a < old_s.len() && summary_key(old_s[a]) == warning_key(ws[t]);
                }
                lemma_count_key_bound(ws, k);
                lemma_count_key_step(warnings@, i as int, k);
            }
            let row = WarningSummary {
                code: w.code.clone(),
                count: 1,
                message: w.message.clone(),
                hint: text::clone_opt(&w.hint),
            };
            summary.insert(j, row);
            proof {
                let s = summary@;
                assert(s == old_s.insert(j as int, row));
                assert forall|a: int, b: int| 0 <= a < b < s.len() implies key_lt(
                    summary_key(#[trigger] s[a]),
                    summary_key(#[trigger] s[b]),
                ) by {
                    if b < j {
                    } else if a < j && b == j {
                    } else if a < j {
                        assert(s[b] == old_s[b - 1]);
                    } else if a == j {
                        assert(s[b] == old_s[b - 1]);
                        lemma_key_order(k, summary_key(old_s[b - 1]), k);
                    } else {
                        assert(s[a] == old_s[a - 1]);
                        assert(s[b] == old_s[b - 1]);
                    }
                }
                assert forall|a: int| 0 <= a < s.len() implies (#[trigger] s[a]).count
                    == count_key(ws1, summary_key(s[a])) && s[a].count > 0 by {
                    lemma_count_key_step(warnings@, i as int, summary_key(s[a]));
                    if a < j {
                        assert(s[a] == old_s[a]);
                    } else if a > j {
                        assert(s[a] == old_s[a - 1]);
                    }
                }
                assert forall|t: int| 0 <= t < ws1.len() implies exists|a: int|
                    0 <= a < s.len() && summary_key(#[trigger] s[a]) == warning_key(
                        #[trigger] ws1[t],
                    ) by {
                    if t < i {
                        assert(ws1[t] == ws[t]);
                        let a = choose|a: int|
                            0 <= a < old_s.len() && summary_key(old_s[a]) == warning_key(ws[t]);
                        if a < j {
                            assert(s[a] == old_s[a]);
                        } else {
                            assert(s[a + 1] == old_s[a]);
                        }
                    } else {
                        assert(s[j as int] == row);
                    }
                }
            }
        }
    }
    assert(warnings@.take(n as int) == warnings@);
    summary
}

/// Groups warnings and keeps at most `limit` detail rows (`None`: all).
pub fn warning_report_with_limit(warnings: Vec<Warning>, limit: Option<usize>) -> (r:
    WarningReport)
    ensures
        report_spec(r, warnings@, limit),
{
    let total_count = warnings.len();
    let summary = summarize(&warnings);
    let mut details = warnings;
    let mut details_truncated = false;
    match limit {
        Some(l) => {
            if total_count > l {
                details.truncate(l);
                details_truncated = true;
            }
        },
        None => {},
    }
    proof {
        if !details_truncated {
            assert(details@ == details@.take(total_count as int));
        }
    }
    let returned_count = details.len();
    WarningReport { summary, details, total_count, returned_count, details_truncated }
}

/// Groups warnings and keeps the first five as detail rows.
pub fn warning_report(warnings: Vec<Warning>) -> (r: WarningReport)
    ensures
        report_spec(r, warnings@, Some(5usize)),
{
    warning_report_with_limit(warnings, Some(5))
}

/// The sum of the counts of a summary.
pub open spec fn summary_total(summary: Seq<WarningSummary>) -> int
    decreases summary.len(),
{
    if summary.len() == 0 {
        0
    } else {
        summary_total(summary.drop_last()) + summary.last().count
    }
}

/// How many warnings of `ws` have one of the keys `ks`, key by key.
pub open spec fn count_keys(ks: Seq<WarningKey>, ws: Seq<Warning>) -> int
    decreases ks.len(),
{
    if ks.len() == 0 {
        0
    } else {
        count_keys(ks.drop_last(), ws) + count_key(ws, ks.last())
    }
}

/// How often `k` occurs in `ks`.
pub open spec fn occurrences(ks: Seq<WarningKey>, k: WarningKey) -> int
    decreases ks.len(),
{
    if ks.len() == 0 {
        0
    } else {
        occurrences(ks.drop_last(), k) + if ks.last() == k {
            1int
        } else {
            0int
        }
    }
}

proof fn lemma_count_keys_push(ks: Seq<WarningKey>, ws: Seq<Warning>, w: Warning)
    ensures
        count_keys(ks, ws.push(w)) == count_keys(ks, ws) + occurrences(ks, warning_key(w)),
    decreases ks.len(),
{
    if ks.len() > 0 {
        lemma_count_keys_push(ks.drop_last(), ws, w);
        assert(ws.push(w).drop_last() == ws);
    }
}

proof fn lemma_occurrences_distinct(ks: Seq<WarningKey>, k: WarningKey)
    requires
        forall|a: int, b: int| 0 <= a < b < ks.len() ==> ks[a] != ks[b],
    ensures
        occurrences(ks, k) == if ks.contains(k) {
            1int
        } else {
            0int
        },
    decreases ks.len(),
{
    if ks.len() > 0 {
        let init = ks.drop_last();
        lemma_occurrences_distinct(init, k);
        if init.contains(k) {
            let w = choose|w: int| 0 <= w < init.len() && init[w] == k;
            assert(ks[w] == k);
            assert(ks.last() != k);
        }
        if ks.contains(k) && !init.contains(k) {
            let w = choose|w: int| 0 <= w < ks.len() && ks[w] == k;
            if w < init.len() {
                assert(init[w] == k);
            }
        }
        if init.contains(k) {
            let w = choose|w: int| 0 <= w < init.len() && init[w] == k;
            assert(ks[w] == k);
        }
    }
}

proof fn lemma_count_keys_cover(ks: Seq<WarningKey>, ws: Seq<Warning>)
    requires
        forall|a: int, b: int| 0 <= a < b < ks.len() ==> ks[a] != ks[b],
        forall|t: int| 0 <= t < ws.len() ==> ks.contains(warning_key(#[trigger] ws[t])),
    ensures
        count_keys(ks, ws) == ws.len(),
    decreases ws.len(),
{
    if ws.len() == 0 {
        lemma_count_keys_empty(ks, ws);
    } else {
        let init = ws.drop_last();
        assert forall|t: int| 0 <= t < init.len() implies ks.contains(warning_key(#[trigger] init[t])) by {
            assert(init[t] == ws[t]);
        }
        lemma_count_keys_cover(ks, init);
        assert(init.push(ws.last()) == ws);
        lemma_count_keys_push(ks, init, ws.last());
        assert(ks.contains(warning_key(ws[ws.len() - 1])));
        lemma_occurrences_distinct(ks, warning_key(ws.last()));
    }
}

proof fn lemma_count_keys_empty(ks: Seq<WarningKey>, ws: Seq<Warning>)
    requires
        ws.len() == 0,
    ensures
        count_keys(ks, ws) == 0,
    decreases ks.len(),
{
    if ks.len() > 0 {
        lemma_count_keys_empty(ks.drop_last(), ws);
    }
}

proof fn lemma_summary_total_is_count(summary: Seq<WarningSummary>, ws: Seq<Warning>)
    requires
        forall|a: int|
            0 <= a < summary.len() ==> (#[trigger] summary[a]).count == count_key(
                ws,
                summary_key(summary[a]),
            ),
    ensures
        summary_total(summary) == count_keys(summary.map_values(|s: WarningSummary| summary_key(s)), ws),
    decreases summary.len(),
{
    if summary.len() > 0 {
        let init = summary.drop_last();
        assert forall|a: int| 0 <= a < init.len() implies (#[trigger] init[a]).count == count_key(
            ws,
            summary_key(init[a]),
        ) by {
            assert(init[a] == summary[a]);
        }
        lemma_summary_total_is_count(init, ws);
        let ks = summary.map_values(|s: WarningSummary| summary_key(s));
        assert(ks.drop_last() == init.map_values(|s: WarningSummary| summary_key(s)));
        assert(summary.last() == summary[summary.len() - 1]);
    }
}

/// A warning report loses and double-counts nothing: the counts of its
/// summary rows add up to the number of warnings reported.
pub proof fn law_report_counts_add_up(r: WarningReport, ws: Seq<Warning>, limit: Option<usize>)
    requires
        report_spec(r, ws, limit),
    ensures
        summary_total(r.summary@) == ws.len(),
        summary_total(r.summary@) == r.total_count,
{
    let summary = r.summary@;
    let ks = summary.map_values(|s: WarningSummary| summary_key(s));
    assert forall|a: int, b: int| 0 <= a < b < ks.len() implies ks[a] != ks[b] by {
        assert(key_lt(summary_key(summary[a]), summary_key(summary[b])));
        lemma_key_order(ks[a], ks[b], ks[b]);
    }
    assert forall|t: int| 0 <= t < ws.len() implies ks.contains(warning_key(#[trigger] ws[t])) by {
        let a = choose|a: int|
            0 <= a < summary.len() && summary_key(#[trigger] summary[a]) == warning_key(ws[t]);
        assert(ks[a] == warning_key(ws[t]));
    }
    lemma_count_keys_cover(ks, ws);
    lemma_summary_total_is_count(summary, ws);
}

/// `r` is the warning reported for the Moodle warning `w`.
pub open spec fn converts_moodle_warning(r: Warning, w: MoodleWarning) -> bool {
    let message = match w.message {
        Some(m) => m@,
        None => "Moodle returned a warning without a message."@,
    };
    &&& r.message@ == message
    &&& r.code@ == stable_warning_code_spec(opt_view(w.warningcode), message)
    &&& opt_view(r.hint) == Some("The LMS may have returned partial results."@)
    &&& opt_view(r.item) == opt_view(w.item)
    &&& r.itemid == w.itemid
}

impl Warning {
    pub fn new(code: &str, message: &str, hint: Option<String>) -> (r: Self)
        ensures
            r.code@ == code@,
            r.message@ == message@,
            r.hint == hint,
            r.item is None,
            r.itemid is None,
    {
        Warning { code: text::owned(code), message: text::owned(message), hint, item: None, itemid: None }
    }

    pub fn from_moodle_warning(warning: &MoodleWarning) -> (r: Self)
        ensures
            converts_moodle_warning(r, *warning),
    {
        let message = match &warning.message {
            Some(m) => m.clone(),
            None => text::owned("Moodle returned a warning without a message."),
        };
        let code = match &warning.warningcode {
            Some(c) => stable_warning_code(Some(c.as_str()), message.as_str()),
            None => stable_warning_code(None, message.as_str()),
        };
        Warning {
            code,
            message,
            hint: Some(text::owned("The LMS may have returned partial results.")),
            item: text::clone_opt(&warning.item),
            itemid: warning.itemid,
        }
    }
}

/// How a warning code character is normalised.
pub open spec fn code_char(c: char) -> char {
    if ('a' <= c && c <= 'z') || ('A' <= c && c <= 'Z') || ('0' <= c && c <= '9') {
        text::ascii_upper_char(c)
    } else {
        '_'
    }
}

/// `s` without leading `_`.
pub open spec fn trim_start_underscores(s: Seq<char>) -> Seq<char>
    decreases s.len(),
{
    if s.len() > 0 && s[0] == '_' {
        trim_start_underscores(s.drop_first())
    } else {
        s
    }
}

/// `s` without trailing `_`.
pub open spec fn trim_end_underscores(s: Seq<char>) -> Seq<char>
    decreases s.len(),
{
    if s.len() > 0 && s.last() == '_' {
        trim_end_underscores(s.drop_last())
    } else {
        s
    }
}

/// The schema-safe form of a Moodle warning code.
pub open spec fn normalize_warning_code_spec(code: Option<Seq<char>>) -> Seq<char> {
    match code {
        None => "MOODLE_WARNING"@,
        Some(c) => {
            let t = trim_end_underscores(
                trim_start_underscores(c.map_values(|ch: char| code_char(ch))),
            );
            if t.len() == 0 {
                "MOODLE_WARNING"@
            } else {
                t
            }
        },
    }
}

/// The code a Moodle warning is reported under.
pub open spec fn stable_warning_code_spec(code: Option<Seq<char>>, message: Seq<char>) -> Seq<
    char,
> {
    if text::contains_seq(text::ascii_lower(message), "no access rights in module context"@) {
        "ACCESS_DENIED_IN_MODULE_CONTEXT"@
    } else {
        normalize_warning_code_spec(code)
    }
}

/// A character allowed in a warning code: `A`-`Z`, `0`-`9` or `_`.
pub open spec fn code_safe_char(c: char) -> bool {
    ('A' <= c && c <= 'Z') || ('0' <= c && c <= '9') || c == '_'
}

/// Whether a warning code matches `^[A-Z0-9_]+$`.
pub open spec fn code_safe(s: Seq<char>) -> bool {
    s.len() > 0 && forall|i: int| 0 <= i < s.len() ==> code_safe_char(#[trigger] s[i])
}

proof fn lemma_trim_start_safe(s: Seq<char>)
    requires
        forall|i: int| 0 <= i < s.len() ==> code_safe_char(#[trigger] s[i]),
    ensures
        forall|i: int|
            0 <= i < trim_start_underscores(s).len() ==> code_safe_char(
                #[trigger] trim_start_underscores(s)[i],
            ),
    decreases s.len(),
{
    if s.len() > 0 && s[0] == '_' {
        let t = s.drop_first();
        assert forall|i: int| 0 <= i < t.len() implies code_safe_char(#[trigger] t[i]) by {
            assert(t[i] == s[i + 1]);
        }
        lemma_trim_start_safe(t);
        assert(trim_start_underscores(s) == trim_start_underscores(t));
    } else {
        assert(trim_start_underscores(s) == s);
    }
}

proof fn lemma_trim_end_safe(s: Seq<char>)
    requires
        forall|i: int| 0 <= i < s.len() ==> code_safe_char(#[trigger] s[i]),
    ensures
        forall|i: int|
            0 <= i < trim_end_underscores(s).len() ==> code_safe_char(
                #[trigger] trim_end_underscores(s)[i],
            ),
    decreases s.len(),
{
    if s.len() > 0 && s.last() == '_' {
        let t = s.drop_last();
        assert forall|i: int| 0 <= i < t.len() implies code_safe_char(#[trigger] t[i]) by {
            assert(t[i] == s[i]);
        }
        lemma_trim_end_safe(t);
        assert(trim_end_underscores(s) == trim_end_underscores(t));
    } else {
        assert(trim_end_underscores(s) == s);
    }
}

/// Every warning code the tool reports matches `^[A-Z0-9_]+$`, whatever
/// code and message Moodle sent.
pub proof fn law_warning_codes_are_schema_safe(code: Option<Seq<char>>, message: Seq<char>)
    ensures
        code_safe(normalize_warning_code_spec(code)),
        code_safe(stable_warning_code_spec(code, message)),
{
    reveal_strlit("MOODLE_WARNING");
    reveal_strlit("ACCESS_DENIED_IN_MODULE_CONTEXT");
    match code {
        None => {},
        Some(c) => {
            let m = c.map_values(|ch: char| code_char(ch));
            assert forall|i: int| 0 <= i < m.len() implies code_safe_char(#[trigger] m[i]) by {
                let ch = c[i];
                assert(m[i] == code_char(ch));
                if 'a' <= ch && ch <= 'z' {
                    assert(text::ascii_upper_char(ch) == ((ch as u32) - 32) as char);
                    assert('A' <= ((ch as u32) - 32) as char <= 'Z');
                }
            }
            lemma_trim_start_safe(m);
            lemma_trim_end_safe(trim_start_underscores(m));
        },
    }
}

proof fn lemma_trim_start_edge(s: Seq<char>)
    ensures
        trim_start_underscores(s).len() > 0 ==> trim_start_underscores(s)[0] != '_',
        trim_start_underscores(s).len() <= s.len(),
        trim_start_underscores(s) == s.skip(s.len() - trim_start_underscores(s).len()),
    decreases s.len(),
{
    if s.len() > 0 && s[0] == '_' {
        lemma_trim_start_edge(s.drop_first());
        assert(trim_start_underscores(s) == trim_start_underscores(s.drop_first()));
        let t = trim_start_underscores(s);
        assert(s.drop_first().skip(s.drop_first().len() - t.len()) =~= s.skip(s.len() - t.len()));
    } else {
        assert(trim_start_underscores(s) == s);
        assert(s.skip(0) =~= s);
    }
}

proof fn lemma_trim_end_edge(s: Seq<char>)
    ensures
        trim_end_underscores(s).len() > 0 ==> trim_end_underscores(s).last() != '_',
        trim_end_underscores(s).len() <= s.len(),
        trim_end_underscores(s) == s.take(trim_end_underscores(s).len() as int),
    decreases s.len(),
{
    if s.len() > 0 && s.last() == '_' {
        lemma_trim_end_edge(s.drop_last());
        assert(trim_end_underscores(s) == trim_end_underscores(s.drop_last()));
        let t = trim_end_underscores(s);
        assert(s.drop_last().take(t.len() as int) =~= s.take(t.len() as int));
    } else {
        assert(trim_end_underscores(s) == s);
        assert(s.take(s.len() as int) =~= s);
    }
}

proof fn lemma_safe_code_fixed(s: Seq<char>)
    requires
        code_safe(s),
        s[0] != '_',
        s.last() != '_',
    ensures
        normalize_warning_code_spec(Some(s)) == s,
{
    let m = s.map_values(|ch: char| code_char(ch));
    assert forall|i: int| 0 <= i < s.len() implies m[i] == s[i] by {
        assert(code_safe_char(s[i]));
    }
    assert(m =~= s);
    assert(trim_start_underscores(s) == s);
    assert(trim_end_underscores(s) == s);
}

/// A normalized warning code is in normal form: it neither starts nor ends
/// with `_`, a missing code gives `MOODLE_WARNING`, and normalizing it again
/// changes nothing.
pub proof fn law_warning_code_normal_form(code: Option<Seq<char>>)
    ensures
        normalize_warning_code_spec(code)[0] != '_',
        normalize_warning_code_spec(code).last() != '_',
        code is None ==> normalize_warning_code_spec(code) == "MOODLE_WARNING"@,
        normalize_warning_code_spec(Some(normalize_warning_code_spec(code))) == normalize_warning_code_spec(
            code,
        ),
{
    reveal_strlit("MOODLE_WARNING");
    law_warning_codes_are_schema_safe(code, Seq::empty());
    let r = normalize_warning_code_spec(code);
    match code {
        None => {},
        Some(c) => {
            let m = c.map_values(|ch: char| code_char(ch));
            let a = trim_start_underscores(m);
            lemma_trim_start_edge(m);
            lemma_trim_end_edge(a);
            let t = trim_end_underscores(a);
            if t.len() > 0 {
                assert(t[0] == a[0]);
            }
        },
    }
    lemma_safe_code_fixed(r);
}

pub fn stable_warning_code(code: Option<&str>, message: &str) -> (r: String)
    ensures
        r@ == stable_warning_code_spec(
            match code {
                Some(c) => Some(c@),
                None => None,
            },
            message@,
        ),
{
    let lower = text::ascii_lower_exec(message);
    let needle = text::chars_of("no access rights in module context");
    if text::contains_chars(&lower, &needle) {
        return text::owned("ACCESS_DENIED_IN_MODULE_CONTEXT");
    }
    normalize_warning_code(code)
}

pub fn normalize_warning_code(code: Option<&str>) -> (r: String)
    ensures
        r@ == normalize_warning_code_spec(
            match code {
                Some(c) => Some(c@),
                None => None,
            },
        ),
{
    let code = match code {
        Some(c) => c,
        None => {
            return text::owned("MOODLE_WARNING");
        },
    };
    let cs = text::chars_of(code);
    let n = cs.len();
    let mut mapped: Vec<char> = Vec::new();
    for i in 0..n
        invariant
            n == cs@.len(),
            mapped@ == cs@.take(i as int).map_values(|ch: char| code_char(ch)),
    {
        let c = cs[i];
        let m = if ('a' <= c && c <= 'z') || ('A' <= c && c <= 'Z') || ('0' <= c && c <= '9') {
            text::ascii_upper_char_exec(c)
        } else {
            '_'
        };
        mapped.push(m);
        assert(cs@.take(i + 1).map_values(|ch: char| code_char(ch)) =~= cs@.take(
            i as int,
        ).map_values(|ch: char| code_char(ch)).push(code_char(c)));
    }
    assert(cs@.take(n as int) == cs@);
    let ghost full = mapped@;
    // Trim leading underscores.
    let mut start: usize = 0;
    assert(full.skip(0) == full);
    while start < n && mapped[start] == '_'
        invariant
            n == mapped@.len(),
            full == mapped@,
            0 <= start <= n,
            trim_start_underscores(full) == trim_start_underscores(full.skip(start as int)),
        decreases n - start,
    {
        assert(full.skip(start as int).drop_first() == full.skip(start + 1));
        start = start + 1;
    }
    assert(trim_start_underscores(full.skip(start as int)) == full.skip(start as int));
    // Trim trailing underscores.
    let mut end: usize = n;
    let ghost mid = full.skip(start as int);
    assert(mid == full.subrange(start as int, n as int));
    while end > start && mapped[end - 1] == '_'
        invariant
            n == mapped@.len(),
            full == mapped@,
            0 <= start <= end <= n,
            mid == full.subrange(start as int, n as int),
            trim_end_underscores(mid) == trim_end_underscores(
                full.subrange(start as int, end as int),
            ),
        decreases end,
    {
        assert(full.subrange(start as int, end as int).drop_last() == full.subrange(
            start as int,
            end - 1,
        ));
        end = end - 1;
    }
    let trimmed = text::slice_chars(&mapped, start, end);
    assert(trim_end_underscores(trimmed@) == trimmed@);
    if trimmed.len() == 0 {
        text::owned("MOODLE_WARNING")
    } else {
        text::string_of(&trimmed)
    }
}

/// Where a document's data came from and how old it is.
#[derive(Debug, Clone)]
pub struct CacheMeta {
    pub used: bool,
    pub fetched_at: Option<String>,
    pub age_seconds: Option<u64>,
    pub ttl_seconds: u64,
    pub stale: bool,
}

impl CacheMeta {
    /// Metadata for data fetched just now from the LMS.
    pub fn fresh(ttl_seconds: u64) -> (r: Self)
        ensures
            !r.used,
            r.fetched_at matches Some(t) && crate::output::rfc3339_utc_text(t@),
            r.age_seconds is None,
            r.ttl_seconds == ttl_seconds,
            !r.stale,
    {
        CacheMeta {
            used: false,
            fetched_at: Some(crate::output::generated_at()),
            age_seconds: None,
            ttl_seconds,
            stale: false,
        }
    }

    /// Metadata for data read from a cache entry.
    pub fn from_entry<T>(entry: &CacheEntry<T>, ttl_seconds: u64) -> (r: Self)
        ensures
            r.used,
            opt_view(r.fetched_at) == opt_view(entry.fetched_at),
            r.age_seconds == Some(entry.age_seconds),
            r.ttl_seconds == ttl_seconds,
            r.stale == entry.stale,
    {
        CacheMeta {
            used: true,
            fetched_at: text::clone_opt(&entry.fetched_at),
            age_seconds: Some(entry.age_seconds),
            ttl_seconds,
            stale: entry.stale,
        }
    }
}

#[derive(Debug, Clone)]
pub struct DateRange {
    pub from: String,
    pub to: String,
    pub timezone: String,
}

#[derive(Debug, Clone)]
pub struct AuthStatusOutput {
    pub schema_version: &'static str,
    pub generated_at: String,
    pub authenticated: bool,
    pub profile: String,
    pub active_profile: String,
    pub config_path: Option<String>,
    pub base_url: Option<String>,
    pub username: Option<String>,
    pub credential_target: Option<CredentialTarget>,
    pub token_available: bool,
    pub token_readable: bool,
    pub live_status: String,
    pub live_check: String,
    pub live_ok: Option<bool>,
    pub warnings: Vec<Warning>,
    pub next_steps: Vec<String>,
}

#[derive(Debug, Clone)]
pub struct AuthLoginOutput {
    pub schema_version: &'static str,
    pub generated_at: String,
    pub authenticated: bool,
    pub profile: String,
    pub base_url: String,
    pub username: String,
    pub credential_target: CredentialTarget,
    pub token_verified: bool,
    pub warnings: Vec<Warning>,
    pub next_steps: Vec<String>,
}

#[derive(Debug, Clone)]
pub struct AuthImportTokenOutput {
    pub schema_version: &'static str,
    pub generated_at: String,
    pub authenticated: bool,
    pub profile: String,
    pub base_url: String,
    pub username: String,
    pub credential_target: CredentialTarget,
    pub token_verified: bool,
    pub warnings: Vec<Warning>,
    pub next_steps: Vec<String>,
}

#[derive(Debug, Clone)]
pub struct AuthLogoutOutput {
    pub schema_version: &'static str,
    pub generated_at: String,
    pub logged_out: bool,
    pub profile: String,
    pub warnings: Vec<Warning>,
}

#[derive(Debug, Clone)]
pub struct AuthVerifyOutput {
    pub schema_version: &'static str,
    pub generated_at: String,
    pub profile: String,
    pub active_profile: String,
    pub config_path: Option<String>,
    pub profile_configured: bool,
    pub base_url: Option<String>,
    pub username: Option<String>,
    pub credential_target: Option<CredentialTarget>,
    pub backend_roundtrip_ok: bool,
    pub credential_backend_ok: bool,
    pub token_available: bool,
    pub token_readable: bool,
    pub live_status: String,
    pub live_check: String,
    pub live_ok: Option<bool>,
    pub warnings: Vec<Warning>,
    pub next_steps: Vec<String>,
}

#[derive(Debug, Clone)]
pub struct UserInfo {
    pub id: String,
    pub username: String,
    pub fullname: Option<String>,
    pub site_name: Option<String>,
}

#[derive(Debug, Clone)]
pub struct WhoamiOutput {
    pub schema_version: &'static str,
    pub generated_at: String,
    pub user: UserInfo,
    pub warnings: Vec<Warning>,
}

#[derive(Debug, Clone)]
pub struct CourseItem {
    pub id: String,
    pub moodle_id: i64,
    pub short_name: Option<String>,
    pub full_name: Option<String>,
    pub visible: bool,
    pub url: String,
}

#[derive(Debug, Clone)]
pub struct CoursesOutput {
    pub schema_version: &'static str,
    pub generated_at: String,
    pub cache: CacheMeta,
    pub courses: Vec<CourseItem>,
    pub warnings: Vec<Warning>,
}

#[derive(Debug, Clone)]
pub struct TodoItem {
    pub id: String,
    pub item_type: String,
    pub course_id: Option<String>,
    pub course_name: Option<String>,
    pub title: Option<String>,
    pub due_at: Option<String>,
    pub due_in_seconds: Option<i64>,
    pub status: String,
    pub status_reason: Option<String>,
    pub status_source: String,
    pub priority_hint: String,
    pub url: Option<String>,
    pub detail_command: Option<String>,
}

#[derive(Debug, Clone)]
pub struct TodoOutput {
    pub schema_version: &'static str,
    pub generated_at: String,
    pub range: DateRange,
    pub cache: CacheMeta,
    pub summary: TodoSummary,
    pub total_items_before_limit: usize,
    pub items: Vec<TodoItem>,
    pub warnings_summary: Vec<WarningSummary>,
    pub warnings_total_count: usize,
    pub warnings_returned_count: usize,
    pub warnings_details_truncated: bool,
    pub warnings: Vec<Warning>,
}

#[derive(Debug, Clone)]
pub struct TodoSummary {
    pub returned_count: usize,
    pub total_matching_count: usize,
    pub limited: bool,
    pub overdue_count: usize,
    pub due_within_48h_count: usize,
}

#[derive(Debug, Clone)]
pub struct AttachmentOutput {
    pub id: String,
    pub name: String,
    pub mime_type: Option<String>,
    pub size_bytes: Option<i64>,
    pub download_url_available: bool,
    pub download_command: Option<String>,
}

#[derive(Debug, Clone)]
pub struct AssignmentSubmissionOutput {
    pub status: String,
    pub status_source: String,
    pub last_modified_at: Option<String>,
    pub grading_status: Option<String>,
}

#[derive(Debug, Clone)]
pub struct AssignmentDetailOutput {
    pub id: String,
    pub moodle_id: i64,
    pub cmid: Option<i64>,
    pub course_id: String,
    pub course_name: Option<String>,
    pub title: Option<String>,
    pub due_at: Option<String>,
    pub allows_submission_from: Option<String>,
    pub cutoff_at: Option<String>,
    pub description_text: String,
    pub description_truncated: bool,
    pub description_original_length_chars: usize,
    pub description_html: Option<String>,
    pub description_html_available: bool,
    pub attachments: Vec<AttachmentOutput>,
    pub submission: AssignmentSubmissionOutput,
    pub url: String,
}

#[derive(Debug, Clone)]
pub struct AssignmentOutput {
    pub schema_version: &'static str,
    pub generated_at: String,
    pub cache: CacheMeta,
    pub assignment: AssignmentDetailOutput,
    pub warnings_summary: Vec<WarningSummary>,
    pub warnings_total_count: usize,
    pub warnings_returned_count: usize,
    pub warnings_details_truncated: bool,
    pub warnings: Vec<Warning>,
}

#[derive(Debug, Clone)]
pub struct PrivacyOutput {
    pub grades_included: bool,
    pub feedback_included: bool,
    pub user_email_included: bool,
}

#[derive(Debug, Clone)]
pub struct SummaryOutput {
    pub returned_count: usize,
    pub total_matching_count: usize,
    pub limited: bool,
    pub pending_count: usize,
    pub pending_returned_count: usize,
    pub pending_total_matching_count: usize,
    pub overdue_count: usize,
    pub due_within_48h_count: usize,
}

#[derive(Debug, Clone)]
pub struct SnapshotCourse {
    pub id: String,
    pub name: Option<String>,
}

#[derive(Debug, Clone)]
pub struct AiSnapshotOutput {
    pub schema_version: &'static str,
    pub generated_at: String,
    pub privacy: PrivacyOutput,
    pub range: DateRange,
    pub summary: SummaryOutput,
    pub courses: Vec<SnapshotCourse>,
    pub courses_in_pending_tasks: Vec<SnapshotCourse>,
    pub pending_tasks: Vec<TodoItem>,
    pub unsupported_flags: Vec<String>,
    pub warnings_summary: Vec<WarningSummary>,
    pub warnings_total_count: usize,
    pub warnings_returned_count: usize,
    pub warnings_details_truncated: bool,
    pub warnings: Vec<Warning>,
}

#[derive(Debug, Clone)]
pub struct SchemaListOutput {
    pub schema_version: &'static str,
    pub generated_at: String,
    pub schemas: Vec<String>,
    pub warnings: Vec<Warning>,
}

#[derive(Debug, Clone)]
pub struct DoctorCheck {
    pub name: String,
    pub ok: bool,
    pub detail: String,
}

#[derive(Debug, Clone)]
pub struct DoctorOutput {
    pub schema_version: &'static str,
    pub generated_at: String,
    pub profile: String,
    pub active_profile: String,
    pub config_path: Option<String>,
    pub base_url: Option<String>,
    pub username: Option<String>,
    pub credential_target: Option<CredentialTarget>,
    pub authenticated: bool,
    pub checks: Vec<DoctorCheck>,
    pub missing_functions: Vec<String>,
    pub unchecked_functions: Vec<String>,
    pub warnings: Vec<Warning>,
    pub next_steps: Vec<String>,
}

/// A warning about missing access rights in a module context is always
/// reported as `ACCESS_DENIED_IN_MODULE_CONTEXT`, whatever code Moodle sent
/// with it (or none), and in whatever letter case the message says so.
pub proof fn law_module_access_warnings_are_access_denied(
    code: Option<Seq<char>>,
    message: Seq<char>,
    r: Warning,
    w: MoodleWarning,
)
    ensures
        text::contains_seq(text::ascii_lower(message), "no access rights in module context"@)
            ==> stable_warning_code_spec(code, message) == "ACCESS_DENIED_IN_MODULE_CONTEXT"@,
        converts_moodle_warning(r, w) ==> (w.message matches Some(m) ==> (text::contains_seq(
            text::ascii_lower(m@),
            "no access rights in module context"@,
        ) ==> r.code@ == "ACCESS_DENIED_IN_MODULE_CONTEXT"@)),
{
}

} // verus!
