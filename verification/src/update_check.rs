//! The startup check for a newer release: opt-outs, the once-a-day cache,
//! version comparison and the notice shown to the user.

use vstd::prelude::*;
use vstd::string::StringExecFns;
use std::time::{Duration, SystemTime};
use crate::config::{config_dir, join_name, Config, FsPath, CONFIG_DIR_NAME};

verus! {

/// File in the settings directory that remembers the last check.
pub const CACHE_FILE: &'static str = "update-check.json";

/// A check is repeated at most once per this many seconds (a day).
pub const CACHE_TTL_SECS: u64 = 86400;

/// Longest wait, in seconds, for the release server.
pub const NETWORK_TIMEOUT_SECS: u64 = 3;

/// The version of this build.
pub const CURRENT_VERSION: &'static str = "0.2.0";

/// What the last check found: when it ran, and the latest release then
/// (`None` when this build was already the latest).
#[derive(Debug, Clone)]
pub struct Cache {
    pub checked_at_unix_secs: u64,
    pub latest_version: Option<String>,
}

/// Whether one of the documented opt-outs applies: `auto_update_check =
/// false` in the settings, or `FLUTE_NO_UPDATE_CHECK` or `CI` set in the
/// environment (`no_update_check_set`, `ci_set`).
pub fn opt_out(cfg: &Config, no_update_check_set: bool, ci_set: bool) -> (r: bool)
    ensures
        r == (!cfg.auto_update_check || no_update_check_set || ci_set),
{
    if !cfg.auto_update_check {
        return true;
    }
    if no_update_check_set {
        return true;
    }
    if ci_set {
        return true;
    }
    false
}

/// Whether the text `s` parses as a semantic version.
pub uninterp spec fn semver_parses(s: Seq<char>) -> bool;

/// Whether the version spelled `a` comes strictly after the one spelled `b`
/// in the order of `semver::Version` (major, minor, patch, pre-release, and
/// last build metadata, which semantic-version precedence itself ignores).
pub uninterp spec fn semver_after(a: Seq<char>, b: Seq<char>) -> bool;

/// Whether `s` parses as `axoupdater::Version` (`semver::Version`'s
/// `FromStr`). The contract names the answer; it depends on `s` alone.
#[verifier::external_body]
fn parses_as_version(s: &str) -> (r: bool)
    ensures
        r == semver_parses(s@),
{
    s.parse::<axoupdater::Version>().is_ok()
}

/// `candidate > current` for two texts that parse as versions, by the
/// derived order of `semver::Version`. The contract names the answer; it
/// depends on the two texts alone.
#[verifier::external_body]
fn version_greater(candidate: &str, current: &str) -> (r: bool)
    requires
        semver_parses(candidate@),
        semver_parses(current@),
    ensures
        r == semver_after(candidate@, current@),
{
    match (candidate.parse::<axoupdater::Version>(), current.parse::<axoupdater::Version>()) {
        (Ok(a), Ok(b)) => a > b,
        _ => false,
    }
}

/// Whether release `v` is strictly newer than `current`. A text that does
/// not parse as a version never counts as newer.
pub open spec fn newer_release(v: Seq<char>, current: Seq<char>) -> bool {
    semver_parses(current) && semver_parses(v) && semver_after(v, current)
}

/// Whether release `v` is strictly newer than the build `current`; `false`
/// when either does not parse as a version.
pub fn is_newer_than(v: &str, current: &str) -> (r: bool)
    ensures
        r == newer_release(v@, current@),
{
    if !parses_as_version(current) {
        return false;
    }
    if !parses_as_version(v) {
        return false;
    }
    version_greater(v, current)
}

/// Whether release `v` is strictly newer than this build.
pub fn is_newer_than_current(v: &str) -> (r: bool)
    ensures
        r == newer_release(v@, CURRENT_VERSION@),
{
    is_newer_than(v, CURRENT_VERSION)
}

/// The release worth announcing: `latest` when it is newer than `current`.
pub fn announce(latest: Option<String>, current: &str) -> (r: Option<String>)
    ensures
        match latest {
            Some(v) => if newer_release(v@, current@) { r == Some(v) } else { r is None },
            None => r is None,
        },
{
    match latest {
        Some(v) => if is_newer_than(v.as_str(), current) {
            Some(v)
        } else {
            None
        },
        None => None,
    }
}

/// Whether a check made at `checked_at` can still be relied on at `now`
/// (both in seconds since the epoch; a check from the future counts as
/// made now).
pub open spec fn cache_fresh(checked_at: u64, now: u64) -> bool {
    (if now >= checked_at { now - checked_at } else { 0 }) < CACHE_TTL_SECS
}

/// The remembered check, when there is one and it is younger than a day.
pub fn fresh_cache(c: Option<Cache>, now_secs: u64) -> (r: Option<Cache>)
    ensures
        match c {
            Some(k) => if cache_fresh(k.checked_at_unix_secs, now_secs) { r == Some(k) } else { r is None },
            None => r is None,
        },
{
    match c {
        Some(k) => {
            let age = now_secs.saturating_sub(k.checked_at_unix_secs);
            if age < CACHE_TTL_SECS {
                Some(k)
            } else {
                None
            }
        },
        None => None,
    }
}

/// The notice printed (or shown in the dashboard) when `version` is out.
pub open spec fn notice_text(version: Seq<char>) -> Seq<char> {
    "A newer version ("@ + version
        + ") of flute-webhooks-cli is available — run `flute-webhooks-cli update` to install."@
}

/// The one-line notice for a newer `version`, shared by the command line
/// and the dashboard.
pub fn notice_for(version: &str) -> (r: String)
    ensures
        r@ == notice_text(version@),
{
    let mut s = String::from_str("A newer version (");
    s.append(version);
    s.append(
        ") of flute-webhooks-cli is available — run `flute-webhooks-cli update` to install.",
    );
    s
}

/// A point in wall-clock time; only carried through here.
#[verifier::external_type_specification]
#[verifier::external_body]
pub struct ExSystemTime(SystemTime);

/// The current wall-clock time (`SystemTime::now`).
#[verifier::external_body]
fn system_now() -> SystemTime {
    SystemTime::now()
}

/// The time from the Unix epoch to `t`, or `None` when `t` is before it
/// (`SystemTime::duration_since(UNIX_EPOCH)`). It reads nothing but `t`,
/// yet a `Duration` is opaque here, so nothing is stated of the result.
#[verifier::external_body]
fn since_epoch(t: &SystemTime) -> Option<Duration> {
    match t.duration_since(std::time::UNIX_EPOCH) {
        Ok(d) => Some(d),
        Err(_) => None,
    }
}

/// Whole seconds of `d` (`Duration::as_secs`); `Duration` is opaque here,
/// so nothing is stated of the result.
#[verifier::external_body]
fn whole_secs(d: &Duration) -> u64 {
    d.as_secs()
}

/// The seconds-since-epoch reading to use: the reading itself, or 0 when
/// the clock is set before the epoch.
pub fn secs_or_zero(s: Option<u64>) -> (r: u64)
    ensures
        r == match s {
            Some(x) => x,
            None => 0,
        },
{
    match s {
        Some(x) => x,
        None => 0,
    }
}

/// Seconds since the Unix epoch now (0 when the clock is set before it; see
/// [`secs_or_zero`]). It reads the wall clock, so nothing is stated of the
/// value.
pub fn now_unix() -> u64 {
    let reading = match since_epoch(&system_now()) {
        Some(d) => Some(whole_secs(&d)),
        None => None,
    };
    secs_or_zero(reading)
}

/// Where the last check is remembered: [`CACHE_FILE`] in the settings
/// directory.
pub fn cache_path() -> (r: FsPath)
    ensures
        r.segments.deep_view() == seq![CONFIG_DIR_NAME@, CACHE_FILE@],
{
    join_name(config_dir(), CACHE_FILE)
}


/// Whether the startup check runs: not for `update` and `auth` commands
/// (`command_exempt`), not when stderr is not a terminal, and not when the
/// user opted out.
pub fn update_check_applies(command_exempt: bool, stderr_is_terminal: bool, opted_out: bool) -> (r: bool)
    ensures
        r == (!command_exempt && stderr_is_terminal && !opted_out),
{
    if command_exempt {
        return false;
    }
    if !stderr_is_terminal {
        return false;
    }
    !opted_out
}


/// A check is relied on for a day: it is fresh when just made and at any
/// time less than a day later, and stale from a day on.
pub proof fn lemma_cache_fresh_for_a_day(checked_at: u64, now: u64)
    ensures
        checked_at <= now < checked_at + CACHE_TTL_SECS ==> cache_fresh(checked_at, now),
        now >= checked_at + CACHE_TTL_SECS ==> !cache_fresh(checked_at, now),
{
}

} // verus!
