//! Settings, polling-interval validation and the built-in API profiles.

use vstd::prelude::*;
use crate::text::{decimal, str_equal, u64_to_decimal};
use std::path::PathBuf;

verus! {

/// User settings read from `~/.flute/config.toml`; missing keys take the
/// values of [`Config::default`].
#[derive(Debug, Clone)]
pub struct Config {
    pub default_profile: String,
    pub poll_interval_seconds: u64,
    pub auto_update_check: bool,
}

impl Default for Config {
    fn default() -> (c: Self)
        ensures
            c.default_profile@ == "sandbox"@,
            c.poll_interval_seconds == 5,
            c.auto_update_check,
    {
        Config {
            default_profile: String::from_str("sandbox"),
            poll_interval_seconds: 5,
            auto_update_check: true,
        }
    }
}

/// Shortest accepted polling interval, in seconds.
pub const POLL_MIN: u64 = 5;

/// Longest accepted polling interval, in seconds.
pub const POLL_MAX: u64 = 60;

/// Interval used when the configured one is out of range.
pub const POLL_DEFAULT: u64 = 5;

/// Interval floor while a create/edit form is open.
pub const POLL_BACKOFF_SECS: u64 = 20;

/// The polling interval actually used, with the warning shown when the
/// configured value had to be replaced.
#[derive(Debug, Clone)]
pub struct ValidatedPoll {
    pub seconds: u64,
    pub warning: Option<String>,
}

/// Text of the warning for an out-of-range interval `raw`.
pub open spec fn poll_warning_text(raw: nat) -> Seq<char> {
    "poll_interval_seconds="@ + decimal(raw) + " is outside "@ + decimal(POLL_MIN as nat) + "-"@
        + decimal(POLL_MAX as nat) + "; defaulting to "@ + decimal(POLL_DEFAULT as nat)
}

/// Keeps `raw` when it lies in `POLL_MIN..=POLL_MAX`; otherwise falls back to
/// `POLL_DEFAULT` and explains why.
pub fn validate_poll_interval(raw: u64) -> (v: ValidatedPoll)
    ensures
        POLL_MIN <= raw <= POLL_MAX ==> v.seconds == raw && v.warning is None,
        !(POLL_MIN <= raw <= POLL_MAX) ==> v.seconds == POLL_DEFAULT && v.warning is Some
            && v.warning->0@ == poll_warning_text(raw as nat),
{
    if POLL_MIN <= raw && raw <= POLL_MAX {
        ValidatedPoll { seconds: raw, warning: None }
    } else {
        let mut w = String::from_str("poll_interval_seconds=");
        w.append(u64_to_decimal(raw).as_str());
        w.append(" is outside ");
        w.append(u64_to_decimal(POLL_MIN).as_str());
        w.append("-");
        w.append(u64_to_decimal(POLL_MAX).as_str());
        w.append("; defaulting to ");
        w.append(u64_to_decimal(POLL_DEFAULT).as_str());
        ValidatedPoll { seconds: POLL_DEFAULT, warning: Some(w) }
    }
}

/// A named API environment: where the API and the OAuth token endpoint live.
#[derive(Debug, Clone, PartialEq, Eq)]
pub struct Profile {
    pub name: String,
    pub api_base_url: String,
    pub oauth_url: String,
}

/// The sandbox profile's three strings.
pub open spec fn is_sandbox(p: Profile) -> bool {
    &&& p.name@ == "sandbox"@
    &&& p.api_base_url@ == "https://api.uat.arise.risewithaurora.com"@
    &&& p.oauth_url@ == "https://oauth.uat.arise.risewithaurora.com/oauth2/token"@
}

/// The production profile's three strings.
pub open spec fn is_production(p: Profile) -> bool {
    &&& p.name@ == "production"@
    &&& p.api_base_url@ == "https://api.arise.risewithaurora.com"@
    &&& p.oauth_url@ == "https://oauth.arise.risewithaurora.com/oauth2/token"@
}

impl Profile {
    /// The sandbox environment (its hosts carry `uat.`, the provider's own
    /// name for it).
    pub fn sandbox() -> (p: Self)
        ensures
            is_sandbox(p),
    {
        Profile {
            name: String::from_str("sandbox"),
            api_base_url: String::from_str("https://api.uat.arise.risewithaurora.com"),
            oauth_url: String::from_str("https://oauth.uat.arise.risewithaurora.com/oauth2/token"),
        }
    }

    /// The production environment.
    pub fn production() -> (p: Self)
        ensures
            is_production(p),
    {
        Profile {
            name: String::from_str("production"),
            api_base_url: String::from_str("https://api.arise.risewithaurora.com"),
            oauth_url: String::from_str("https://oauth.arise.risewithaurora.com/oauth2/token"),
        }
    }

    /// Resolves a profile name: `sandbox`, or `production` and its alias
    /// `prod`. Any other name is unknown.
    pub fn by_name(name: &str) -> (r: Option<Self>)
        ensures
            name@ == "sandbox"@ ==> r is Some && is_sandbox(r->0),
            (name@ == "production"@ || name@ == "prod"@) ==> r is Some && is_production(r->0),
            r is Some <==> (name@ == "sandbox"@ || name@ == "production"@ || name@ == "prod"@),
    {
        proof {
            reveal_strlit("sandbox");
            reveal_strlit("production");
            reveal_strlit("prod");
            assert("sandbox"@.len() == 7);
            assert("production"@.len() == 10);
            assert("prod"@.len() == 4);
        }
        if str_equal(name, "sandbox") {
            Some(Self::sandbox())
        } else if str_equal(name, "production") || str_equal(name, "prod") {
            Some(Self::production())
        } else {
            None
        }
    }
}


/// Name of the settings directory under the home directory.
pub const CONFIG_DIR_NAME: &'static str = ".flute";

/// Name of the settings file in the settings directory.
pub const CONFIG_FILE_NAME: &'static str = "config.toml";

/// A filesystem path; only carried through, never inspected here.
#[verifier::external_type_specification]
#[verifier::external_body]
pub struct ExPathBuf(PathBuf);

/// The current user's home directory (`dirs::home_dir`). It comes from the
/// environment, so nothing is stated of it.
#[verifier::external_body]
fn home_dir() -> Option<PathBuf> {
    dirs::home_dir()
}

/// The directory a settings path starts from.
#[derive(Debug)]
pub enum PathBase {
    /// The user's home directory.
    Home(PathBuf),
    /// The working directory (`.`), used when no home directory is known.
    WorkingDir,
}

/// A path as the library builds it: a starting directory and the names
/// joined onto it, in order.
#[derive(Debug)]
pub struct FsPath {
    pub base: PathBase,
    pub segments: Vec<String>,
}

/// The starting directory for settings, given the home directory found (if
/// any).
pub open spec fn settings_base(home: Option<PathBuf>) -> PathBase {
    match home {
        Some(h) => PathBase::Home(h),
        None => PathBase::WorkingDir,
    }
}

/// The settings directory given the home directory found: `.flute` in the
/// home directory, or in the working directory when there is none.
pub fn config_dir_at(home: Option<PathBuf>) -> (r: FsPath)
    ensures
        r.base == settings_base(home),
        r.segments.deep_view() == seq![CONFIG_DIR_NAME@],
{
    let base = match home {
        Some(h) => PathBase::Home(h),
        None => PathBase::WorkingDir,
    };
    let mut segments: Vec<String> = Vec::new();
    segments.push(String::from_str(CONFIG_DIR_NAME));
    proof {
        assert(segments.deep_view() =~= seq![CONFIG_DIR_NAME@]);
    }
    FsPath { base, segments }
}

/// `dir` with `name` joined on.
pub fn join_name(dir: FsPath, name: &str) -> (r: FsPath)
    ensures
        r.base == dir.base,
        r.segments.deep_view() == dir.segments.deep_view().push(name@),
{
    let FsPath { base, segments } = dir;
    let mut segments = segments;
    let ghost before = segments.deep_view();
    segments.push(String::from_str(name));
    proof {
        assert(segments.deep_view() =~= before.push(name@));
    }
    FsPath { base, segments }
}

/// The settings directory: `.flute` in the home directory, or in the
/// working directory when no home directory is known (see
/// [`config_dir_at`]). Which of the two depends on the environment, so the
/// contract states the names joined on.
pub fn config_dir() -> (r: FsPath)
    ensures
        r.segments.deep_view() == seq![CONFIG_DIR_NAME@],
{
    config_dir_at(home_dir())
}

/// The settings file: `config.toml` in [`config_dir`].
pub fn config_path() -> (r: FsPath)
    ensures
        r.segments.deep_view() == seq![CONFIG_DIR_NAME@, CONFIG_FILE_NAME@],
{
    join_name(config_dir(), CONFIG_FILE_NAME)
}

} // verus!
