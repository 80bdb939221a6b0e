//! The self-update command: where releases come from and what it tells the
//! user.

use vstd::prelude::*;
use vstd::string::StringExecFns;

verus! {

/// Name the installers use for this tool.
pub const APP_NAME: &'static str = "flute-webhooks-cli";

/// Owner of the release repository.
pub const REPO_OWNER: &'static str = "getflute";

/// Name of the release repository.
pub const REPO_NAME: &'static str = "flute-webhooks-cli";

/// The message when `current` is already the latest release.
pub fn already_latest_message(current: &str) -> (r: String)
    ensures
        r@ == "Already on the latest version ("@ + current@ + ")."@,
{
    let mut s = String::from_str("Already on the latest version (");
    s.append(current);
    s.append(").");
    s
}

/// The message after an in-place update to `version`.
pub fn updated_message(version: &str) -> (r: String)
    ensures
        r@ == "Updated to "@ + version@ + "."@,
{
    let mut s = String::from_str("Updated to ");
    s.append(version);
    s.append(".");
    s
}

/// What a build without an install receipt must be told about release
/// `version`: it cannot replace itself, and how to reinstall.
pub open spec fn reinstall_text(version: Seq<char>) -> Seq<char> {
    "A newer version ("@ + version
        + ") is available, but this binary was not installed via a cargo-dist installer, so `update` cannot replace it in place.\nReinstall using one of:\n  curl -LsSf https://github.com/getflute/flute-webhooks-cli/releases/latest/download/flute-webhooks-cli-installer.sh | sh\n  brew install getflute/flute-webhooks-cli/flute-webhooks-cli\n  irm https://github.com/getflute/flute-webhooks-cli/releases/latest/download/flute-webhooks-cli-installer.ps1 | iex"@
}

/// The message for a build without an install receipt: how to reinstall
/// when `latest` names a release other than `current`, otherwise that it is
/// already the latest.
pub fn source_build_message(latest: Option<String>, current: &str) -> (r: String)
    ensures
        match latest {
            Some(v) => if v@ != current@ {
                r@ == reinstall_text(v@)
            } else {
                r@ == "Already on the latest version ("@ + current@ + ")."@
            },
            None => r@ == "Already on the latest version ("@ + current@ + ")."@,
        },
{
    match latest {
        Some(v) => {
            if !crate::text::str_equal(v.as_str(), current) {
                let mut s = String::from_str("A newer version (");
                s.append(v.as_str());
                s.append(
                    ") is available, but this binary was not installed via a cargo-dist installer, so `update` cannot replace it in place.\nReinstall using one of:\n  curl -LsSf https://github.com/getflute/flute-webhooks-cli/releases/latest/download/flute-webhooks-cli-installer.sh | sh\n  brew install getflute/flute-webhooks-cli/flute-webhooks-cli\n  irm https://github.com/getflute/flute-webhooks-cli/releases/latest/download/flute-webhooks-cli-installer.ps1 | iex",
                );
                s
            } else {
                already_latest_message(current)
            }
        },
        None => already_latest_message(current),
    }
}

} // verus!
