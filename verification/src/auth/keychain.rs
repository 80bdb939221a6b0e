//! The keychain layout of the client credentials, and the decisions taken
//! while reading, migrating and deleting them.

use vstd::prelude::*;
use vstd::string::StringExecFns;
use crate::text::{decimal, u64_to_decimal};

verus! {

/// Keychain service under which every entry is stored.
pub const SERVICE: &'static str = "flute-webhooks-cli";

/// The two fields older builds stored as separate entries.
pub const LEGACY_SUFFIXES: [&'static str; 2] = ["client_id", "client_secret"];

/// Name of the legacy entry holding field `suffix` of `profile`.
pub open spec fn legacy_entry(profile: Seq<char>, suffix: Seq<char>) -> Seq<char> {
    profile + ":"@ + suffix
}

/// `<profile>:<suffix>`, the name of a legacy per-field entry.
pub fn legacy_entry_name(profile: &str, suffix: &str) -> (r: String)
    ensures
        r@ == legacy_entry(profile@, suffix@),
{
    let mut s = String::from_str(profile);
    s.append(":");
    s.append(suffix);
    s
}

/// What reading one keychain entry gave.
#[derive(Debug)]
pub enum KeyLookup {
    Found(String),
    /// The entry does not exist.
    Missing,
    /// The keychain failed; holds its message.
    Failed(String),
}

/// Credentials read from the legacy pair of entries: both present gives the
/// pair; either missing means there is no legacy pair; otherwise the first
/// failure is reported.
pub fn legacy_pair(id: KeyLookup, secret: KeyLookup) -> (r: Result<Option<(String, String)>, String>)
    ensures
        match (id, secret) {
            (KeyLookup::Found(i), KeyLookup::Found(s)) => r matches Ok(Some(p)) && p.0@ == i@
                && p.1@ == s@,
            (KeyLookup::Missing, _) => r matches Ok(None),
            (_, KeyLookup::Missing) => r matches Ok(None),
            (KeyLookup::Failed(e), _) => r matches Err(m) && m@ == e@,
            (_, KeyLookup::Failed(e)) => r matches Err(m) && m@ == e@,
        },
{
    match (id, secret) {
        (KeyLookup::Found(i), KeyLookup::Found(s)) => Ok(Some((i, s))),
        (KeyLookup::Missing, _) => Ok(None),
        (_, KeyLookup::Missing) => Ok(None),
        (KeyLookup::Failed(e), _) => Err(e),
        (_, KeyLookup::Failed(e)) => Err(e),
    }
}

/// The error after deleting the legacy entries of `profile`, when
/// `failures` of them could not be deleted (none when all went).
pub open spec fn cleanup_error(failures: u64, profile: Seq<char>) -> Option<Seq<char>> {
    if failures == 0 {
        None
    } else {
        Some(
            "keychain cleanup incomplete: "@ + decimal(failures as nat) + " legacy entries for profile "@
                + profile + " could not be deleted (see logs)"@,
        )
    }
}

/// The summary error of a legacy cleanup (see [`cleanup_error`]).
pub fn cleanup_result(failures: u64, profile: &str) -> (r: Option<String>)
    ensures
        r.deep_view() == cleanup_error(failures, profile@),
{
    if failures == 0 {
        return None;
    }
    let mut s = String::from_str("keychain cleanup incomplete: ");
    let n = u64_to_decimal(failures);
    s.append(n.as_str());
    s.append(" legacy entries for profile ");
    s.append(profile);
    s.append(" could not be deleted (see logs)");
    Some(s)
}

/// Credentials from the environment: used only when both
/// `FLUTE_CLIENT_ID` and `FLUTE_CLIENT_SECRET` are set.
pub fn env_credentials(id: Option<String>, secret: Option<String>) -> (r: Option<(String, String)>)
    ensures
        match (id, secret) {
            (Some(i), Some(s)) => r matches Some(p) && p.0 == i && p.1 == s,
            _ => r is None,
        },
{
    match (id, secret) {
        (Some(i), Some(s)) => Some((i, s)),
        _ => None,
    }
}

/// The message for a failed command that found no credentials for
/// `profile`.
pub fn missing_credentials_message(profile: &str) -> (r: String)
    ensures
        r@ == "no credentials for ["@ + profile@ + "]; run `flute-webhook auth login`"@,
{
    let mut s = String::from_str("no credentials for [");
    s.append(profile);
    s.append("]; run `flute-webhook auth login`");
    s
}

/// The message for a command naming a profile that does not exist.
pub fn unknown_profile_message(profile: &str) -> (r: String)
    ensures
        r@ == "unknown profile: "@ + profile@,
{
    let mut s = String::from_str("unknown profile: ");
    s.append(profile);
    s
}


/// What deleting one keychain entry gave.
#[derive(Debug)]
pub enum DeleteOutcome {
    Deleted,
    /// There was no such entry: the end state wanted anyway.
    Missing,
    /// The keychain refused; holds its message.
    Failed(String),
}

/// Which entry a logout deletes next.
#[derive(Debug, Clone, Copy, PartialEq, Eq, Structural)]
pub enum LogoutStep {
    /// The profile's own entry.
    Current,
    /// The legacy `client_id` entry.
    LegacyId,
    /// The legacy `client_secret` entry; records whether deleting the
    /// legacy `client_id` entry failed.
    LegacySecret { id_failed: bool },
}

/// What a logout does next.
#[derive(Debug)]
pub enum LogoutNext {
    /// Delete entry `target`, then report the outcome at `step`.
    Delete { target: String, step: LogoutStep },
    /// The logout is over, with this result.
    Done(Result<(), String>),
}

/// The next move of a logout, on plain values: delete an entry, or finish
/// (with the error text, if any).
pub enum LogoutPlan {
    Next(LogoutStep, Seq<char>),
    Finished(Option<Seq<char>>),
}

/// The entry that `step` deletes for `profile`.
pub open spec fn step_target(profile: Seq<char>, step: LogoutStep) -> Seq<char> {
    match step {
        LogoutStep::Current => profile,
        LogoutStep::LegacyId => legacy_entry(profile, "client_id"@),
        LogoutStep::LegacySecret { .. } => legacy_entry(profile, "client_secret"@),
    }
}

/// The error when the profile's own entry could not be deleted.
pub open spec fn current_failure_text(profile: Seq<char>, reason: Seq<char>) -> Seq<char> {
    "deleting keychain entry for profile "@ + profile + ": "@ + reason
}

/// The error when `failures` legacy entries could not be deleted.
pub open spec fn legacy_failure_text(profile: Seq<char>, failures: nat) -> Seq<char> {
    "deleting legacy keychain entries for profile "@ + profile + ": "@ + cleanup_error(
        failures as u64,
        profile,
    ).unwrap()
}

/// The logout's decision after deleting the entry of `step` gave `outcome`:
/// a refused deletion of the profile's own entry ends it at once; the two
/// legacy entries are both attempted, and any refusal among them is
/// reported at the end.
pub open spec fn logout_plan(profile: Seq<char>, step: LogoutStep, outcome: DeleteOutcome) -> LogoutPlan {
    match step {
        LogoutStep::Current => match outcome {
            DeleteOutcome::Failed(e) => LogoutPlan::Finished(Some(current_failure_text(profile, e@))),
            _ => LogoutPlan::Next(LogoutStep::LegacyId, step_target(profile, LogoutStep::LegacyId)),
        },
        LogoutStep::LegacyId => {
            let s = LogoutStep::LegacySecret { id_failed: outcome is Failed };
            LogoutPlan::Next(s, step_target(profile, s))
        },
        LogoutStep::LegacySecret { id_failed } => {
            let n: nat = (if id_failed { 1nat } else { 0nat }) + (if outcome is Failed { 1nat } else { 0nat });
            if n == 0 {
                LogoutPlan::Finished(None)
            } else {
                LogoutPlan::Finished(Some(legacy_failure_text(profile, n)))
            }
        },
    }
}

/// Whether `r` is the move that `p` describes.
pub open spec fn next_is(r: LogoutNext, p: LogoutPlan) -> bool {
    match (r, p) {
        (LogoutNext::Delete { target, step }, LogoutPlan::Next(s, t)) => step == s && target@ == t,
        (LogoutNext::Done(Ok(_)), LogoutPlan::Finished(None)) => true,
        (LogoutNext::Done(Err(m)), LogoutPlan::Finished(Some(e))) => m@ == e,
        _ => false,
    }
}

/// The first move of a logout of `profile`: delete its own entry.
pub fn logout_start(profile: &str) -> (r: LogoutNext)
    ensures
        next_is(r, LogoutPlan::Next(LogoutStep::Current, profile@)),
{
    LogoutNext::Delete { target: String::from_str(profile), step: LogoutStep::Current }
}

/// The move after deleting the entry of `step` gave `outcome` (see
/// [`logout_plan`]).
pub fn logout_next(profile: &str, step: LogoutStep, outcome: DeleteOutcome) -> (r: LogoutNext)
    ensures
        next_is(r, logout_plan(profile@, step, outcome)),
{
    match step {
        LogoutStep::Current => match outcome {
            DeleteOutcome::Failed(e) => {
                let mut m = String::from_str("deleting keychain entry for profile ");
                m.append(profile);
                m.append(": ");
                m.append(e.as_str());
                LogoutNext::Done(Err(m))
            },
            _ => LogoutNext::Delete {
                target: legacy_entry_name(profile, LEGACY_SUFFIXES[0]),
                step: LogoutStep::LegacyId,
            },
        },
        LogoutStep::LegacyId => {
            let failed = match outcome {
                DeleteOutcome::Failed(_) => true,
                _ => false,
            };
            LogoutNext::Delete {
                target: legacy_entry_name(profile, LEGACY_SUFFIXES[1]),
                step: LogoutStep::LegacySecret { id_failed: failed },
            }
        },
        LogoutStep::LegacySecret { id_failed } => {
            let mut n: u64 = if id_failed { 1 } else { 0 };
            match outcome {
                DeleteOutcome::Failed(_) => {
                    n = n + 1;
                },
                _ => {},
            }
            match cleanup_result(n, profile) {
                None => LogoutNext::Done(Ok(())),
                Some(c) => {
                    let mut m = String::from_str("deleting legacy keychain entries for profile ");
                    m.append(profile);
                    m.append(": ");
                    m.append(c.as_str());
                    LogoutNext::Done(Err(m))
                },
            }
        },
    }
}

/// Deleting `name` from a keychain model holding the entries `present`,
/// where the keychain refuses (with message `why`) to delete any name in
/// `locked`: the outcome, and the entries left.
pub open spec fn model_delete(
    present: Set<Seq<char>>,
    locked: Set<Seq<char>>,
    why: String,
    name: Seq<char>,
) -> (DeleteOutcome, Set<Seq<char>>) {
    if locked.contains(name) {
        (DeleteOutcome::Failed(why), present)
    } else if present.contains(name) {
        (DeleteOutcome::Deleted, present.remove(name))
    } else {
        (DeleteOutcome::Missing, present)
    }
}

/// A whole logout of `profile` against the keychain model, every move as
/// [`logout_start`] and [`logout_next`] decide it: the entries left, and
/// the error reported (none on success).
pub open spec fn logout_run(
    profile: Seq<char>,
    present: Set<Seq<char>>,
    locked: Set<Seq<char>>,
    why: String,
) -> (Set<Seq<char>>, Option<Seq<char>>) {
    let (o1, p1) = model_delete(present, locked, why, profile);
    match logout_plan(profile, LogoutStep::Current, o1) {
        LogoutPlan::Finished(e) => (p1, e),
        LogoutPlan::Next(s2, t2) => {
            let (o2, p2) = model_delete(p1, locked, why, t2);
            match logout_plan(profile, s2, o2) {
                LogoutPlan::Finished(e) => (p2, e),
                LogoutPlan::Next(s3, t3) => {
                    let (o3, p3) = model_delete(p2, locked, why, t3);
                    match logout_plan(profile, s3, o3) {
                        LogoutPlan::Finished(e) => (p3, e),
                        LogoutPlan::Next(_, _) => (p3, None),
                    }
                },
            }
        },
    }
}

proof fn lemma_entry_names_distinct(profile: Seq<char>)
    ensures
        profile != legacy_entry(profile, "client_id"@),
        profile != legacy_entry(profile, "client_secret"@),
        legacy_entry(profile, "client_id"@) != legacy_entry(profile, "client_secret"@),
{
    reveal_strlit("client_id");
    reveal_strlit("client_secret");
    reveal_strlit(":");
    let a = legacy_entry(profile, "client_id"@);
    let b = legacy_entry(profile, "client_secret"@);
    assert(a.len() != b.len());
    assert(a.len() != profile.len());
    assert(b.len() != profile.len());
}

/// A logout of `profile` touches no entry but the profile's own and its two
/// legacy entries. When the keychain refuses none of those, it removes all
/// three and succeeds; when it refuses the profile's own entry, nothing is
/// removed and that refusal is reported; when it refuses a legacy entry,
/// every other entry of the three is still removed and the logout fails.
pub proof fn lemma_logout_clears_profile(
    profile: Seq<char>,
    present: Set<Seq<char>>,
    locked: Set<Seq<char>>,
    why: String,
)
    ensures
        ({
            let (after, err) = logout_run(profile, present, locked, why);
            let id = legacy_entry(profile, "client_id"@);
            let secret = legacy_entry(profile, "client_secret"@);
            &&& forall|n: Seq<char>|
                n != profile && n != id && n != secret ==> (#[trigger] after.contains(n) <==> present.contains(n))
            &&& locked.contains(profile) ==> after == present && err == Some(
                current_failure_text(profile, why@),
            )
            &&& !locked.contains(profile) ==> forall|n: Seq<char>|
                (n == profile || n == id || n == secret) ==> (#[trigger] after.contains(n) <==> (present.contains(n)
                    && locked.contains(n)))
            &&& !locked.contains(profile) ==> (err is None <==> (!locked.contains(id) && !locked.contains(
                secret,
            )))
        }),
{
    lemma_entry_names_distinct(profile);
    let id = legacy_entry(profile, "client_id"@);
    let secret = legacy_entry(profile, "client_secret"@);
    let (o1, p1) = model_delete(present, locked, why, profile);
    if !locked.contains(profile) {
        let (o2, p2) = model_delete(p1, locked, why, id);
        let s3 = LogoutStep::LegacySecret { id_failed: o2 is Failed };
        assert(step_target(profile, LogoutStep::LegacyId) == id);
        assert(step_target(profile, s3) == secret);
        let (o3, p3) = model_delete(p2, locked, why, secret);
        assert(logout_run(profile, present, locked, why) == (p3, logout_plan(profile, s3, o3)->Finished_0));
        assert forall|n: Seq<char>| (n == profile || n == id || n == secret) implies (#[trigger] p3.contains(n)
            <==> (present.contains(n) && locked.contains(n))) by {}
        let ghost nf: nat = (if o2 is Failed { 1nat } else { 0nat }) + (if o3 is Failed { 1nat } else { 0nat });
        assert(logout_plan(profile, s3, o3) == (if nf == 0 {
            LogoutPlan::Finished(None)
        } else {
            LogoutPlan::Finished(Some(legacy_failure_text(profile, nf)))
        }));
    }
}

/// Logging out again right after a logout that succeeded succeeds too, and
/// changes nothing.
pub proof fn lemma_repeated_logout_succeeds(profile: Seq<char>, present: Set<Seq<char>>, why: String)
    ensures
        ({
            let (after, err) = logout_run(profile, present, Set::empty(), why);
            let (again, err2) = logout_run(profile, after, Set::empty(), why);
            err is None && err2 is None && again == after
        }),
{
    lemma_logout_clears_profile(profile, present, Set::empty(), why);
    let (after, err) = logout_run(profile, present, Set::empty(), why);
    lemma_logout_clears_profile(profile, after, Set::empty(), why);
    let (again, err2) = logout_run(profile, after, Set::empty(), why);
    assert(again =~= after);
}

} // verus!
