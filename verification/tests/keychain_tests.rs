use std::collections::{HashMap, HashSet};

use flute_webhooks_cli::auth::keychain::{
    logout_next, logout_start, DeleteOutcome, LogoutNext, LogoutStep, SERVICE,
};
use flute_webhooks_cli::cli::output::ErrorJson;
use flute_webhooks_cli::api::error::ApiError;

/// An in-memory keychain: entries by (service, user), and users whose next
/// deletion is refused.
#[derive(Default)]
struct FakeKeychain {
    entries: HashMap<(String, String), String>,
    deny_next: HashSet<String>,
}

impl FakeKeychain {
    fn save(&mut self, service: &str, user: &str) {
        self.entries.insert((service.to_string(), user.to_string()), "test-credential".to_string());
    }

    fn has(&self, service: &str, user: &str) -> bool {
        self.entries.contains_key(&(service.to_string(), user.to_string()))
    }

    fn delete(&mut self, user: &str) -> DeleteOutcome {
        if self.deny_next.remove(user) {
            return DeleteOutcome::Failed("test keychain locked".to_string());
        }
        match self.entries.remove(&(SERVICE.to_string(), user.to_string())) {
            Some(_) => DeleteOutcome::Deleted,
            None => DeleteOutcome::Missing,
        }
    }

    fn logout(&mut self, profile: &str) -> Result<(), String> {
        let mut next = logout_start(profile);
        loop {
            match next {
                LogoutNext::Delete { target, step } => {
                    let outcome = self.delete(&target);
                    next = logout_next(profile, step, outcome);
                }
                LogoutNext::Done(r) => return r,
            }
        }
    }
}

#[test]
fn logout_cleans_selected_profile_and_surfaces_keychain_failures() {
    let mut kc = FakeKeychain::default();
    let service = "flute-webhooks-cli";
    kc.save(service, "production");
    kc.save("flute-cli", "sandbox");

    for users in [
        vec!["sandbox"],
        vec!["sandbox:client_id", "sandbox:client_secret"],
        vec!["sandbox", "sandbox:client_id", "sandbox:client_secret"],
    ] {
        for user in &users {
            kc.save(service, user);
        }
        kc.logout("sandbox").unwrap();
        for user in &users {
            assert!(!kc.has(service, user));
        }
        kc.logout("sandbox").expect("repeated logout should succeed");
        assert!(kc.has(service, "production"));
        assert!(kc.has("flute-cli", "sandbox"));
    }

    kc.save(service, "sandbox");
    kc.deny_next.insert("sandbox".to_string());
    let error = kc.logout("sandbox").unwrap_err();
    let envelope = ErrorJson::from_anyhow(Some(&ApiError::Auth(error.clone())), &error);
    assert_eq!(envelope.kind, "auth");
    assert!(envelope.message.contains("deleting keychain entry for profile sandbox"));
    assert!(envelope.message.contains("test keychain locked"));
    assert!(kc.has(service, "sandbox"));

    kc.save(service, "sandbox:client_id");
    kc.save(service, "sandbox:client_secret");
    kc.deny_next.insert("sandbox:client_id".to_string());
    let error = kc.logout("sandbox").unwrap_err();
    let envelope = ErrorJson::from_anyhow(Some(&ApiError::Auth(error.clone())), &error);
    assert_eq!(envelope.kind, "auth");
    assert!(envelope.message.contains("keychain cleanup incomplete"));
    assert!(!kc.has(service, "sandbox"));
    assert!(!kc.has(service, "sandbox:client_secret"));
    assert!(kc.has(service, "sandbox:client_id"));
    kc.logout("sandbox").unwrap();
    assert!(!kc.has(service, "sandbox:client_id"));
}

#[test]
fn logout_reports_both_refused_legacy_entries() {
    let r = logout_next("uat", LogoutStep::LegacySecret { id_failed: true }, DeleteOutcome::Failed("x".into()));
    match r {
        LogoutNext::Done(Err(m)) => assert_eq!(
            m,
            "deleting legacy keychain entries for profile uat: keychain cleanup incomplete: 2 legacy entries for profile uat could not be deleted (see logs)"
        ),
        _ => panic!("expected a failed logout"),
    }
}

#[test]
fn logout_moves_from_current_to_legacy_entries() {
    match logout_start("uat") {
        LogoutNext::Delete { target, step } => {
            assert_eq!(target, "uat");
            assert_eq!(step, LogoutStep::Current);
        }
        _ => panic!("expected a deletion"),
    }
    match logout_next("uat", LogoutStep::Current, DeleteOutcome::Missing) {
        LogoutNext::Delete { target, step } => {
            assert_eq!(target, "uat:client_id");
            assert_eq!(step, LogoutStep::LegacyId);
        }
        _ => panic!("expected a deletion"),
    }
    match logout_next("uat", LogoutStep::LegacyId, DeleteOutcome::Deleted) {
        LogoutNext::Delete { target, step } => {
            assert_eq!(target, "uat:client_secret");
            assert_eq!(step, LogoutStep::LegacySecret { id_failed: false });
        }
        _ => panic!("expected a deletion"),
    }
    assert!(matches!(
        logout_next("uat", LogoutStep::LegacySecret { id_failed: false }, DeleteOutcome::Missing),
        LogoutNext::Done(Ok(()))
    ));
}
