use forgive_me::background::{estimate_seconds, tally, worker_state};
use forgive_me::model::{Account, Policy};
use forgive_me::config::{Config, ConfigError};
use forgive_me::manager::{admit_request, check_query, page_window, Action, ManagerError, Query};

fn query(search: &str, filter: &str, page: usize) -> Query {
    Query { search: search.into(), filter: filter.into(), page }
}

#[test]
fn search_and_pagination_are_bounded_and_mutation_cannot_relax_rules() {
    assert_eq!(check_query(&query("", "", 0)), Ok(()));
    assert_eq!(check_query(&query("x", "queue", 3)), Ok(()));
    assert_eq!(check_query(&query(&"x".repeat(201), "", 0)), Err(ManagerError::SearchTooLarge));
    assert_eq!(check_query(&query("", "", 1_000_001)), Err(ManagerError::SearchTooLarge));
    assert_eq!(check_query(&query("", "everything", 0)), Err(ManagerError::UnknownView));
    assert_eq!(page_window(140, 10), (2, 100, 140));
    assert_eq!(page_window(140, 1), (1, 50, 100));
    assert_eq!(page_window(0, 5), (0, 0, 0));
    assert_eq!(page_window(50, 1), (0, 0, 50));
}

#[test]
fn controls_require_live_owner_and_explicit_cleanup_confirmation() {
    let snapshot = Action::Snapshot { query: query("", "", 0) };
    assert_eq!(admit_request("r", true, true, "", &snapshot, "1", false), Ok(()));
    assert_eq!(
        admit_request("r", true, true, "wrong", &snapshot, "1", true),
        Err(ManagerError::AccountChanged)
    );
    assert_eq!(admit_request("r", true, true, "1", &Action::Pause, "1", true), Ok(()));
    assert_eq!(
        admit_request("r", true, true, "", &Action::Pause, "1", true),
        Err(ManagerError::AccountChanged)
    );
    assert_eq!(
        admit_request("r", true, true, "1", &Action::Pause, "1", false),
        Err(ManagerError::ControlsRefused)
    );
    assert_eq!(
        admit_request("r", true, false, "1", &Action::Pause, "1", true),
        Err(ManagerError::NotConnected)
    );
    assert_eq!(
        admit_request(&"r".repeat(81), true, true, "1", &Action::Pause, "1", true),
        Err(ManagerError::InvalidRequestId)
    );
}

#[test]
fn worker_status_names_the_current_state() {
    assert_eq!(worker_state(false, false, 0, false, true, false, false, false), "Waiting for Chrome");
    assert_eq!(worker_state(true, false, 0, false, true, false, false, false), "Checking account");
    assert_eq!(worker_state(true, true, 1, false, true, false, false, false), "Needs reconciliation");
    assert_eq!(worker_state(true, true, 1, true, false, false, false, false), "No queued work");
    assert_eq!(worker_state(true, true, 0, false, true, true, true, true), "Paused");
    assert_eq!(worker_state(true, true, 0, false, true, false, true, true), "Cooling down");
    assert_eq!(worker_state(true, true, 0, false, true, false, false, true), "Full Auto");
    assert_eq!(worker_state(true, true, 0, false, true, false, false, false), "Running");
    assert_eq!(estimate_seconds(101_000, 1_000, 20, 10), Some(50));
    assert_eq!(estimate_seconds(101_000, 1_000, 19, 10), None);
    assert_eq!(estimate_seconds(101_000, 0, 20, 10), None);
}

#[test]
fn saved_configuration_needs_a_full_secret() {
    let c = Config { token: "a".repeat(64), port: 1, extension_id: None };
    assert!(c.validate().is_ok());
    let short = Config { token: "a".repeat(63), port: 1, extension_id: None };
    assert_eq!(short.validate().err(), Some(ConfigError::InvalidPairing));
    let fresh = Config::fresh().unwrap();
    assert_eq!(fresh.port, 47831);
    assert_eq!(fresh.token.len(), 64);
    assert!(fresh.extension_id.is_none());
}

#[test]
fn status_counts_the_inventory() {
    let now = 100 * 86_400_000;
    let base = Account {
        follows_me: Some(true),
        i_follow: Some(false),
        verified: Some(false),
        ..Default::default()
    };
    let mut recent = base.clone();
    recent.last_activity_ms = Some(now - 29 * 86_400_000);
    recent.checked_at_ms = Some(now);
    let mut verified = base.clone();
    verified.verified = Some(true);
    let stranger = Account { follows_me: None, ..base.clone() };
    let accounts = vec![base, recent, verified, stranger];
    let t = tally(&accounts, &Policy::default(), now - 1, 2, now);
    assert_eq!(t.collected, 3);
    assert_eq!(t.checked, 1);
    assert_eq!(t.kept, 2);
    assert_eq!(t.unchecked, 1);
    assert_eq!(tally(&accounts, &Policy::default(), 0, 9, now).collected, 9);
}
