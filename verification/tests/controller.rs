use forgive_me::app::{
    cycle_row, find_account, find_retry, move_focus, next_inspect_target, scroll_by, trim_queue,
    Nav,
    check_receipt, error_retries_read, focused, identity_can_repeat, is_fatal_failure,
    merge_page_account, ordered_followers, retry_ready, visible, ActionStatus, PageError,
    PageProgress, ReceiptError, Retry, Scan,
};
use forgive_me::model::{Account, Policy};
use forgive_me::protocol::{Command, Work, WorkResult};

fn account(id: &str, handle: &str, follows: Option<bool>) -> Account {
    Account { id: id.into(), handle: handle.into(), follows_me: follows, ..Default::default() }
}

#[test]
fn followers_are_listed_by_lowercased_handle_then_id() {
    let accounts = vec![
        account("3", "bob", Some(true)),
        account("1", "Alice", Some(true)),
        account("2", "carol", None),
        account("0", "alice", Some(true)),
        account("4", "Zed", Some(false)),
    ];
    assert_eq!(ordered_followers(&accounts), vec![3, 1, 0]);
    assert!(ordered_followers(&vec![]).is_empty());
}

#[test]
fn ordering_handles_many_accounts() {
    let accounts: Vec<Account> = (0..500)
        .map(|i| account(&format!("{i}"), &format!("user{}", (i * 7919) % 500), Some(true)))
        .collect();
    let order = ordered_followers(&accounts);
    assert_eq!(order.len(), 500);
    for w in order.windows(2) {
        let a = accounts[w[0]].handle.to_lowercase();
        let b = accounts[w[1]].handle.to_lowercase();
        assert!(a <= b);
    }
}

#[test]
fn focused_target_matches_clamped_highlight() {
    let mut a = account("2", "example", Some(true));
    a.i_follow = Some(false);
    let accounts = vec![a];
    let order = ordered_followers(&accounts);
    let rows = visible(&accounts, &order, "", false, &Policy::default(), 0);
    let row = focused(rows.len(), 100).unwrap();
    assert_eq!(accounts[rows[row]].id, "2");
    assert_eq!(focused(0, 3), None);
    assert_eq!(focused(5, 3), Some(3));
}

#[test]
fn search_matches_handle_or_name_case_insensitively() {
    let mut a = account("1", "RustFan", Some(true));
    a.name = "Ferris Crab".into();
    let b = account("2", "other", Some(true));
    let accounts = vec![a, b];
    let order = ordered_followers(&accounts);
    let p = Policy::default();
    assert_eq!(visible(&accounts, &order, "rust", false, &p, 0), vec![0]);
    assert_eq!(visible(&accounts, &order, "CRAB", false, &p, 0), vec![0]);
    assert_eq!(visible(&accounts, &order, "", false, &p, 0), vec![1, 0]);
    assert!(visible(&accounts, &order, "zzz", false, &p, 0).is_empty());
    assert!(visible(&accounts, &order, "", true, &p, 0).is_empty());
}

#[test]
fn keep_choice_survives_a_page_refresh() {
    let mut old = account("123", "a", Some(true));
    old.kept = true;
    old.i_follow = None;
    let incoming = account("123", "a2", None);
    let merged = merge_page_account(Some(&old), incoming, false, true);
    assert!(merged.kept);
    assert_eq!(merged.follows_me, Some(true));
    assert_eq!(merged.i_follow, Some(false));
    assert_eq!(merged.handle, "a2");
    let following = merge_page_account(None, account("9", "b", None), true, false);
    assert_eq!(following.i_follow, Some(true));
    assert_eq!(following.follows_me, None);
    let fresh = merge_page_account(None, account("8", "c", None), false, false);
    assert_eq!(fresh.i_follow, None);
}

fn scan() -> Scan {
    Scan {
        adapter_revision: 2,
        phase: "following".into(),
        cursor: None,
        cursors: vec![],
        started_at: 5,
        following_complete: false,
        collected_total: 0,
    }
}

#[test]
fn pages_advance_collection_and_stop_on_repeats() {
    let mut s = scan();
    assert_eq!(s.finish_page(true, Some("c1".into()), false, false, 0), Ok(PageProgress::MorePages));
    assert_eq!(s.cursor.as_deref(), Some("c1"));
    let c1 = String::from("c1");
    assert!(s.cursor_repeats(None, Some(&c1)));
    let c2 = String::from("c2");
    assert!(s.cursor_repeats(Some(&c2), Some(&c2)));
    assert!(!s.cursor_repeats(Some(&c1), Some(&c2)));
    assert_eq!(s.finish_page(true, None, true, false, 0), Ok(PageProgress::FollowingComplete));
    assert!(s.following_complete);
    assert_eq!(s.phase, "followers");
    assert!(s.cursors.is_empty());
    assert_eq!(s.finish_page(false, None, false, false, 0), Err(PageError::NoProgress));
    assert_eq!(s.finish_page(false, None, true, true, 7), Ok(PageProgress::FollowersComplete));
    assert_eq!(s.phase, "inspect");
    assert_eq!(s.collected_total, 7);
    let mut review = scan();
    assert_eq!(review.finish_page(false, None, true, false, 3), Ok(PageProgress::FollowersComplete));
    assert_eq!(review.phase, "review");
}

#[test]
fn unreadable_account_is_retried_without_blocking_next_follower() {
    let mut r = Retry::default();
    r.record_failure(1_000);
    assert_eq!((r.attempts, r.due_ms), (1, 61_000));
    assert!(!retry_ready(Some(r), 60_999));
    assert!(retry_ready(Some(r), 61_000));
    assert!(retry_ready(None, 0));
    r.record_failure(0);
    assert_eq!(r.due_ms, 900_000);
    r.record_failure(0);
    assert_eq!(r.due_ms, 21_600_000);
    r.record_failure(0);
    assert_eq!(r.due_ms, 86_400_000);
    assert!(!retry_ready(Some(r), i64::MAX));
}

fn removal(command_id: &str, target: &str) -> Work {
    Work {
        command_id: command_id.into(),
        owner_id: "owner".into(),
        command: Command::RemoveFollower {
            target_id: target.into(),
            batch_id: "batch".into(),
            policy: Policy::default(),
            deadline_ms: 0,
            approved_account: None,
        },
    }
}
fn receipt(target: &str, status: &str) -> WorkResult {
    WorkResult::Action { target_id: target.into(), status: status.into(), message: String::new() }
}

#[test]
fn receipts_settle_only_their_own_attempt() {
    let w = removal("cmd", "123");
    assert_eq!(
        check_receipt(&w, &receipt("123", "verified_removed")),
        Ok(("cmd".to_string(), ActionStatus::VerifiedRemoved))
    );
    assert_eq!(check_receipt(&w, &receipt("124", "failed")), Err(ReceiptError::TargetMismatch));
    assert_eq!(check_receipt(&w, &receipt("123", "done")), Err(ReceiptError::UnknownStatus));
    assert_eq!(check_receipt(&w, &WorkResult::Opened), Err(ReceiptError::InvalidReceipt));
    let reconcile = Work {
        command_id: "new".into(),
        owner_id: "owner".into(),
        command: Command::Reconcile { target_id: "123".into(), original_command_id: "cmd".into() },
    };
    assert_eq!(
        check_receipt(&reconcile, &receipt("123", "already_absent")),
        Ok(("cmd".to_string(), ActionStatus::AlreadyAbsent))
    );
    let session = Work { command_id: "s".into(), owner_id: "o".into(), command: Command::GetSession };
    assert_eq!(check_receipt(&session, &receipt("123", "failed")), Err(ReceiptError::NotAnAction));
}

#[test]
fn login_failure_keeps_target_for_resume_without_another_activity_check() {
    assert!(is_fatal_failure(ActionStatus::Failed, "login_required: Sign in"));
    assert!(is_fatal_failure(ActionStatus::Failed, "signing_unavailable: Signing failed"));
    assert!(!is_fatal_failure(ActionStatus::Uncertain, "login_required: Sign in"));
    assert!(!is_fatal_failure(ActionStatus::Failed, "Still present"));
}

#[test]
fn transient_reconciliation_error_waits_and_authentication_error_pauses() {
    let reconcile = Command::Reconcile { target_id: "1".into(), original_command_id: "c".into() };
    assert!(error_retries_read(&reconcile, "rate_limited", true));
    assert!(!error_retries_read(&reconcile, "rate_limited", false));
    assert!(!error_retries_read(&reconcile, "login_required", true));
    let scan = Command::ScanPage { list: "followers".into(), cursor: None };
    assert!(error_retries_read(&scan, "network_unavailable", false));
    assert!(!error_retries_read(&Command::GetSession, "rate_limited", true));
}

#[test]
fn page_load_during_identity_check_does_not_cancel_and_retries_only_once() {
    let err = |code: &str, retry: Option<i64>| WorkResult::Error {
        code: code.into(),
        message: String::new(),
        retry_at_ms: retry,
    };
    assert!(identity_can_repeat(&err("signing_unavailable", None)));
    assert!(!identity_can_repeat(&err("rate_limited", None)));
    assert!(!identity_can_repeat(&err("access_denied", None)));
    assert!(!identity_can_repeat(&err("network_unavailable", Some(5))));
    assert!(!identity_can_repeat(&WorkResult::Opened));
}

fn checkable(id: &str, handle: &str) -> Account {
    Account {
        id: id.into(),
        handle: handle.into(),
        follows_me: Some(true),
        i_follow: Some(false),
        verified: Some(false),
        ..Default::default()
    }
}

#[test]
fn collection_stops_before_activity_and_i_explicitly_starts_checks() {
    let mut verified = checkable("1", "a");
    verified.verified = Some(true);
    let mut fresh = checkable("2", "b");
    fresh.checked_at_ms = Some(100);
    let stale = checkable("3", "c");
    let pending = checkable("4", "d");
    let accounts = vec![verified, fresh, stale, pending];
    let order = ordered_followers(&accounts);
    let p = Policy::default();
    let unresolved = vec![String::from("3")];
    assert_eq!(next_inspect_target(&accounts, &order, &p, &unresolved, &vec![], 50, 0), Some(3));
    let retry = Retry { attempts: 1, due_ms: 10 };
    let retries = vec![(String::from("2"), retry)];
    assert_eq!(find_retry(&retries, "2"), Some(retry));
    assert_eq!(next_inspect_target(&accounts, &order, &p, &vec![], &retries, 50, 5), Some(2));
    assert_eq!(next_inspect_target(&accounts, &order, &p, &vec![], &retries, 50, 10), Some(1));
    assert_eq!(next_inspect_target(&accounts, &order, &p, &vec![], &vec![], 0, 0), None);
}

#[test]
fn keep_is_durable_and_prunes_queue_but_cannot_claim_to_stop_dispatched_removal() {
    let mut kept = checkable("1", "a");
    kept.kept = true;
    let mut gone = checkable("2", "b");
    gone.follows_me = Some(false);
    let live = checkable("3", "c");
    let accounts = vec![kept, gone, live];
    let mut ids: std::collections::VecDeque<String> =
        ["1", "2", "9", "3", "1"].iter().map(|s| s.to_string()).collect();
    trim_queue(&mut ids, &vec![String::from("9")], &accounts);
    assert_eq!(ids, ["3", "1"]);
    assert_eq!(find_account(&accounts, "3"), Some(2));
    assert_eq!(find_account(&accounts, "x"), None);
    let mut none: std::collections::VecDeque<String> = ["1".to_string()].into_iter().collect();
    trim_queue(&mut none, &vec![], &accounts);
    assert!(none.is_empty());
}

#[test]
fn help_scroll_clamps_to_content_and_can_immediately_move_back() {
    assert_eq!(move_focus(0, 10, Nav::Down), 1);
    assert_eq!(move_focus(9, 10, Nav::Down), 9);
    assert_eq!(move_focus(100, 10, Nav::Down), 9);
    assert_eq!(move_focus(0, 0, Nav::Down), 0);
    assert_eq!(move_focus(2, 100, Nav::PageDown), 17);
    assert_eq!(move_focus(90, 100, Nav::PageDown), 99);
    assert_eq!(move_focus(0, 100, Nav::Up), 0);
    assert_eq!(move_focus(20, 100, Nav::PageUp), 5);
    assert_eq!(move_focus(10, 100, Nav::PageUp), 0);
    assert_eq!(cycle_row(6, 7, true), 0);
    assert_eq!(cycle_row(0, 7, false), 6);
    assert_eq!(cycle_row(3, 5, true), 4);
    assert_eq!(cycle_row(6, 5, true), 2);
    assert_eq!(scroll_by(0, -1), 0);
    assert_eq!(scroll_by(65530, 10), 65535);
    assert_eq!(scroll_by(5, -10), 0);
    assert_eq!(scroll_by(5, 10), 15);
}
