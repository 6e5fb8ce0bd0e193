use forgive_me::app::{
    active_target, count_eligible, follow_notice, follow_position,
    approve_queue, ordered_followers, review_queue, select_basic, select_candidates, ActionStatus,
    Batch, Mode, Retry, Scan,
};
use forgive_me::demo::{demo_accounts, demo_response};
use forgive_me::guards::{
    check_approval, check_background, check_cleanup_start, check_filters, check_full_auto,
    check_full_auto_entry, check_identity_request, check_inspection, check_manual_scan,
    check_removal, check_resume, check_review, check_scan_start, check_submission, starts_fresh,
    Refusal,
};
use forgive_me::model::{Account, Policy};
use forgive_me::pacing::Pacing;
use forgive_me::protocol::{Command, Work, WorkResult};
use forgive_me::results::{
    check_account_result, check_deferred_result, check_follow_up, check_page_result,
    check_recovery_owner, check_session_result, drop_target, error_notice, extend_cooldown,
    inherit_keep, receipt_follow_up, result_pause_seconds, settle_account, CheckFollowUp,
    ReceiptFollowUp, ResultError,
};
use forgive_me::schedule::{
    any_retry_pending, batch_step, has_capability, phase_step, reconcile_command, reconcile_next,
    removal_command, tick_gate, unresolved_targets, BatchStep, Gate, PhaseStep,
};
use std::collections::VecDeque;

const DAY: i64 = 86_400_000;
const NOW: i64 = 20_000_000_000;

fn caps(items: &[&str]) -> Vec<String> {
    items.iter().map(|s| s.to_string()).collect()
}

fn cleared(id: &str, handle: &str) -> Account {
    Account {
        id: id.into(),
        handle: handle.into(),
        follows_me: Some(true),
        i_follow: Some(false),
        verified: Some(false),
        protected: Some(false),
        posts: Some(4),
        checked_at_ms: Some(NOW),
        last_activity_ms: Some(NOW - 200 * DAY),
        coverage_since_ms: Some(NOW - 365 * DAY),
        ..Default::default()
    }
}

fn work(command: Command) -> Work {
    Work { command_id: "c1".into(), owner_id: "owner".into(), command }
}

fn removal(target: &str) -> Command {
    Command::RemoveFollower {
        target_id: target.into(),
        batch_id: "b".into(),
        policy: Policy::default(),
        deadline_ms: 0,
        approved_account: None,
    }
}

fn scan(phase: &str) -> Scan {
    Scan {
        adapter_revision: 2,
        phase: phase.into(),
        cursor: None,
        cursors: vec![],
        started_at: NOW - 1000,
        following_complete: false,
        collected_total: 0,
    }
}

#[test]
fn capabilities_are_matched_exactly() {
    let c = caps(&["adapter:2", "remove_follower"]);
    assert!(has_capability(&c, "adapter:2"));
    assert!(!has_capability(&c, "adapter"));
    assert!(!has_capability(&vec![], "adapter:2"));
}

#[test]
fn tick_waits_until_every_gate_is_open() {
    let c = caps(&["adapter:2"]);
    let s = scan("following");
    assert_eq!(tick_gate(Mode::Browse, false, false, true, false, NOW, 0, 0, false, false, &c, &s), Gate::Go);
    assert_eq!(tick_gate(Mode::Setup, false, false, true, false, NOW, 0, 0, false, false, &c, &s), Gate::Idle);
    assert_eq!(tick_gate(Mode::Browse, true, false, true, false, NOW, 0, 0, false, false, &c, &s), Gate::Idle);
    assert_eq!(tick_gate(Mode::Browse, false, true, true, false, NOW, 0, 0, false, false, &c, &s), Gate::Idle);
    assert_eq!(tick_gate(Mode::Browse, false, false, false, false, NOW, 0, 0, false, false, &c, &s), Gate::Idle);
    assert_eq!(tick_gate(Mode::Browse, false, false, true, true, NOW, 0, 0, false, false, &c, &s), Gate::Idle);
    assert_eq!(tick_gate(Mode::Browse, false, false, true, false, NOW, NOW + 1, 0, false, false, &c, &s), Gate::Idle);
    assert_eq!(tick_gate(Mode::Browse, false, false, true, false, NOW, 0, 2, false, false, &c, &s), Gate::Idle);
    assert_eq!(tick_gate(Mode::Browse, false, false, true, false, NOW, 0, 2, true, false, &c, &s), Gate::Go);
    assert_eq!(tick_gate(Mode::Browse, false, false, true, false, NOW, 0, 0, false, false, &vec![], &s), Gate::AdapterOutdated);
    assert_eq!(tick_gate(Mode::Browse, false, false, true, false, NOW, 0, 0, false, true, &vec![], &s), Gate::Go);
    let mut old = scan("inspect");
    old.adapter_revision = 1;
    assert_eq!(tick_gate(Mode::Browse, false, false, true, false, NOW, 0, 0, false, false, &c, &old), Gate::OldScan);
    old.phase.clear();
    assert_eq!(tick_gate(Mode::Browse, false, false, true, false, NOW, 0, 0, false, false, &c, &old), Gate::Go);
}

#[test]
fn only_ready_unsettled_removals_are_reconciled() {
    let unresolved = vec![
        work(Command::GetSession),
        Work { command_id: "r1".into(), owner_id: "owner".into(), command: removal("7") },
        Work { command_id: "r2".into(), owner_id: "owner".into(), command: removal("8") },
    ];
    let waiting = vec![("7".to_string(), Retry { attempts: 1, due_ms: NOW + 1 })];
    assert_eq!(reconcile_next(&unresolved, &waiting, NOW), Some(2));
    assert_eq!(reconcile_next(&unresolved, &vec![], NOW), Some(1));
    let spent = vec![
        ("7".to_string(), Retry { attempts: 4, due_ms: 0 }),
        ("8".to_string(), Retry { attempts: 5, due_ms: 0 }),
    ];
    assert_eq!(reconcile_next(&unresolved, &spent, NOW), None);
    match reconcile_command(&unresolved[1]) {
        Some(Command::Reconcile { target_id, original_command_id }) => {
            assert_eq!(target_id, "7");
            assert_eq!(original_command_id, "r1");
        }
        _ => panic!("a removal is reconciled, never resent"),
    }
    assert!(reconcile_command(&unresolved[0]).is_none());
    assert_eq!(unresolved_targets(&unresolved), vec!["7".to_string(), "8".to_string()]);
}

#[test]
fn queue_sends_only_cleared_front_targets() {
    let mut kept = cleared("1", "kept");
    kept.kept = true;
    let mut stale = cleared("3", "stale");
    stale.checked_at_ms = Some(NOW - 2 * DAY);
    let accounts = vec![kept, cleared("2", "ok"), stale];
    let mut batch = Batch {
        id: "b".into(),
        ids: VecDeque::from(vec!["1".to_string(), "2".to_string(), "3".to_string()]),
        policy: Policy::default(),
    };
    assert_eq!(batch_step(&mut batch, &vec![], &accounts, NOW), BatchStep::Remove(1));
    assert_eq!(batch.ids, VecDeque::from(vec!["2".to_string(), "3".to_string()]));
    assert_eq!(batch_step(&mut batch, &vec!["2".to_string()], &accounts, NOW), BatchStep::StaleApproval);
    assert_eq!(batch.ids, VecDeque::from(vec!["3".to_string()]));
    batch.ids.clear();
    assert_eq!(batch_step(&mut batch, &vec![], &accounts, NOW), BatchStep::Finished);
    let command = removal_command(&batch, &accounts[1], NOW);
    match command {
        Command::RemoveFollower { target_id, batch_id, deadline_ms, approved_account, .. } => {
            assert_eq!(target_id, "2");
            assert_eq!(batch_id, "b");
            assert_eq!(deadline_ms, NOW + 120_000);
            assert_eq!(approved_account.unwrap().handle, "ok");
        }
        _ => panic!("expected a removal"),
    }
}

#[test]
fn phases_choose_the_next_browser_step() {
    let mut s = scan("followers");
    s.cursor = Some("next".into());
    match phase_step(&s, &vec![], &vec![], &Policy::default(), &vec![], &vec![], false, NOW) {
        PhaseStep::ScanPage { list, cursor } => {
            assert_eq!(list, "followers");
            assert_eq!(cursor.as_deref(), Some("next"));
        }
        _ => panic!("collection continues"),
    }
    assert!(matches!(
        phase_step(&scan("review"), &vec![], &vec![], &Policy::default(), &vec![], &vec![], false, NOW),
        PhaseStep::Pause
    ));
    let mut unchecked = cleared("5", "later");
    unchecked.checked_at_ms = None;
    let accounts = vec![cleared("4", "done"), unchecked];
    let order = ordered_followers(&accounts);
    let p = Policy::default();
    let s = scan("inspect");
    assert!(matches!(phase_step(&s, &accounts, &order, &p, &vec![], &vec![], false, NOW), PhaseStep::Inspect(1)));
    assert!(matches!(
        phase_step(&s, &accounts, &order, &p, &vec!["5".to_string()], &vec![], false, NOW),
        PhaseStep::Finish
    ));
    let retry = vec![("4".to_string(), Retry { attempts: 1, due_ms: NOW })];
    assert!(matches!(phase_step(&s, &accounts, &order, &p, &vec!["5".to_string()], &retry, true, NOW), PhaseStep::QueueAlone(0)));
    assert!(matches!(phase_step(&s, &accounts, &order, &p, &vec!["5".to_string()], &retry, false, NOW), PhaseStep::Inspect(0)));
    let waiting = vec![("4".to_string(), Retry { attempts: 1, due_ms: NOW + 5 })];
    assert!(matches!(
        phase_step(&s, &accounts, &order, &p, &vec!["5".to_string()], &waiting, true, NOW),
        PhaseStep::WaitForRetries
    ));
    assert!(any_retry_pending(&waiting));
    assert!(!any_retry_pending(&vec![("4".to_string(), Retry { attempts: 4, due_ms: 0 })]));
}

#[test]
fn requests_are_refused_with_their_reason() {
    let all = caps(&["adapter:2", "remove_follower", "saved_activity:1", "durable_queue:1", "simple_cleanup:1"]);
    assert_eq!(check_resume(1, false), Err(Refusal::ReconcileFirst));
    assert_eq!(check_resume(1, true), Ok(()));
    assert_eq!(check_approval(false, 1), Err(Refusal::WaitForInFlight));
    assert_eq!(check_approval(false, 0), Ok(()));
    assert_eq!(check_full_auto(false, true, 0, &all), Err(Refusal::FinishBeforeFullAuto));
    assert_eq!(check_full_auto(false, false, 0, &caps(&["remove_follower"])), Err(Refusal::FullAutoNeedsExtension));
    assert_eq!(check_full_auto(false, false, 0, &all), Ok(()));
    assert_eq!(check_full_auto_entry(false, false, true), Err(Refusal::CancelBeforeFullAuto));
    assert_eq!(check_filters(true, true), Err(Refusal::FullAutoRulesFixed));
    assert_eq!(check_filters(false, true), Err(Refusal::CancelBatchBeforeFilters));
    assert_eq!(check_manual_scan(true), Err(Refusal::FullAutoCollects));
    assert_eq!(check_inspection(false, false, false, "followers"), Err(Refusal::CollectFirst));
    assert_eq!(check_inspection(false, false, false, "done"), Ok(()));
    assert_eq!(check_background(true, true, false, false, &all), Err(Refusal::NoBackgroundInDemo));
    assert_eq!(check_background(false, false, false, false, &all), Err(Refusal::NothingToBackground));
    assert_eq!(check_background(false, true, false, false, &vec![]), Err(Refusal::BackgroundNeedsExtension));
    assert_eq!(check_background(false, true, false, false, &all), Ok(()));
    assert_eq!(check_review(true, false, false, &all, 1), Err(Refusal::FullAutoManagesQueue));
    assert_eq!(check_review(false, false, true, &all, 1), Err(Refusal::WaitOrCancel));
    assert_eq!(check_review(false, false, false, &vec![], 1), Err(Refusal::RemovalAdapterUnavailable));
    assert_eq!(check_review(false, false, false, &all, 0), Err(Refusal::NothingCleared));
    assert_eq!(check_review(false, false, false, &all, 2), Ok(()));
    assert_eq!(Refusal::NothingCleared.message(), "No selected accounts have cleared activity rules. Press i to check activity, then a to select candidates.");
}

#[test]
fn submissions_and_scans_need_a_ready_extension() {
    let c = caps(&["adapter:2"]);
    assert_eq!(check_submission(true, true, false, false, &c, &Command::GetSession), Err(Refusal::WaitForTask));
    assert_eq!(check_submission(false, false, false, false, &c, &Command::GetSession), Err(Refusal::NotConnected));
    assert_eq!(check_submission(false, true, true, false, &c, &removal("1")), Err(Refusal::CleanupNeedsExtension));
    assert_eq!(check_submission(false, true, true, false, &c, &Command::GetSession), Ok(()));
    assert_eq!(check_submission(false, true, true, true, &c, &removal("1")), Ok(()));
    assert_eq!(check_removal(false, &c), Err(Refusal::RemovalNeedsExtension));
    assert_eq!(check_removal(true, &c), Ok(()));
    assert_eq!(check_scan_start(false, &vec![], true, true, false, 0, false, false), Err(Refusal::ScanNeedsAdapter));
    assert_eq!(check_scan_start(false, &c, false, true, false, 0, false, false), Err(Refusal::IdentifyFirst));
    assert_eq!(check_scan_start(false, &c, true, true, false, 1, false, false), Err(Refusal::FinishQueueFirst));
    assert_eq!(check_scan_start(false, &c, true, true, false, 1, true, true), Err(Refusal::WaitBeforeScan));
    assert_eq!(check_scan_start(false, &c, true, true, false, 0, false, false), Ok(()));
    assert!(starts_fresh("", 2));
    assert!(starts_fresh("done", 2));
    assert!(starts_fresh("followers", 1));
    assert!(!starts_fresh("followers", 2));
    assert_eq!(check_cleanup_start(false, false, true, true, &c), Err(Refusal::FinishCurrentJob));
    assert_eq!(check_cleanup_start(false, false, false, false, &c), Err(Refusal::CleanupNeedsReload));
    assert_eq!(check_identity_request(Some(NOW + 1), NOW), Err(Refusal::WaitForCooldown));
    assert_eq!(check_identity_request(Some(NOW), NOW), Ok(()));
}

#[test]
fn results_must_answer_the_command_sent() {
    let c = caps(&["adapter:2"]);
    let session = work(Command::GetSession);
    assert_eq!(check_session_result(&session, "1", "me", &c, false), Ok(()));
    assert_eq!(check_session_result(&session, "1", "me", &vec![], false), Err(ResultError::ExtensionOutdated));
    assert_eq!(check_session_result(&session, "", "me", &c, false), Err(ResultError::NoSignedInAccount));
    assert_eq!(check_session_result(&work(removal("1")), "1", "me", &c, false), Err(ResultError::UnexpectedSession));
    let page = work(Command::ScanPage { list: "followers".into(), cursor: None });
    assert_eq!(check_page_result(&page, "followers", &vec![cleared("1", "a")], "owner"), Ok(()));
    assert_eq!(check_page_result(&page, "following", &vec![], "owner"), Err(ResultError::PageMismatch));
    assert_eq!(check_page_result(&page, "followers", &vec![], "other"), Err(ResultError::PageMismatch));
    assert_eq!(check_page_result(&page, "followers", &vec![Account::default()], "owner"), Err(ResultError::MissingIdentity));
    assert_eq!(check_page_result(&session, "followers", &vec![], "owner"), Err(ResultError::UnexpectedPage));
    let inspect = work(Command::InspectAccount { target_id: "9".into(), policy: Policy::default() });
    assert_eq!(check_account_result(&inspect, "9", "owner"), Ok(()));
    assert_eq!(check_account_result(&inspect, "8", "owner"), Err(ResultError::AccountMismatch));
    assert_eq!(check_account_result(&session, "9", "owner"), Err(ResultError::UnexpectedAccount));
    assert_eq!(check_deferred_result(&work(removal("9")), "9", "owner"), Ok(()));
    assert_eq!(check_deferred_result(&work(removal("9")), "9", "x"), Err(ResultError::DeferredMismatch));
    assert_eq!(check_deferred_result(&inspect, "9", "owner"), Err(ResultError::DeferredNonRemoval));
    assert_eq!(check_recovery_owner("a", "b"), Err(ResultError::RecoveryOwnerMismatch));
    assert_eq!(check_recovery_owner("a", "a"), Ok(()));
    assert_eq!(ResultError::RecoveryOwnerMismatch.message(), "Recovery owner mismatch");
}

#[test]
fn checked_accounts_keep_their_keep_choice() {
    let mut saved = cleared("1", "a");
    saved.kept = true;
    let mut fresh = cleared("1", "renamed");
    inherit_keep(&mut fresh, &vec![saved]);
    assert!(fresh.kept);
    assert_eq!(fresh.handle, "renamed");
    let mut stranger = cleared("2", "b");
    stranger.kept = true;
    inherit_keep(&mut stranger, &vec![]);
    assert!(!stranger.kept);
}

#[test]
fn cleanup_retries_incomplete_evidence() {
    let p = Policy::default();
    assert_eq!(check_follow_up(&cleared("1", "a"), &p, NOW), CheckFollowUp::Proceed);
    let mut hidden = cleared("1", "a");
    hidden.protected = None;
    assert_eq!(check_follow_up(&hidden, &p, NOW), CheckFollowUp::Retry);
    let mut unknown = cleared("1", "a");
    unknown.i_follow = None;
    assert_eq!(check_follow_up(&unknown, &p, NOW), CheckFollowUp::Retry);
    let mut unverified = cleared("1", "a");
    unverified.verified = None;
    assert_eq!(check_follow_up(&unverified, &p, NOW), CheckFollowUp::Retry);
    let mut friend = cleared("1", "a");
    friend.i_follow = Some(true);
    assert_eq!(check_follow_up(&friend, &p, NOW), CheckFollowUp::Forget);
}

#[test]
fn results_set_the_next_pause() {
    assert_eq!(result_pause_seconds(&removal("1"), Some(90), 60), 90);
    assert_eq!(result_pause_seconds(&removal("1"), None, 60), 60);
    assert_eq!(result_pause_seconds(&Command::GetSession, Some(90), 60), 2);
    let mut p = Pacing::default();
    extend_cooldown(&mut p, NOW, 2);
    assert_eq!(p.until_ms, NOW + 2000);
    p.until_ms = NOW + 60_000;
    extend_cooldown(&mut p, NOW, 2);
    assert_eq!(p.until_ms, NOW + 60_000);
}

#[test]
fn failure_notices_name_the_task() {
    let page = Command::ScanPage { list: "followers".into(), cursor: None };
    assert_eq!(
        error_notice(true, &page, "rate_limited", "Slow down..."),
        "Waiting; retries automatically during followers collection: rate_limited: Slow down"
    );
    let inspect = Command::InspectAccount { target_id: "1".into(), policy: Policy::default() };
    assert_eq!(error_notice(false, &inspect, "http_404", "Gone"), "Paused during activity check: http_404: Gone");
    assert_eq!(error_notice(false, &Command::GetSession, "x", "..."), "Paused during browser task: x: ");
}

#[test]
fn receipts_settle_the_inventory_and_queue() {
    let mut accounts = vec![cleared("1", "a"), cleared("2", "b")];
    accounts[1].kept = true;
    assert_eq!(settle_account(&mut accounts, "1", ActionStatus::VerifiedRemoved), Some("a".to_string()));
    assert_eq!(accounts[0].follows_me, Some(false));
    assert_eq!(settle_account(&mut accounts, "1", ActionStatus::VerifiedRemoved), None);
    assert_eq!(settle_account(&mut accounts, "2", ActionStatus::Failed), None);
    assert_eq!(accounts[1].follows_me, Some(true));
    assert_eq!(settle_account(&mut accounts, "2", ActionStatus::AlreadyAbsent), None);
    assert_eq!(accounts[1].follows_me, Some(false));
    assert!(accounts[1].kept);
    let mut ids = VecDeque::from(vec!["1".to_string(), "2".to_string(), "1".to_string()]);
    drop_target(&mut ids, "1");
    assert_eq!(ids, VecDeque::from(vec!["2".to_string()]));
    assert_eq!(receipt_follow_up(true, ActionStatus::Failed, "login_required: sign in"), ReceiptFollowUp::StopCleanup);
    assert_eq!(receipt_follow_up(true, ActionStatus::Uncertain, "timeout"), ReceiptFollowUp::Retry);
    assert_eq!(receipt_follow_up(true, ActionStatus::VerifiedRemoved, ""), ReceiptFollowUp::Forget);
    assert_eq!(receipt_follow_up(false, ActionStatus::Failed, "login_required:"), ReceiptFollowUp::Pause);
    assert_eq!(receipt_follow_up(false, ActionStatus::Skipped, ""), ReceiptFollowUp::Continue);
}

#[test]
fn selections_follow_the_rules() {
    let mut friend = cleared("2", "b");
    friend.i_follow = Some(true);
    let mut unchecked = cleared("3", "c");
    unchecked.checked_at_ms = None;
    let accounts = vec![cleared("1", "a"), friend, unchecked];
    let order = ordered_followers(&accounts);
    let p = Policy::default();
    assert_eq!(select_candidates(&accounts, &order, &p, NOW), vec![0]);
    assert_eq!(select_basic(&accounts, &order, &p), vec![0, 2]);
    let selected = vec!["1".to_string(), "3".to_string()];
    assert_eq!(review_queue(&accounts, &order, &selected, &p, NOW), vec![0]);
    let approved = approve_queue(&vec!["3".to_string(), "1".to_string(), "9".to_string()], &accounts, &p, NOW);
    assert_eq!(approved, VecDeque::from(vec!["1".to_string()]));
}

#[test]
fn demo_browser_answers_every_command() {
    let now = NOW;
    let mut accounts = demo_accounts(now);
    assert_eq!(accounts.len(), 6);
    assert_eq!(accounts[0].handle, "quiet_orbit");
    assert_eq!(accounts[0].id, "1000");
    assert_eq!(accounts[5].id, "1005");
    assert_eq!(accounts[2].i_follow, Some(true));
    assert_eq!(accounts[0].last_activity_ms, Some(now - 240 * DAY));
    assert_eq!(accounts[1].last_activity_ms, None);
    assert_eq!(accounts[5].activity_note, "Lookup failed; kept unknown.");
    assert_eq!(accounts[1].activity_note, "Simulated posting evidence");
    match demo_response(&mut accounts, &Command::GetSession, now) {
        WorkResult::Session { owner_id, handle, capabilities } => {
            assert_eq!(owner_id, "demo");
            assert_eq!(handle, "demo_account");
            assert_eq!(capabilities, vec!["remove_follower".to_string()]);
        }
        _ => panic!("session expected"),
    }
    let following = Command::ScanPage { list: "following".into(), cursor: None };
    match demo_response(&mut accounts, &following, now) {
        WorkResult::Page { list, accounts: page, next_cursor, complete } => {
            assert_eq!(list, "following");
            assert_eq!(page.len(), 1);
            assert_eq!(page[0].handle, "actual_friend");
            assert!(next_cursor.is_none());
            assert!(complete);
        }
        _ => panic!("page expected"),
    }
    let remove = removal("1003");
    match demo_response(&mut accounts, &remove, now) {
        WorkResult::Action { target_id, status, message } => {
            assert_eq!(target_id, "1003");
            assert_eq!(status, "verified_removed");
            assert_eq!(message, "Simulated removal \u{2014} no X request was sent");
        }
        _ => panic!("receipt expected"),
    }
    assert_eq!(accounts[3].follows_me, Some(false));
    let followers = Command::ScanPage { list: "followers".into(), cursor: None };
    match demo_response(&mut accounts, &followers, now) {
        WorkResult::Page { accounts: page, .. } => assert_eq!(page.len(), 5),
        _ => panic!("page expected"),
    }
    let inspect = Command::InspectAccount { target_id: "1004".into(), policy: Policy::default() };
    match demo_response(&mut accounts, &inspect, now + 7) {
        WorkResult::Account { account } => {
            assert_eq!(account.handle, "active_reader");
            assert_eq!(account.checked_at_ms, Some(now + 7));
        }
        _ => panic!("account expected"),
    }
    let reconcile = Command::Reconcile { target_id: "1003".into(), original_command_id: "x".into() };
    assert!(matches!(demo_response(&mut accounts, &reconcile, now), WorkResult::Action { status, .. } if status == "already_absent"));
    let open = Command::OpenProfile { target_id: "1000".into() };
    assert!(matches!(demo_response(&mut accounts, &open, now), WorkResult::Opened));
}

#[test]
fn the_highlight_follows_the_work() {
    let inspect = Command::InspectAccount { target_id: "7".into(), policy: Policy::default() };
    assert_eq!(active_target(&inspect).map(|(t, l)| (t.as_str(), l)), Some(("7", "Checking activity")));
    assert_eq!(active_target(&removal("8")).map(|(t, l)| (t.as_str(), l)), Some(("8", "Removing")));
    assert!(active_target(&Command::GetSession).is_none());
    let accounts = vec![cleared("1", "b"), cleared("2", "a")];
    let order = ordered_followers(&accounts);
    assert_eq!(follow_position(&accounts, &order, "1"), Some(1));
    assert_eq!(follow_position(&accounts, &order, "9"), None);
    assert_eq!(follow_notice("Removing", "a"), "Removing: @a. The highlight follows each account from the top.");
    let mut friend = cleared("3", "c");
    friend.i_follow = Some(true);
    assert_eq!(count_eligible(&vec![cleared("1", "b"), friend, cleared("2", "a")], &Policy::default(), NOW), 2);
}
