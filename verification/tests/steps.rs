use forgive_me::app::{Batch, Mode, PageError, PageProgress, Scan, ActionStatus, ReceiptError};
use forgive_me::apply::{
    apply_account, apply_deferred, apply_error, gate_tick, ErrorOutcome, apply_page, apply_receipt, apply_session, apply_settings, queue_tick, take_pending, PageRefusal,
    QueueTick, Saved,
};
use forgive_me::controller::{apply_request, Controller, KeyOutcome};
use forgive_me::guards::Refusal;
use forgive_me::keys::{key_request, Key, KeyContext, Request};
use forgive_me::manager::{snapshot_page, ControlError, ManagerError, Query};
use forgive_me::model::{Account, Policy};
use forgive_me::native::{check_pair_request, PairingError, RequestValue};
use forgive_me::pacing::Pacing;
use forgive_me::protocol::{Command, Work, WorkResult};
use forgive_me::results::{CheckFollowUp, ReceiptFollowUp, ResultError};
use forgive_me::ritual::water_clock;
use forgive_me::schedule::Gate;
use std::collections::VecDeque;

const DAY: i64 = 86_400_000;
const NOW: i64 = 20_000_000_000;

fn cleared(id: &str, handle: &str) -> Account {
    Account {
        id: id.into(),
        handle: handle.into(),
        follows_me: Some(true),
        i_follow: Some(false),
        verified: Some(false),
        protected: Some(false),
        posts: Some(4),
        checked_at_ms: Some(NOW),
        last_activity_ms: Some(NOW - 200 * DAY),
        coverage_since_ms: Some(NOW - 365 * DAY),
        ..Default::default()
    }
}

fn scan() -> Scan {
    Scan {
        adapter_revision: 2,
        phase: "following".into(),
        cursor: None,
        cursors: vec![],
        started_at: 5,
        following_complete: false,
        collected_total: 0,
    }
}

fn controller(accounts: Vec<Account>) -> Controller {
    Controller {
        mode: Mode::Browse,
        query: String::new(),
        focus: 0,
        only_matching: false,
        show_queue_list: false,
        filter_row: 0,
        modal_scroll: 0,
        paused: true,
        batch: None,
        auto_policy: None,
        managed_run: false,
        detach_requested: false,
        selected: vec![],
        confirmation: vec![],
        pending: None,
        accounts,
        scan: scan(),
        pacing: Pacing::default(),
        policy: Policy::default(),
        owner: "owner".into(),
        capabilities: vec!["remove_follower".into(), "adapter:2".into()],
        uncertain: 0,
        simple_running: false,
    }
}

fn ctx(c: &Controller) -> KeyContext {
    KeyContext {
        mode: c.mode,
        simple_cleanup: false,
        demo: false,
        connected: true,
        identified: true,
        has_setup: false,
        auto: c.auto_policy.is_some(),
        has_batch: c.batch.is_some(),
    }
}

fn press(c: &mut Controller, key: Key) -> Result<KeyOutcome, Refusal> {
    let req = key_request(&ctx(c), key);
    let rows: Vec<usize> = (0..c.accounts.len()).collect();
    apply_request(c, req, &rows, "batch-1".into(), NOW)
}

fn summary(a: &Account) -> (String, String, bool, Option<bool>, Option<bool>, Option<i64>) {
    (a.id.clone(), a.handle.clone(), a.kept, a.follows_me, a.i_follow, a.checked_at_ms)
}

fn batch(ids: &[&str]) -> Batch {
    Batch { id: "b".into(), ids: ids.iter().map(|s| s.to_string()).collect::<VecDeque<_>>(), policy: Policy::default() }
}

#[test]
fn confirmation_enter_returns_to_the_list_without_a_queue() {
    let mut c = controller(vec![cleared("2", "two")]);
    c.selected = vec!["2".into()];
    assert_eq!(press(&mut c, Key::Char('d')), Ok(KeyOutcome::Done));
    assert_eq!(c.mode, Mode::Confirm);
    assert_eq!(c.confirmation, vec!["2".to_string()]);
    for key in [Key::Enter, Key::Esc, Key::Char('n')] {
        c.mode = Mode::Confirm;
        assert_eq!(key_request(&ctx(&c), key), Request::BackToList);
        assert_eq!(press(&mut c, key), Ok(KeyOutcome::Done));
        assert_eq!(c.mode, Mode::Browse);
        assert!(c.batch.is_none());
        assert!(c.paused);
    }
}

#[test]
fn pause_and_cancel_work_in_every_modal() {
    let mut c = controller(vec![cleared("2", "two")]);
    c.query = "tw".into();
    for mode in [Mode::Search, Mode::Details, Mode::Filters, Mode::Help, Mode::Confirm] {
        c.mode = mode;
        c.paused = false;
        assert_eq!(press(&mut c, Key::Char('p')), Ok(KeyOutcome::Perform));
        assert!(c.paused);
        assert_eq!(c.mode, mode);
        assert_eq!(c.query, "tw");
    }
    c.batch = Some(batch(&["2"]));
    c.auto_policy = Some(Policy::default());
    c.managed_run = true;
    c.paused = false;
    c.mode = Mode::Details;
    assert_eq!(press(&mut c, Key::Char('c')), Ok(KeyOutcome::Perform));
    assert!(c.paused);
    assert!(c.batch.is_none());
    assert!(c.auto_policy.is_none());
    assert!(!c.managed_run);
    assert_eq!(c.mode, Mode::Details);
}

#[test]
fn approval_queues_every_confirmed_target_and_resumes() {
    let mut c = controller(vec![cleared("2", "two"), cleared("3", "three")]);
    c.policy.batch_limit = 1;
    c.selected = vec!["2".into(), "3".into()];
    assert_eq!(press(&mut c, Key::Char('d')), Ok(KeyOutcome::Done));
    assert_eq!(c.mode, Mode::Confirm);
    assert_eq!(c.confirmation.len(), 2);
    assert_eq!(press(&mut c, Key::Char('y')), Ok(KeyOutcome::Perform));
    let b = c.batch.as_ref().unwrap();
    assert_eq!(b.ids.len(), 2);
    assert_eq!(b.id, "batch-1");
    assert_eq!(c.mode, Mode::Browse);
    assert!(!c.paused);
    assert!(c.show_queue_list);
}

#[test]
fn approval_waits_for_work_in_flight() {
    let mut c = controller(vec![cleared("2", "two")]);
    c.mode = Mode::Confirm;
    c.confirmation = vec!["2".into()];
    c.uncertain = 1;
    assert_eq!(press(&mut c, Key::Char('y')), Err(Refusal::WaitForInFlight));
    assert_eq!(c.mode, Mode::Confirm);
    assert!(c.batch.is_none());
}

#[test]
fn reset_pacing_restores_only_the_processing_settings() {
    let mut c = controller(vec![]);
    c.policy.delay_seconds = 200;
    c.policy.batch_limit = 7;
    c.policy.inactive_days = 30;
    assert_eq!(apply_request(&mut c, Request::ResetPacing, &vec![], String::new(), NOW), Ok(KeyOutcome::Done));
    assert_eq!(c.policy.delay_seconds, 60);
    assert_eq!(c.policy.batch_limit, 50);
    assert_eq!(c.policy.inactive_days, 30);
}

fn page_work(list: &str, cursor: Option<&str>) -> Work {
    Work {
        command_id: "p1".into(),
        owner_id: "owner".into(),
        command: Command::ScanPage { list: list.into(), cursor: cursor.map(|s| s.to_string()) },
    }
}

#[test]
fn repeated_cursor_pauses_without_merging() {
    let mut c = controller(vec![cleared("2", "two")]);
    c.paused = false;
    c.scan.cursors = vec!["c1".into()];
    c.scan.cursor = Some("c1".into());
    let before: Vec<_> = c.accounts.iter().map(summary).collect();
    let page = vec![cleared("9", "nine")];
    let r = apply_page(&mut c, &page_work("following", Some("c1")), "following", page, Some("c1".into()), false);
    assert_eq!(r, Err(PageRefusal::Stopped(PageError::RepeatedCursor)));
    assert!(c.paused);
    assert_eq!(c.accounts.iter().map(summary).collect::<Vec<_>>(), before);
    assert_eq!(c.scan.cursors, vec!["c1".to_string()]);
    assert_eq!(c.scan.cursor, Some("c1".to_string()));
}

#[test]
fn follower_page_merges_keeps_choices_and_finishes_collection() {
    let mut kept = cleared("2", "two");
    kept.kept = true;
    kept.i_follow = None;
    let other = cleared("5", "five");
    let mut c = controller(vec![kept, other.clone()]);
    c.paused = false;
    c.scan.phase = "followers".into();
    c.scan.following_complete = true;
    let mut seen = cleared("2", "two-renamed");
    seen.kept = false;
    seen.follows_me = None;
    let fresh = Account { id: "7".into(), handle: "seven".into(), ..Default::default() };
    let r = apply_page(&mut c, &page_work("followers", None), "followers", vec![seen, fresh], None, true);
    assert_eq!(r, Ok(PageProgress::FollowersComplete));
    assert_eq!(c.accounts.len(), 3);
    assert!(c.accounts[0].kept);
    assert_eq!(c.accounts[0].handle, "two-renamed");
    assert_eq!(c.accounts[0].follows_me, Some(true));
    assert_eq!(c.accounts[0].i_follow, Some(false));
    assert_eq!(summary(&c.accounts[1]), summary(&other));
    assert_eq!(c.accounts[2].id, "7");
    assert_eq!(c.accounts[2].follows_me, Some(true));
    assert_eq!(c.accounts[2].i_follow, Some(false));
    assert_eq!(c.scan.collected_total, 3);
    assert_eq!(c.scan.phase, "review");
    assert!(c.paused);
}

#[test]
fn page_without_identity_stops_at_that_account() {
    let mut c = controller(vec![]);
    let page = vec![cleared("1", "one"), Account::default(), cleared("3", "three")];
    let r = apply_page(&mut c, &page_work("following", None), "following", page, Some("n".into()), false);
    assert_eq!(r, Err(PageRefusal::Refused(ResultError::MissingIdentity)));
    assert_eq!(c.accounts.len(), 1);
    assert_eq!(c.accounts[0].i_follow, Some(true));
    assert!(c.scan.cursor.is_none());
}

#[test]
fn page_for_another_owner_changes_nothing() {
    let mut c = controller(vec![]);
    let mut w = page_work("following", None);
    w.owner_id = "someone".into();
    let r = apply_page(&mut c, &w, "following", vec![cleared("1", "one")], Some("n".into()), false);
    assert_eq!(r, Err(PageRefusal::Refused(ResultError::PageMismatch)));
    assert!(c.accounts.is_empty());
}

#[test]
fn page_without_progress_pauses() {
    let mut c = controller(vec![]);
    c.paused = false;
    let r = apply_page(&mut c, &page_work("following", None), "following", vec![], None, false);
    assert_eq!(r, Err(PageRefusal::Stopped(PageError::NoProgress)));
    assert!(c.paused);
}

fn removal_work(target: &str, owner: &str) -> Work {
    Work {
        command_id: "d".repeat(64),
        owner_id: owner.into(),
        command: Command::RemoveFollower {
            target_id: target.into(),
            batch_id: "b".into(),
            policy: Policy::default(),
            deadline_ms: NOW + 120_000,
            approved_account: None,
        },
    }
}

#[test]
fn deferral_keeps_the_target_queued_and_extends_the_cooldown() {
    let mut c = controller(vec![cleared("2", "two")]);
    c.paused = false;
    c.batch = Some(batch(&["2"]));
    c.pending = Some(removal_work("2", "owner"));
    let until = NOW + 300_000;
    let w = take_pending(&mut c, &"d".repeat(64)).unwrap();
    assert!(c.pending.is_none());
    assert_eq!(apply_deferred(&mut c, &w, "2", "rate_limited", until, NOW), Ok(()));
    assert!(!c.paused);
    assert!(c.pending.is_none());
    assert_eq!(c.batch.as_ref().unwrap().ids.front().unwrap(), "2");
    assert!(c.pacing.until_ms >= until);
    assert_eq!(c.pacing.reason, "rate_limited");
    assert_eq!(apply_deferred(&mut c, &w, "3", "rate_limited", until, NOW), Err(ResultError::DeferredMismatch));
}

#[test]
fn unanswered_result_leaves_the_pending_command() {
    let mut c = controller(vec![]);
    c.pending = Some(removal_work("2", "owner"));
    assert!(take_pending(&mut c, "other").is_none());
    assert!(c.pending.is_some());
}

fn action(target: &str, status: &str, message: &str) -> WorkResult {
    WorkResult::Action { target_id: target.into(), status: status.into(), message: message.into() }
}

#[test]
fn confirmed_removal_leaves_selection_and_queue() {
    let mut c = controller(vec![cleared("2", "two"), cleared("3", "three")]);
    c.selected = vec!["2".into(), "3".into()];
    c.batch = Some(batch(&["2", "3"]));
    c.pacing.failures = 3;
    let s = apply_receipt(&mut c, &removal_work("2", "owner"), &action("2", "verified_removed", "done")).unwrap();
    assert_eq!(s.status, ActionStatus::VerifiedRemoved);
    assert_eq!(s.attempt_id, "d".repeat(64));
    assert_eq!(s.tag, Some("two".to_string()));
    assert_eq!(s.follow_up, ReceiptFollowUp::Continue);
    assert_eq!(c.accounts[0].follows_me, Some(false));
    assert_eq!(c.accounts[1].follows_me, Some(true));
    assert_eq!(c.selected, vec!["3".to_string()]);
    assert_eq!(c.batch.as_ref().unwrap().ids, VecDeque::from(["3".to_string()]));
    assert_eq!(c.pacing.failures, 0);
}

#[test]
fn uncertain_removal_pauses_and_leaves_the_queue() {
    let mut c = controller(vec![cleared("2", "two")]);
    c.paused = false;
    c.detach_requested = true;
    c.selected = vec!["2".into()];
    c.batch = Some(batch(&["2"]));
    let s = apply_receipt(&mut c, &removal_work("2", "owner"), &action("2", "uncertain", "timeout")).unwrap();
    assert_eq!(s.follow_up, ReceiptFollowUp::Pause);
    assert!(c.paused);
    assert!(!c.detach_requested);
    assert_eq!(c.selected, vec!["2".to_string()]);
    assert!(c.batch.as_ref().unwrap().ids.is_empty());
    assert_eq!(c.accounts[0].follows_me, Some(true));
}

#[test]
fn receipt_for_another_owner_changes_nothing() {
    let mut c = controller(vec![cleared("2", "two")]);
    c.batch = Some(batch(&["2"]));
    let s = apply_receipt(&mut c, &removal_work("2", "someone"), &action("2", "verified_removed", "done")).unwrap();
    assert_eq!(s.follow_up, ReceiptFollowUp::Continue);
    assert!(s.tag.is_none());
    assert_eq!(c.accounts[0].follows_me, Some(true));
    assert_eq!(c.batch.as_ref().unwrap().ids.len(), 1);
}

#[test]
fn invalid_receipts_are_refused() {
    let mut c = controller(vec![cleared("2", "two")]);
    let w = removal_work("2", "owner");
    assert!(matches!(apply_receipt(&mut c, &w, &action("3", "verified_removed", "")), Err(ReceiptError::TargetMismatch)));
    assert!(matches!(apply_receipt(&mut c, &w, &action("2", "gone", "")), Err(ReceiptError::UnknownStatus)));
    assert!(matches!(apply_receipt(&mut c, &w, &WorkResult::Opened), Err(ReceiptError::InvalidReceipt)));
    assert_eq!(c.accounts[0].follows_me, Some(true));
}

#[test]
fn settled_queue_is_dropped_and_nothing_is_sent() {
    let mut c = controller(vec![cleared("2", "two")]);
    c.paused = false;
    c.batch = Some(batch(&["2"]));
    let r = queue_tick(&mut c, &vec!["2".to_string()], NOW);
    assert!(matches!(r, QueueTick::Finished));
    assert!(c.batch.is_none());
    assert!(c.pending.is_none());
    assert!(c.paused);
}

#[test]
fn queue_sends_the_front_removal() {
    let mut c = controller(vec![cleared("2", "two")]);
    c.paused = false;
    c.batch = Some(batch(&["2"]));
    match queue_tick(&mut c, &vec![], NOW) {
        QueueTick::Send(Command::RemoveFollower { target_id, batch_id, deadline_ms, .. }) => {
            assert_eq!(target_id, "2");
            assert_eq!(batch_id, "b");
            assert_eq!(deadline_ms, NOW + 120_000);
        },
        _ => panic!("expected a removal"),
    }
    assert!(!c.paused);
    assert_eq!(c.batch.as_ref().unwrap().ids.len(), 1);
}

#[test]
fn stale_approval_pauses_the_queue() {
    let mut stale = cleared("2", "two");
    stale.checked_at_ms = Some(NOW - 3 * DAY);
    let mut c = controller(vec![stale]);
    c.paused = false;
    c.batch = Some(batch(&["2"]));
    assert!(matches!(queue_tick(&mut c, &vec![], NOW), QueueTick::Stalled));
    assert!(c.paused);
    assert_eq!(c.batch.as_ref().unwrap().ids.len(), 1);
}

#[test]
fn manager_settings_change_only_the_pacing() {
    let mut c = controller(vec![]);
    let mut p = Policy::default();
    p.delay_seconds = 120;
    p.batch_limit = 20;
    p.inactive_days = 5;
    assert_eq!(apply_settings(&mut c, &p), Ok(()));
    assert_eq!(c.policy.delay_seconds, 120);
    assert_eq!(c.policy.batch_limit, 20);
    assert_eq!(c.policy.inactive_days, 90);
    p.delay_seconds = 2;
    assert_eq!(apply_settings(&mut c, &p), Err(ControlError::SettingsOutOfRange));
    assert_eq!(c.policy.delay_seconds, 120);
}

fn query(search: &str, filter: &str, page: usize) -> Query {
    Query { search: search.into(), filter: filter.into(), page }
}

#[test]
fn snapshot_pages_sorted_rows_and_counts() {
    let accounts: Vec<Account> = (10..140)
        .map(|i| {
            let mut a = cleared(&format!("{i}"), &format!("user{i}"));
            a.name = format!("Name {i}");
            a
        })
        .collect();
    let p = Policy::default();
    let s = snapshot_page(&accounts, &vec![], &vec![], &p, NOW, &query("", "", 1)).unwrap();
    assert_eq!(s.total, 130);
    assert_eq!(s.page, 1);
    assert_eq!(s.rows.len(), 50);
    assert_eq!(accounts[s.rows[0]].handle, "user20");
    let last = snapshot_page(&accounts, &vec![], &vec![], &p, NOW, &query("", "all", 99)).unwrap();
    assert_eq!(last.page, 2);
    assert_eq!(last.rows.len(), 30);
    let one = snapshot_page(&accounts, &vec![], &vec![], &p, NOW, &query("NAME 139", "", 0)).unwrap();
    assert_eq!(one.total, 1);
    assert_eq!(accounts[one.rows[0]].id, "139");
    let c = s.counts;
    assert_eq!(c.all, 130);
    assert_eq!(c.all, c.keep + c.remove + c.review + c.removed);
    assert_eq!(c.remove, 130);
    assert!(matches!(
        snapshot_page(&accounts, &vec![], &vec![], &p, NOW, &query("", "later", 0)),
        Err(ManagerError::UnknownView)
    ));
    assert!(matches!(
        snapshot_page(&accounts, &vec![], &vec![], &p, NOW, &query("", "", 1_000_001)),
        Err(ManagerError::SearchTooLarge)
    ));
}

#[test]
fn snapshot_views_split_the_rows() {
    let mut kept = cleared("1", "kept");
    kept.kept = true;
    let gone = Account { id: "2".into(), handle: "gone".into(), follows_me: Some(false), ..Default::default() };
    let accounts = vec![kept, gone, cleared("3", "third")];
    let receipts = vec![("2".to_string(), "verified_removed".to_string())];
    let queued = vec!["3".to_string()];
    let p = Policy::default();
    let keep = snapshot_page(&accounts, &receipts, &queued, &p, NOW, &query("", "keep", 0)).unwrap();
    assert_eq!(keep.rows, vec![0]);
    let removed = snapshot_page(&accounts, &receipts, &queued, &p, NOW, &query("", "removed", 0)).unwrap();
    assert_eq!(removed.rows, vec![1]);
    let queue = snapshot_page(&accounts, &receipts, &queued, &p, NOW, &query("", "queue", 0)).unwrap();
    assert_eq!(queue.rows, vec![2]);
    let c = queue.counts;
    assert_eq!((c.all, c.keep, c.remove, c.review, c.removed, c.queue), (3, 1, 1, 0, 1, 1));
}

fn member(key: &str, value: RequestValue) -> (String, RequestValue) {
    (key.into(), value)
}

#[test]
fn only_the_pairing_request_is_answered() {
    let ok = Some(vec![member("type", RequestValue::Text("pair".into())), member("v", RequestValue::Unsigned(1))]);
    assert_eq!(check_pair_request(&ok), Ok(()));
    let swapped = Some(vec![member("v", RequestValue::Unsigned(1)), member("type", RequestValue::Text("pair".into()))]);
    assert_eq!(check_pair_request(&swapped), Ok(()));
    let extra = Some(vec![
        member("type", RequestValue::Text("pair".into())),
        member("v", RequestValue::Unsigned(1)),
        member("x", RequestValue::Other),
    ]);
    assert_eq!(check_pair_request(&extra), Err(PairingError::UnsupportedRequest));
    let version = Some(vec![member("type", RequestValue::Text("pair".into())), member("v", RequestValue::Unsigned(2))]);
    assert_eq!(check_pair_request(&version), Err(PairingError::UnsupportedRequest));
    let float = Some(vec![member("type", RequestValue::Text("pair".into())), member("v", RequestValue::Other)]);
    assert_eq!(check_pair_request(&float), Err(PairingError::UnsupportedRequest));
    assert_eq!(check_pair_request(&None), Err(PairingError::UnsupportedRequest));
}

#[test]
fn paused_water_stays_still() {
    assert_eq!(water_clock(false, 3, 700), (0, 700));
    assert_eq!(water_clock(false, 90, 700), (0, 700));
    assert_eq!(water_clock(true, 3, 700), (3, 150));
    assert_eq!(water_clock(true, u64::MAX, 0), (u64::MAX, u64::MAX));
}

fn saved(accounts: Vec<Account>, auto_policy: Option<Policy>) -> Saved {
    let mut pacing = Pacing::default();
    pacing.until_ms = NOW + 5_000;
    Saved { accounts, scan: scan(), batch: Some(batch(&["2"])), pacing, auto_policy }
}

#[test]
fn identity_loads_the_saved_state_and_pauses() {
    let mut c = controller(vec![]);
    c.mode = Mode::Confirm;
    c.confirmation = vec!["9".into()];
    c.selected = vec!["9".into()];
    c.paused = false;
    c.focus = 4;
    let w = Work { command_id: "s".into(), owner_id: String::new(), command: Command::GetSession };
    let mut auto = Policy::default();
    auto.inactive_days = 30;
    let caps = vec!["adapter:2".to_string()];
    let r = apply_session(&mut c, &w, "42".into(), "me", caps.clone(), false, saved(vec![cleared("2", "two")], Some(auto)));
    assert_eq!(r, Ok(()));
    assert_eq!(c.mode, Mode::Browse);
    assert!(c.confirmation.is_empty() && c.selected.is_empty());
    assert!(c.paused);
    assert_eq!(c.focus, 0);
    assert_eq!(c.owner, "42");
    assert_eq!(c.capabilities, caps);
    assert_eq!(c.accounts.len(), 1);
    assert_eq!(c.batch.as_ref().unwrap().ids.len(), 1);
    assert_eq!(c.pacing.until_ms, NOW + 5_000);
    assert_eq!(c.policy.inactive_days, 30);
}

#[test]
fn identity_answers_are_checked_first() {
    let mut c = controller(vec![]);
    let w = Work { command_id: "s".into(), owner_id: String::new(), command: Command::GetSession };
    let old = vec!["adapter:1".to_string()];
    let r = apply_session(&mut c, &w, "42".into(), "me", old, false, saved(vec![], None));
    assert_eq!(r, Err(ResultError::ExtensionOutdated));
    assert_eq!(c.owner, "owner");
    let r = apply_session(&mut c, &w, String::new(), "me", vec![], true, saved(vec![], None));
    assert_eq!(r, Err(ResultError::NoSignedInAccount));
    let other = page_work("following", None);
    let r = apply_session(&mut c, &other, "42".into(), "me", vec![], true, saved(vec![], None));
    assert_eq!(r, Err(ResultError::UnexpectedSession));
    assert!(c.accounts.is_empty());
}

fn inspect_work(target: &str) -> Work {
    Work {
        command_id: "i1".into(),
        owner_id: "owner".into(),
        command: Command::InspectAccount { target_id: target.into(), policy: Policy::default() },
    }
}

#[test]
fn checked_account_keeps_its_keep_choice() {
    let mut saved = cleared("2", "two");
    saved.kept = true;
    let mut c = controller(vec![saved, cleared("3", "three")]);
    let mut fresh = cleared("2", "two");
    fresh.posts = Some(9);
    assert_eq!(apply_account(&mut c, &inspect_work("2"), fresh, "q".into(), NOW), Ok(None));
    assert!(c.accounts[0].kept);
    assert_eq!(c.accounts[0].posts, Some(9));
    assert_eq!(c.accounts.len(), 2);
    assert!(c.batch.is_none());
    let new = cleared("4", "four");
    assert_eq!(apply_account(&mut c, &inspect_work("4"), new, "q".into(), NOW), Ok(None));
    assert_eq!(c.accounts.len(), 3);
    assert!(!c.accounts[2].kept);
    let r = apply_account(&mut c, &inspect_work("5"), cleared("4", "four"), "q".into(), NOW);
    assert_eq!(r, Err(ResultError::AccountMismatch));
}

#[test]
fn full_auto_queues_a_cleared_account() {
    let mut c = controller(vec![]);
    c.auto_policy = Some(Policy::default());
    c.simple_running = true;
    let r = apply_account(&mut c, &inspect_work("2"), cleared("2", "two"), "q".into(), NOW);
    assert_eq!(r, Ok(Some(CheckFollowUp::Proceed)));
    let b = c.batch.as_ref().unwrap();
    assert_eq!(b.id, "q");
    assert_eq!(b.ids, VecDeque::from(["2".to_string()]));
    let mut kept = cleared("3", "three");
    kept.kept = true;
    c.accounts.push(kept);
    let r = apply_account(&mut c, &inspect_work("3"), cleared("3", "three"), "q2".into(), NOW);
    assert_eq!(r, Ok(Some(CheckFollowUp::Forget)));
    assert_eq!(c.batch.as_ref().unwrap().id, "q");
}

#[test]
fn tick_gate_pauses_for_an_outdated_adapter() {
    let mut c = controller(vec![]);
    assert_eq!(gate_tick(&mut c, true, false, NOW, false), Gate::Idle);
    c.paused = false;
    c.capabilities = vec!["remove_follower".into()];
    assert_eq!(gate_tick(&mut c, true, false, NOW, false), Gate::AdapterOutdated);
    assert!(c.paused);
    c.paused = false;
    c.capabilities = vec!["adapter:2".into()];
    c.scan.adapter_revision = 1;
    assert_eq!(gate_tick(&mut c, true, false, NOW, false), Gate::OldScan);
    assert!(c.paused);
    c.paused = false;
    c.scan.adapter_revision = 2;
    assert_eq!(gate_tick(&mut c, true, false, NOW, false), Gate::Go);
    assert!(!c.paused);
}

#[test]
fn failed_removal_is_settled_as_uncertain_and_pauses() {
    let mut c = controller(vec![cleared("2", "two")]);
    c.paused = false;
    c.batch = Some(batch(&["2", "3"]));
    match apply_error(&mut c, &removal_work("2", "owner"), "worker_error", "tab closed", None, NOW) {
        ErrorOutcome::Handled { settled: Some(s), retries_read } => {
            assert!(!retries_read);
            assert_eq!(s.status, ActionStatus::Uncertain);
            assert_eq!(s.attempt_id, "d".repeat(64));
        },
        _ => panic!("expected a settled removal"),
    }
    assert!(c.paused);
    assert_eq!(c.batch.as_ref().unwrap().ids, VecDeque::from(["3".to_string()]));
}

#[test]
fn rate_limited_read_waits_without_pausing() {
    let mut c = controller(vec![]);
    c.paused = false;
    let until = NOW + 90_000;
    match apply_error(&mut c, &page_work("followers", None), "rate_limited", "slow down", Some(until), NOW) {
        ErrorOutcome::Handled { settled: None, retries_read } => assert!(retries_read),
        _ => panic!("expected a handled read"),
    }
    assert!(!c.paused);
    assert!(c.pacing.until_ms >= until);
    assert_eq!(c.pacing.failures, 1);
    match apply_error(&mut c, &page_work("followers", None), "login_required", "sign in", None, NOW) {
        ErrorOutcome::Handled { retries_read, .. } => assert!(!retries_read),
        _ => panic!("expected a handled read"),
    }
    assert!(c.paused);
    assert_eq!(c.pacing.failures, 1);
}

#[test]
fn cleanup_sets_a_failed_check_aside() {
    let mut c = controller(vec![]);
    c.simple_running = true;
    c.paused = false;
    assert!(matches!(
        apply_error(&mut c, &inspect_work("2"), "http_404", "gone", None, NOW),
        ErrorOutcome::RetryLater
    ));
    assert!(!c.paused);
}
