use forgive_me::app::{Batch, Mode};
use forgive_me::background::Control;
use forgive_me::config::Config;
use forgive_me::guards::Refusal;
use forgive_me::keys::{guide_step_after, Key, SetupContext};
use forgive_me::manager::{receipt_for, snapshot_counts, Counts};
use forgive_me::model::{Account, Policy};
use forgive_me::pacing::Pacing;
use forgive_me::protocol::WorkResult;
use forgive_me::results::action_open;
use forgive_me::session::{approve, cancel_work, connect, disconnect, toggle_pause, SessionState, WorkState};
use forgive_me::setup::{
    account_line, chrome_line, clamp_scroll, guide_text, keys_hint, preferences_from_bytes, ExtensionEntry,
    Installation, PreferencesFile, Setup, Step,
};
use forgive_me::worker::{
    identity_outcome, settle_automatic, worker_event_step, IdentityOutcome, WorkerAction, WorkerEvent,
    WorkerState,
};
use std::collections::VecDeque;

const NOW: i64 = 20_000_000_000;
const DAY: i64 = 86_400_000;

fn cleared(id: &str) -> Account {
    Account {
        id: id.into(),
        handle: id.into(),
        follows_me: Some(true),
        i_follow: Some(false),
        verified: Some(false),
        protected: Some(false),
        posts: Some(4),
        checked_at_ms: Some(NOW),
        last_activity_ms: Some(NOW - 200 * DAY),
        coverage_since_ms: Some(NOW - 365 * DAY),
        ..Default::default()
    }
}

fn worker() -> WorkerState {
    WorkerState {
        automatic: true,
        identity_retry: false,
        connected: true,
        identified: true,
        same_owner: true,
        paused: true,
        has_work: true,
        uncertain: 0,
        simple_running: true,
        durable: true,
        pending: false,
        cooling: false,
    }
}

#[test]
fn the_secret_stays_hidden_unless_revealed() {
    let hidden = guide_text(true, false, 47831, "s3cr3t", false, false, "", false, None, Step::Pair, false);
    assert_eq!(hidden.title, " Manual connection ");
    assert!(hidden.body.contains("Port: 47831"));
    assert!(hidden.body.contains("[hidden]"));
    assert!(!hidden.body.contains("s3cr3t"));
    let shown = guide_text(true, true, 47831, "s3cr3t", false, false, "", false, None, Step::Pair, false);
    assert!(shown.body.contains("Secret: s3cr3t"));
    let ready = guide_text(false, true, 47831, "s3cr3t", true, true, "me", false, None, Step::Ready, false);
    assert_eq!(ready.title, " Confirm your account ");
    assert!(ready.body.starts_with("Connected as @me"));
    assert!(!ready.body.contains("s3cr3t"));
    let failed = guide_text(false, false, 1, "t", true, false, "", false, Some("rate_limited: wait"), Step::Connect, false);
    assert!(failed.body.starts_with("rate_limited: wait"));
    assert_eq!(failed.primary, "Enter  Retry account check");
    let waiting = guide_text(false, false, 1, "t", true, false, "", true, Some("x"), Step::Connect, false);
    assert_eq!(waiting.title, " Identifying your account ");
    let legacy = guide_text(false, false, 1, "t", false, false, "", false, None, Step::Install, true);
    assert!(legacy.body.starts_with("The old extension cannot connect."));
    assert_eq!(guide_text(false, false, 1, "t", false, false, "", false, None, Step::Pair, false).title, " Connect your extension ");
}

#[test]
fn guide_status_lines_and_scrolling() {
    assert_eq!(chrome_line(true, "", &Installation::Unknown), "\u{2713} Chrome connected / extension version unknown");
    assert_eq!(chrome_line(true, "0.2.0", &Installation::Unknown), "\u{2713} Chrome connected / extension 0.2.0");
    assert_eq!(chrome_line(false, "", &Installation::Found("Default".into())), "\u{25cb} Extension listed in Default; not connected");
    assert_eq!(chrome_line(false, "", &Installation::LegacyOnly), "\u{25cb} Only the old extension was found");
    assert_eq!(account_line(true, true, "me"), "\u{2713} @me");
    assert_eq!(account_line(true, false, "me"), "\u{25cb} X account not identified");
    assert_eq!(account_line(false, true, "me"), "\u{b7} X account waits for Chrome");
    assert_eq!(keys_hint("q quit", 3), "q quit   \u{2191}\u{2193} scroll");
    assert_eq!(keys_hint("q quit", 0), "q quit");
    assert_eq!(clamp_scroll(9, 4), 4);
    assert_eq!(clamp_scroll(2, 4), 2);
}

#[test]
fn refreshing_the_installation_resets_the_screen() {
    let config = Config { token: "a".repeat(64), port: 47831, extension_id: None };
    let mut s = Setup::new(&config, "/tmp/ext".into());
    s.revealed = true;
    s.manual = true;
    s.scroll = 3;
    s.recheck_requested = true;
    s.account_error = Some("x".into());
    s.retry_at_ms = Some(5);
    s.refresh_installation(Installation::Unknown);
    assert!(s.revealed && s.manual && s.scroll == 3 && s.recheck_requested);
    s.refresh_installation(Installation::Found("Default".into()));
    assert!(s.step == Step::Pair);
    assert!(!s.revealed && !s.manual && s.scroll == 0 && !s.recheck_requested);
    assert_eq!(s.account_error.as_deref(), Some("x"));
    assert_eq!(s.retry_at_ms, Some(5));
}

#[test]
fn navigation_cannot_skip_pairing_and_display_uses_live_connection() {
    let c = SetupContext { step: Step::Install, manual: false, connected: false, identified: false, account_error: false, pending: false };
    for _ in 0..4 {
        assert_eq!(guide_step_after(&c, Key::Right), None);
    }
    assert_eq!(guide_step_after(&c, Key::Esc), Some(Step::Pair));
    let live = SetupContext { connected: true, ..c };
    assert_eq!(guide_step_after(&live, Key::Left), Some(Step::Connect));
    assert_eq!(guide_step_after(&SetupContext { identified: true, ..live }, Key::Esc), Some(Step::Ready));
    assert_eq!(guide_step_after(&c, Key::Char('i')), Some(Step::Install));
    assert_eq!(guide_step_after(&c, Key::Char('m')), Some(Step::Pair));
    assert_eq!(guide_step_after(&c, Key::Char('o')), Some(Step::Pair));
    assert_eq!(guide_step_after(&c, Key::Enter), None);
}

#[test]
fn the_worker_resumes_only_a_confirmed_automatic_run() {
    let s = worker();
    let (_, a) = worker_event_step(&s, &WorkerEvent::Connected);
    assert_eq!(a, WorkerAction::Nothing);
    let ok = WorkerEvent::IdentityAnswered { outcome: IdentityOutcome::Succeeded, ok: true };
    assert_eq!(worker_event_step(&s, &ok).1, WorkerAction::Resume);
    let manual = WorkerState { automatic: false, ..s };
    assert_eq!(worker_event_step(&manual, &ok).1, WorkerAction::Nothing);
    let fragile = WorkerState { durable: false, ..s };
    let (next, a) = worker_event_step(&fragile, &ok);
    assert_eq!(a, WorkerAction::ReloadExtension);
    assert!(!next.automatic);
    let other = WorkerState { same_owner: false, ..s };
    let (next, a) = worker_event_step(&other, &WorkerEvent::OtherMessage);
    assert_eq!(a, WorkerAction::PauseOwnerChanged);
    assert!(!next.automatic);
    let (next, a) = worker_event_step(&s, &WorkerEvent::Control { control: Control::Pause });
    assert_eq!(a, WorkerAction::PauseUnmanaged);
    assert!(!next.automatic);
    assert!(!settle_automatic(true, true, true, false));
    assert!(settle_automatic(true, false, true, false));
    let (next, a) = worker_event_step(&manual, &WorkerEvent::Control { control: Control::Resume });
    assert_eq!(a, WorkerAction::ResumeManaged);
    assert!(next.automatic);
    let blocked = WorkerState { uncertain: 1, simple_running: false, ..manual };
    assert_eq!(worker_event_step(&blocked, &WorkerEvent::Control { control: Control::Resume }).1, WorkerAction::ReconnectFirst);
    let mut p = Policy::default();
    p.delay_seconds = 1;
    assert_eq!(worker_event_step(&s, &WorkerEvent::Control { control: Control::Settings { policy: p } }).1, WorkerAction::SettingsOutOfRange);
}

#[test]
fn page_loads_queue_one_identity_retry() {
    let s = WorkerState { identified: false, automatic: false, ..worker() };
    let (s, _) = worker_event_step(&s, &WorkerEvent::PageReady);
    assert!(s.identity_retry);
    let (s2, a) = worker_event_step(&s, &WorkerEvent::Tick);
    assert_eq!(a, WorkerAction::CheckIdentity);
    assert!(!s2.identity_retry);
    let denied = identity_outcome(&WorkResult::Error { code: "access_denied".into(), message: "m".into(), retry_at_ms: None });
    assert_eq!(denied, IdentityOutcome::Denied);
    let (s3, _) = worker_event_step(&s, &WorkerEvent::IdentityAnswered { outcome: denied, ok: true });
    assert!(!s3.identity_retry);
    let limited = identity_outcome(&WorkResult::Error { code: "rate_limited".into(), message: "m".into(), retry_at_ms: None });
    let (s4, _) = worker_event_step(&s2, &WorkerEvent::IdentityAnswered { outcome: limited, ok: true });
    assert!(s4.identity_retry);
}

#[test]
fn connection_changes_reset_the_session() {
    let mut s = SessionState {
        mode: Mode::Help,
        paused: false,
        pending: true,
        session: "old".into(),
        handle: "me".into(),
        capabilities: vec!["adapter:2".into()],
        confirmation: vec!["1".into()],
        selected: vec!["2".into()],
    };
    connect(&mut s, "new".into());
    assert_eq!(s.mode, Mode::Browse);
    assert!(s.paused && !s.pending);
    assert_eq!(s.session, "new");
    assert!(s.handle.is_empty() && s.capabilities.is_empty() && s.confirmation.is_empty() && s.selected.is_empty());
    s.selected = vec!["2".into()];
    disconnect(&mut s, true);
    assert_eq!(s.mode, Mode::Setup);
    assert!(s.session.is_empty());
    assert_eq!(s.selected, vec!["2".to_string()]);
}

#[test]
fn pausing_cancelling_and_approving_work() {
    let mut w = WorkState { paused: true, batch: None, auto_policy: Some(Policy::default()), detach_requested: true };
    assert_eq!(toggle_pause(&mut w, 1, false), Err(Refusal::ReconcileFirst));
    assert!(w.paused);
    assert_eq!(toggle_pause(&mut w, 0, false), Ok(()));
    assert!(!w.paused && w.detach_requested);
    assert_eq!(toggle_pause(&mut w, 0, false), Ok(()));
    assert!(w.paused && !w.detach_requested);
    let accounts = vec![cleared("1"), cleared("2")];
    assert!(!approve(&mut w, "b".into(), &vec!["9".to_string()], &accounts, &Policy::default(), NOW));
    assert!(w.batch.is_none() && w.paused);
    assert!(approve(&mut w, "b".into(), &vec!["2".to_string(), "9".to_string()], &accounts, &Policy::default(), NOW));
    let b: &Batch = w.batch.as_ref().unwrap();
    assert_eq!(b.ids, VecDeque::from(vec!["2".to_string()]));
    assert!(!w.paused);
    cancel_work(&mut w);
    assert!(w.paused && w.batch.is_none() && w.auto_policy.is_none());
}

#[test]
fn snapshot_counts_and_final_outcomes() {
    let mut gone = cleared("3");
    gone.follows_me = Some(false);
    let mut kept = cleared("4");
    kept.kept = true;
    let accounts = vec![cleared("1"), cleared("2"), gone, kept, Account { id: "5".into(), ..Default::default() }];
    let receipts = vec![
        ("3".to_string(), "dispatched".to_string()),
        ("3".to_string(), "verified_removed".to_string()),
        ("2".to_string(), "uncertain".to_string()),
    ];
    assert_eq!(receipt_for(&receipts, "3"), Some("verified_removed"));
    assert_eq!(receipt_for(&receipts, "9"), None);
    let counts = snapshot_counts(&accounts, &receipts, &vec!["1".to_string()], &Policy::default(), NOW);
    assert_eq!(counts, Counts { all: 4, keep: 1, remove: 1, review: 1, removed: 1, queue: 1 });
    assert!(action_open("dispatched"));
    assert!(action_open("uncertain"));
    assert!(!action_open("verified_removed"));
    assert!(!action_open("deferred"));
}

#[test]
fn preferences_are_parsed_for_registered_extensions() {
    let bytes = br#"{"extensions":{"settings":{"abc":{"path":"/x/remover-extension"},"def":{}}}}"#;
    match preferences_from_bytes(bytes) {
        PreferencesFile::Parsed(v) => {
            assert_eq!(v.len(), 2);
            let ExtensionEntry { id, path } = &v[0];
            assert_eq!((id.as_str(), path.as_str()), ("abc", "/x/remover-extension"));
            assert_eq!(v[1].path, "");
        }
        _ => panic!("parsed expected"),
    }
    assert!(matches!(preferences_from_bytes(b"{}"), PreferencesFile::Parsed(v) if v.is_empty()));
    assert!(matches!(preferences_from_bytes(b"not json"), PreferencesFile::Malformed));
}

#[test]
fn a_refused_attempt_names_the_hourly_budget() {
    let mut p = Pacing::default();
    assert!(p.reserve(1));
    assert!(!p.reserve(1));
    assert_eq!(p.reason, "Hourly attempt budget");
}
