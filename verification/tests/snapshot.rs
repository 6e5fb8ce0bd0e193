use forgive_me::app::Mode;
use forgive_me::background::{row_date, row_state, take_chars};
use forgive_me::manager::{
    active_kind, check_collect, check_keep, check_resume_control, check_settings, check_start,
    in_view, row_decision, working_target, ControlError, Decision,
};
use forgive_me::model::{Account, Policy};
use forgive_me::protocol::Command;
use forgive_me::ritual::{
    animating, display_handle, scene_state, tag_row, target_label, visible, water_layout, TargetKind, WaterLayout,
};
use forgive_me::session::{
    page_ready_step, recheck_after, view_on_connect, view_on_disconnect, PageReadyStep,
};
use forgive_me::protocol::WorkResult;
use forgive_me::setup::Step;
use forgive_me::theme::{centered, Area};
use forgive_me::ui::{filter_rows, empty_view, list_offset, progress_label, rule_summary, status_label, verdict, Verdict};

const DAY: i64 = 86_400_000;
const NOW: i64 = 20_000_000_000;

fn cleared(id: &str, handle: &str) -> Account {
    Account {
        id: id.into(),
        handle: handle.into(),
        follows_me: Some(true),
        i_follow: Some(false),
        verified: Some(false),
        protected: Some(false),
        posts: Some(4),
        checked_at_ms: Some(NOW),
        last_activity_ms: Some(NOW - 200 * DAY),
        coverage_since_ms: Some(NOW - 365 * DAY),
        ..Default::default()
    }
}

#[test]
fn snapshot_rows_explain_each_decision() {
    let p = Policy::default();
    let a = cleared("1", "a");
    assert_eq!(row_decision(&a, None, &p, NOW), Some((Decision::Remove, "Inactive")));
    assert_eq!(
        row_decision(&a, Some("uncertain"), &p, NOW),
        Some((Decision::Review, "Removal outcome needs reconciliation"))
    );
    let mut gone = cleared("2", "b");
    gone.follows_me = Some(false);
    assert_eq!(row_decision(&gone, None, &p, NOW), None);
    assert_eq!(row_decision(&gone, Some("verified_removed"), &p, NOW), Some((Decision::Removed, "Removal confirmed by X")));
    assert_eq!(
        row_decision(&gone, Some("failed"), &p, NOW),
        Some((Decision::Keep, "Already absent from your follower list"))
    );
    let mut kept = cleared("3", "c");
    kept.kept = true;
    assert_eq!(row_decision(&kept, None, &p, NOW), Some((Decision::Keep, "Kept")));
    let mut unchecked = cleared("4", "d");
    unchecked.checked_at_ms = None;
    assert_eq!(row_decision(&unchecked, None, &p, NOW), Some((Decision::Review, "Needs activity check")));
    let mut active = cleared("5", "e");
    active.last_activity_ms = Some(NOW - DAY);
    assert_eq!(row_decision(&active, None, &p, NOW), Some((Decision::Keep, "Recently active")));
    assert_eq!(Decision::Removed.name(), "removed");
}

#[test]
fn views_and_activity_labels() {
    assert!(in_view("", Decision::Keep, false));
    assert!(in_view("all", Decision::Review, false));
    assert!(in_view("remove", Decision::Remove, false));
    assert!(!in_view("remove", Decision::Keep, true));
    assert!(in_view("queue", Decision::Keep, true));
    assert!(!in_view("queue", Decision::Keep, false));
    assert_eq!(active_kind(&Command::GetSession), "Connecting X");
    assert_eq!(
        active_kind(&Command::Reconcile { target_id: "1".into(), original_command_id: "c".into() }),
        "Checking removal result"
    );
    let inspect = Command::InspectAccount { target_id: "7".into(), policy: Policy::default() };
    assert_eq!(working_target(&inspect).map(|s| s.as_str()), Some("7"));
    assert!(working_target(&Command::OpenProfile { target_id: "7".into() }).is_none());
}

#[test]
fn manager_controls_are_refused_with_their_reason() {
    assert_eq!(check_collect(true, false), Err(ControlError::CancelCleanupFirst));
    assert_eq!(check_collect(false, true), Err(ControlError::WaitBeforeCollecting));
    assert_eq!(check_collect(false, false), Ok(()));
    assert_eq!(check_start(false), Err(ControlError::ConfirmRuleFirst));
    assert_eq!(check_resume_control(false, false, "done", 0, false), Err(ControlError::NoWorkToResume));
    assert_eq!(check_resume_control(false, false, "inspect", 1, false), Err(ControlError::ResolveUncertainFirst));
    assert_eq!(check_resume_control(false, false, "inspect", 1, true), Ok(()));
    let accounts = vec![cleared("1", "a")];
    assert_eq!(check_keep(&accounts, "2", None), Err(ControlError::AccountGone));
    let flight = Command::RemoveFollower {
        target_id: "1".into(),
        batch_id: "b".into(),
        policy: Policy::default(),
        deadline_ms: 0,
        approved_account: None,
    };
    assert_eq!(check_keep(&accounts, "1", Some(&flight)), Err(ControlError::RemovalInFlight));
    assert_eq!(check_keep(&accounts, "1", Some(&Command::GetSession)), Ok(()));
    let mut p = Policy::default();
    assert_eq!(check_settings(&p), Ok(()));
    p.delay_seconds = 4;
    assert_eq!(check_settings(&p), Err(ControlError::SettingsOutOfRange));
    p.delay_seconds = 300;
    p.batch_limit = 501;
    assert_eq!(check_settings(&p), Err(ControlError::SettingsOutOfRange));
    assert_eq!(ControlError::SettingsOutOfRange.message(), "Settings out of range");
}

#[test]
fn worker_rows_show_activity_and_state() {
    let p = Policy::default();
    let mut a = cleared("1", "a");
    assert_eq!(row_date(&a, NOW), "200d ago");
    a.last_activity_ms = Some(NOW + 5);
    assert_eq!(row_date(&a, NOW), "0d ago");
    a.last_activity_ms = None;
    assert_eq!(row_date(&a, NOW), "Not checked");
    a.posts = Some(0);
    assert_eq!(row_date(&a, NOW), "No posts");
    let b = cleared("2", "b");
    assert_eq!(row_state(&b, true, true, &p, NOW, 0), "Working");
    assert_eq!(row_state(&b, false, true, &p, NOW, 0), "Retry later");
    assert_eq!(row_state(&b, false, false, &p, NOW, 0), "Queued");
    let mut v = cleared("3", "c");
    v.verified = Some(true);
    assert_eq!(row_state(&v, false, false, &p, NOW, 0), "Keep: verified");
    let mut f = cleared("4", "d");
    f.i_follow = Some(true);
    assert_eq!(row_state(&f, false, false, &p, NOW, 0), "Keep: you follow");
    let mut r = cleared("5", "e");
    r.last_activity_ms = Some(NOW);
    assert_eq!(row_state(&r, false, false, &p, NOW, NOW), "Keep / unavailable");
    assert_eq!(row_state(&r, false, false, &p, NOW, NOW + 1), "Waiting");
    assert_eq!(take_chars("abcdef", 3), "abc");
    assert_eq!(take_chars("\u{e9}t\u{e9}", 2), "\u{e9}t");
    assert_eq!(take_chars("ab", 20), "ab");
}

#[test]
fn header_and_empty_states_read_plainly() {
    assert_eq!(status_label(false, true, 0, false, false, "done"), "OFFLINE");
    assert_eq!(status_label(true, false, 0, false, false, "done"), "CONNECTING");
    assert_eq!(status_label(true, true, 1, false, false, "done"), "NEEDS REVIEW");
    assert_eq!(status_label(true, true, 0, true, false, "done"), "PAUSED");
    assert_eq!(status_label(true, true, 0, false, true, "done"), "REMOVING");
    assert_eq!(status_label(true, true, 0, false, false, "inspect"), "SCANNING");
    assert_eq!(status_label(true, true, 0, false, false, "done"), "READY");
    assert_eq!(progress_label(true, "inspect"), "4 / REMOVAL QUEUE");
    assert_eq!(progress_label(false, "followers"), "1 / COLLECT: your followers");
    assert_eq!(progress_label(false, "done"), "3 / REVIEW CANDIDATES: a selects, d starts review");
    assert_eq!(progress_label(false, ""), "1 / COLLECT FOLLOWERS: press s");
    assert_eq!(
        rule_summary(&Policy::default()),
        " REMOVE candidates: inactive 90d OR zero posts \u{b7} unverified only \u{b7} you don't follow"
    );
    let mut p = Policy::default();
    p.include_zero_posts = false;
    p.skip_verified = false;
    p.skip_following = false;
    p.inactive_days = 30;
    assert_eq!(
        rule_summary(&p),
        " REMOVE candidates: inactive 30d \u{b7} any verification \u{b7} any following"
    );
    assert_eq!(empty_view(true, false, false, ""), ("No accounts in this view", "Use / to edit search or m to show all followers."));
    assert_eq!(empty_view(false, false, false, "").0, "Your next chapter starts here");
    assert_eq!(empty_view(false, true, false, "following").0, "Learning who you follow");
    assert_eq!(empty_view(false, true, true, "following").0, "A little room for a fresh start");
    assert_eq!(list_offset(3, 10), 0);
    assert_eq!(list_offset(25, 10), 16);
}

#[test]
fn decision_column_verdicts() {
    let p = Policy::default();
    assert_eq!(verdict(&cleared("1", "a"), &p, NOW, false), (Verdict::Remove, "Inactive"));
    let mut unchecked = cleared("2", "b");
    unchecked.checked_at_ms = None;
    assert_eq!(verdict(&unchecked, &p, NOW, true), (Verdict::CheckFirst, "Needs activity check"));
    assert_eq!(verdict(&unchecked, &p, NOW, false), (Verdict::Review, "Needs activity check"));
    let mut active = cleared("3", "c");
    active.last_activity_ms = Some(NOW);
    assert_eq!(verdict(&active, &p, NOW, false), (Verdict::Keep, "Recently active"));
    assert_eq!(Verdict::CheckFirst.label(), "CHECK FIRST");
}

#[test]
fn cleanup_scene_text() {
    assert!(visible(true, false, Mode::Browse));
    assert!(visible(true, false, Mode::Settings));
    assert!(!visible(true, true, Mode::Browse));
    assert!(!visible(false, false, Mode::Browse));
    assert!(!visible(true, false, Mode::Help));
    assert!(animating(true, false, true));
    assert!(!animating(true, true, true));
    assert_eq!(scene_state(false, false, 0), "Disconnected \u{b7} work stopped");
    assert_eq!(scene_state(true, true, 5), "Paused \u{b7} water stopped");
    assert_eq!(scene_state(true, false, 42), "Next attempt in 42s \u{b7} water keeps flowing");
    assert_eq!(scene_state(true, false, 0), "Queue running \u{b7} removals confirmed by X");
    let mut a = cleared("1", "fri\u{202e}end");
    let accounts = vec![a.clone()];
    assert_eq!(display_handle(&accounts, "1"), "friend");
    assert_eq!(display_handle(&accounts, "9"), "9");
    a.handle = "\u{7}".into();
    assert_eq!(display_handle(&vec![a], "1"), "1");
    assert_eq!(target_label(Some((TargetKind::Removing, "friend")), true, "inspect"), "Removing: @friend");
    assert_eq!(target_label(None, true, "inspect"), "Full Auto: inspect");
    assert_eq!(target_label(None, false, "inspect"), "Queue complete");
}

#[test]
fn centered_rectangles_stay_inside() {
    let area = Area { x: 10, y: 4, width: 100, height: 30 };
    assert_eq!(centered(area, 40, 10), Area { x: 40, y: 14, width: 40, height: 10 });
    assert_eq!(centered(area, 500, 50), area);
    assert_eq!(centered(Area { x: 0, y: 0, width: 0, height: 0 }, 3, 3), Area { x: 0, y: 0, width: 0, height: 0 });
}

#[test]
fn rules_view_names_each_rule() {
    let rows = filter_rows(&Policy::default());
    assert_eq!(rows.len(), 6);
    assert_eq!(rows[0], ("REMOVE: inactive at least", "90 days".to_string()));
    assert_eq!(rows[1], ("PROTECT: verified accounts", "on".to_string()));
    assert_eq!(rows[3], ("REMOVE: zero posts too", "on".to_string()));
    assert_eq!(rows[4], ("Minimum removal interval", "60 seconds".to_string()));
    assert_eq!(rows[5], ("Hourly attempt budget", "50 / hour".to_string()));
}

#[test]
fn pouring_scene_layout_and_falling_tags() {
    assert_eq!(water_layout(42), WaterLayout { stream_start: 6, logo_y: 12, logo_rows: 9, splash_y: 22 });
    assert_eq!(water_layout(20), WaterLayout { stream_start: 4, logo_y: 7, logo_rows: 7, splash_y: 14 });
    assert_eq!(water_layout(10), WaterLayout { stream_start: 3, logo_y: 4, logo_rows: 5, splash_y: 10 });
    let tall = water_layout(42);
    assert_eq!(tag_row(tall, 0), 6);
    assert_eq!(tag_row(tall, 4000), 13);
    assert_eq!(tag_row(tall, 7999), 20);
    let mut last = 0;
    for age in (0..8000).step_by(250) {
        let row = tag_row(tall, age);
        assert!(row >= last && row < 22);
        last = row;
    }
}

#[test]
fn connection_changes_and_page_loads() {
    assert_eq!(view_on_connect(Mode::Setup), (Mode::Setup, Some(Step::Connect)));
    assert_eq!(view_on_connect(Mode::Help), (Mode::Browse, None));
    assert_eq!(view_on_disconnect(true), (Mode::Setup, Some(Step::Pair)));
    assert_eq!(view_on_disconnect(false), (Mode::Browse, None));
    assert_eq!(page_ready_step(true, true, false, None, NOW, None), PageReadyStep::CheckNow);
    assert_eq!(page_ready_step(true, true, false, None, NOW, Some(&Command::GetSession)), PageReadyStep::QueueRecheck);
    let scan = Command::ScanPage { list: "followers".into(), cursor: None };
    assert_eq!(page_ready_step(true, true, false, None, NOW, Some(&scan)), PageReadyStep::Ignore);
    assert_eq!(page_ready_step(false, true, false, None, NOW, None), PageReadyStep::Ignore);
    assert_eq!(page_ready_step(true, true, true, None, NOW, None), PageReadyStep::Ignore);
    assert_eq!(page_ready_step(true, true, false, Some(NOW + 1), NOW, None), PageReadyStep::Ignore);
    assert_eq!(page_ready_step(true, true, false, Some(NOW), NOW, None), PageReadyStep::CheckNow);
    let flaky = WorkResult::Error { code: "network_unavailable".into(), message: "m".into(), retry_at_ms: None };
    let limited = WorkResult::Error { code: "rate_limited".into(), message: "m".into(), retry_at_ms: None };
    let waited = WorkResult::Error { code: "x".into(), message: "m".into(), retry_at_ms: Some(NOW) };
    let fine = WorkResult::Session { owner_id: "1".into(), handle: "me".into(), capabilities: vec![] };
    assert!(recheck_after(true, &flaky, true));
    assert!(!recheck_after(false, &flaky, true));
    assert!(!recheck_after(true, &flaky, false));
    assert!(!recheck_after(true, &limited, true));
    assert!(!recheck_after(true, &waited, true));
    assert!(!recheck_after(true, &fine, true));
}
