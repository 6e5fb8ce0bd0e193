//! The controller's state and what each key request and each browser
//! result does to it. The decisions of `keys`, `guards`, `schedule` and
//! `results` are applied here; saving, sending and drawing are left to the
//! caller, which a `Perform` outcome asks to act.
use crate::app::{
    approve_queue, find_account, keep_rows, move_focus, review_queue, select_basic, select_candidates,
    selected_and_eligible, seq_has_text, spec_approved, spec_find_account, spec_move_focus, text_in,
    Batch, Mode, Scan,
};
use crate::guards::Refusal;
use crate::keys::Request;
use crate::model::{Account, Policy};
use crate::pacing::Pacing;
use crate::protocol::{Command, Work};
use crate::text::same_text;
use vstd::prelude::*;

verus! {

/// The controller: its view, its running work, and its data.
pub struct Controller {
    pub mode: Mode,
    pub query: String,
    pub focus: usize,
    pub only_matching: bool,
    pub show_queue_list: bool,
    pub filter_row: usize,
    pub modal_scroll: u16,
    pub paused: bool,
    pub batch: Option<Batch>,
    pub auto_policy: Option<Policy>,
    pub managed_run: bool,
    pub detach_requested: bool,
    pub selected: Vec<String>,
    pub confirmation: Vec<String>,
    pub pending: Option<Work>,
    pub accounts: Vec<Account>,
    pub scan: Scan,
    pub pacing: Pacing,
    pub policy: Policy,
    pub owner: String,
    pub capabilities: Vec<String>,
    pub uncertain: usize,
    /// The running job uses the simple cleanup's rules.
    pub simple_running: bool,
}

/// No two accounts of the inventory share an ID.
pub open spec fn ids_unique(accounts: Seq<Account>) -> bool {
    forall|i: int, j: int|
        0 <= i < j < accounts.len() ==> (#[trigger] accounts[i]).id@ != (#[trigger] accounts[j]).id@
}

impl Controller {
    /// The inventory holds each account once, and no cursor of the current
    /// pass repeats.
    pub open spec fn well_formed(&self) -> bool {
        &&& ids_unique(self.accounts@)
        &&& crate::app::cursors_distinct(self.scan.cursors@)
    }
}

/// An inventory held in memory has at most `usize::MAX` accounts.
pub proof fn lemma_vec_len_bound(accounts: Vec<Account>)
    ensures
        accounts@.len() <= usize::MAX,
{
    assert(accounts@.len() == accounts.len());
}

/// The view: screen, search, highlight, filters, rows and scrolling.
pub open spec fn view_of(c: Controller) -> (Mode, Seq<char>, usize, bool, bool, usize, u16) {
    (c.mode, c.query@, c.focus, c.only_matching, c.show_queue_list, c.filter_row, c.modal_scroll)
}

/// The running work: paused, queue, Full Auto, managed run, background move.
pub open spec fn work_of(c: Controller) -> (bool, Option<Batch>, Option<Policy>, bool, bool) {
    (c.paused, c.batch, c.auto_policy, c.managed_run, c.detach_requested)
}

/// The choices and the inventory.
pub open spec fn data_of(c: Controller) -> (Seq<String>, Seq<String>, Seq<Account>, Policy) {
    (c.selected@, c.confirmation@, c.accounts@, c.policy)
}

/// Everything else: the command in flight, the collection, pacing and the
/// connection's account.
pub open spec fn rest_of(c: Controller) -> (Option<Work>, Scan, Pacing, Seq<char>, Seq<String>, usize, bool) {
    (c.pending, c.scan, c.pacing, c.owner@, c.capabilities@, c.uncertain, c.simple_running)
}

/// `p` with the processing settings (the delay between removals and the
/// hourly attempt budget) of `from`.
pub open spec fn with_pacing(p: Policy, from: Policy) -> Policy {
    Policy { delay_seconds: from.delay_seconds, batch_limit: from.batch_limit, ..p }
}

/// `n` differs from `o` in its view only.
pub open spec fn only_view_changed(o: Controller, n: Controller) -> bool {
    work_of(n) == work_of(o) && data_of(n) == data_of(o) && rest_of(n) == rest_of(o)
}

/// `n` is `o` with the screen set to `mode`.
pub open spec fn to_mode(o: Controller, n: Controller, mode: Mode) -> bool {
    only_view_changed(o, n) && view_of(n) == (
        mode,
        o.query@,
        o.focus,
        o.only_matching,
        o.show_queue_list,
        o.filter_row,
        o.modal_scroll,
    )
}

/// What a handled request leaves to the caller.
#[derive(Clone, Copy, Debug, PartialEq, Eq, Structural)]
pub enum KeyOutcome {
    /// The state change is all there is.
    Done,
    /// The caller still saves, sends or opens what the request names.
    Perform,
}

/// The account on the highlighted row of `rows`, if any.
pub open spec fn focused_account(rows: Seq<usize>, focus: usize) -> Option<usize> {
    if rows.len() == 0 {
        None
    } else if focus < rows.len() {
        Some(rows[focus as int])
    } else {
        Some(rows[rows.len() - 1])
    }
}

/// `items` without the entries equal to `s`.
pub open spec fn without_text(items: Seq<String>, s: Seq<char>) -> Seq<String> {
    items.filter(|x: String| x@ != s)
}

/// The IDs of the accounts at positions `idx`.
pub open spec fn ids_at(accounts: Seq<Account>, idx: Seq<usize>) -> Seq<String> {
    idx.map_values(|i: usize| accounts[i as int].id)
}

/// The selection after the space bar on `id`: selected accounts leave the
/// selection; others join it where the relationship rules let them.
pub open spec fn spec_toggle_selection(selected: Seq<String>, a: Account, p: Policy) -> Seq<String> {
    if seq_has_text(selected, a.id@) {
        without_text(selected, a.id@)
    } else if a.spec_basic_reason(p) is Ok {
        selected.push(a.id)
    } else {
        selected
    }
}

/// The followers of `accounts` in listing order.
pub open spec fn is_listing(order: Seq<usize>, accounts: Seq<Account>) -> bool {
    &&& forall|x: usize| order.contains(x) <==> (x < accounts.len() && crate::app::is_follower(accounts[x as int]))
    &&& forall|a: int, b: int|
        0 <= a < b < order.len() ==> crate::app::listed_before(accounts, #[trigger] order[a] as int, #[trigger] order[b] as int)
}

/// What a request on the view does: screens, search, highlight, rows,
/// scrolling and rule values.
pub open spec fn view_effect(
    o: Controller,
    n: Controller,
    req: Request,
    rows: Seq<usize>,
    batch_id: Seq<char>,
    now: i64,
    r: Result<KeyOutcome, Refusal>,
) -> bool {
    match req {
        Request::Nothing => r == Ok::<KeyOutcome, Refusal>(KeyOutcome::Done) && n == o,
        Request::BackToList | Request::SaveRulesAndClose | Request::SaveProcessingAndClose => {
            &&& r == Ok::<KeyOutcome, Refusal>(
                if req == Request::BackToList {
                    KeyOutcome::Done
                } else {
                    KeyOutcome::Perform
                },
            )
            &&& to_mode(o, n, Mode::Browse)
        },
        Request::ConfirmAuto => r == Ok::<KeyOutcome, Refusal>(KeyOutcome::Done) && to_mode(o, n, Mode::AutoConfirm),
        Request::OpenSearch => r == Ok::<KeyOutcome, Refusal>(KeyOutcome::Done) && to_mode(o, n, Mode::Search),
        Request::OpenHelp | Request::OpenDetails => {
            &&& r == Ok::<KeyOutcome, Refusal>(KeyOutcome::Done)
            &&& only_view_changed(o, n)
            &&& view_of(n) == (
                if req == Request::OpenHelp {
                    Mode::Help
                } else {
                    Mode::Details
                },
                o.query@,
                o.focus,
                o.only_matching,
                o.show_queue_list,
                o.filter_row,
                0u16,
            )
        },
        Request::OpenSettings => {
            &&& r == Ok::<KeyOutcome, Refusal>(KeyOutcome::Done)
            &&& only_view_changed(o, n)
            &&& view_of(n) == (
                Mode::Settings,
                o.query@,
                o.focus,
                o.only_matching,
                o.show_queue_list,
                0usize,
                o.modal_scroll,
            )
        },
        Request::OpenFilters => if o.auto_policy is Some {
            r == Err::<KeyOutcome, Refusal>(Refusal::FullAutoRulesFixed) && n == o
        } else if o.batch is Some {
            r == Err::<KeyOutcome, Refusal>(Refusal::CancelBatchBeforeFilters) && n == o
        } else {
            r == Ok::<KeyOutcome, Refusal>(KeyOutcome::Done) && to_mode(o, n, Mode::Filters)
        },
        Request::OpenFullAuto => if o.batch is Some || o.pending is Some || o.auto_policy is Some {
            r == Err::<KeyOutcome, Refusal>(Refusal::CancelBeforeFullAuto) && n == o
        } else {
            &&& r == Ok::<KeyOutcome, Refusal>(KeyOutcome::Done)
            &&& view_of(n) == (
                Mode::AutoConfirm,
                o.query@,
                o.focus,
                o.only_matching,
                o.show_queue_list,
                o.filter_row,
                o.modal_scroll,
            )
            &&& work_of(n) == (true, o.batch, o.auto_policy, o.managed_run, o.detach_requested)
            &&& data_of(n) == data_of(o) && rest_of(n) == rest_of(o)
        },
        Request::CloseSearch | Request::SearchBackspace | Request::SearchType(_) => {
            &&& r == Ok::<KeyOutcome, Refusal>(KeyOutcome::Done)
            &&& only_view_changed(o, n)
            &&& view_of(n) == (
                if req == Request::CloseSearch {
                    Mode::Browse
                } else {
                    o.mode
                },
                match req {
                    Request::SearchBackspace => if o.query@.len() > 0 {
                        o.query@.drop_last()
                    } else {
                        o.query@
                    },
                    Request::SearchType(ch) => o.query@.push(ch),
                    _ => o.query@,
                },
                0usize,
                o.only_matching,
                o.show_queue_list,
                o.filter_row,
                o.modal_scroll,
            )
        },
        Request::MoveFocus(nav) => {
            &&& r == Ok::<KeyOutcome, Refusal>(KeyOutcome::Done)
            &&& only_view_changed(o, n)
            &&& view_of(n) == (
                o.mode,
                o.query@,
                spec_move_focus(o.focus, rows.len() as usize, nav) as usize,
                o.only_matching,
                o.show_queue_list,
                o.filter_row,
                o.modal_scroll,
            )
        },
        Request::ScrollBy(d) => {
            &&& r == Ok::<KeyOutcome, Refusal>(KeyOutcome::Done)
            &&& only_view_changed(o, n)
            &&& view_of(n) == (
                o.mode,
                o.query@,
                o.focus,
                o.only_matching,
                o.show_queue_list,
                o.filter_row,
                crate::model::clamp(o.modal_scroll + d, 0, u16::MAX as int) as u16,
            )
        },
        Request::ScrollHome => {
            &&& r == Ok::<KeyOutcome, Refusal>(KeyOutcome::Done)
            &&& only_view_changed(o, n)
            &&& view_of(n) == (o.mode, o.query@, o.focus, o.only_matching, o.show_queue_list, o.filter_row, 0u16)
        },
        Request::NextRow(count) | Request::PreviousRow(count) => {
            &&& r == Ok::<KeyOutcome, Refusal>(KeyOutcome::Done)
            &&& only_view_changed(o, n)
            &&& view_of(n) == (
                o.mode,
                o.query@,
                o.focus,
                o.only_matching,
                o.show_queue_list,
                if count == 0 {
                    o.filter_row
                } else if req is NextRow {
                    ((o.filter_row + 1) % (count as int)) as usize
                } else {
                    ((o.filter_row + count - 1) % (count as int)) as usize
                },
                o.modal_scroll,
            )
        },
        Request::ToggleOnlyMatching | Request::ToggleQueueList => {
            &&& r == Ok::<KeyOutcome, Refusal>(KeyOutcome::Done)
            &&& only_view_changed(o, n)
            &&& view_of(n) == (
                o.mode,
                o.query@,
                if req is ToggleOnlyMatching {
                    0usize
                } else {
                    o.focus
                },
                if req is ToggleOnlyMatching {
                    !o.only_matching
                } else {
                    o.only_matching
                },
                if req is ToggleQueueList {
                    !o.show_queue_list
                } else {
                    o.show_queue_list
                },
                o.filter_row,
                o.modal_scroll,
            )
        },
        Request::ResetPacing => {
            &&& r == Ok::<KeyOutcome, Refusal>(KeyOutcome::Done)
            &&& view_of(n) == view_of(o) && work_of(n) == work_of(o) && rest_of(n) == rest_of(o)
            &&& data_of(n) == (o.selected@, o.confirmation@, o.accounts@, with_pacing(o.policy, Policy::spec_default()))
        },
        Request::AdjustRule(d) => {
            &&& r == Ok::<KeyOutcome, Refusal>(KeyOutcome::Done)
            &&& view_of(n) == view_of(o) && work_of(n) == work_of(o) && rest_of(n) == rest_of(o)
            &&& data_of(n) == (o.selected@, o.confirmation@, o.accounts@, o.policy.spec_adjust(o.filter_row, d))
        },
        _ => false,
    }
}

/// What pausing, cancelling and approving do to the running work.
pub open spec fn work_effect(
    o: Controller,
    n: Controller,
    req: Request,
    rows: Seq<usize>,
    batch_id: Seq<char>,
    now: i64,
    r: Result<KeyOutcome, Refusal>,
) -> bool {
    match req {
        Request::TogglePause => if o.paused {
            if o.uncertain > 0 && !o.simple_running {
                r == Err::<KeyOutcome, Refusal>(Refusal::ReconcileFirst) && n == o
            } else {
                &&& r == Ok::<KeyOutcome, Refusal>(KeyOutcome::Perform)
                &&& view_of(n) == view_of(o) && data_of(n) == data_of(o) && rest_of(n) == rest_of(o)
                &&& work_of(n) == (false, o.batch, o.auto_policy, o.managed_run, o.detach_requested)
            }
        } else {
            &&& r == Ok::<KeyOutcome, Refusal>(KeyOutcome::Perform)
            &&& view_of(n) == view_of(o) && data_of(n) == data_of(o) && rest_of(n) == rest_of(o)
            &&& work_of(n) == (true, o.batch, o.auto_policy, o.managed_run, false)
        },
        Request::Quit => {
            &&& r == Ok::<KeyOutcome, Refusal>(KeyOutcome::Perform)
            &&& view_of(n) == view_of(o) && data_of(n) == data_of(o) && rest_of(n) == rest_of(o)
            &&& work_of(n) == (true, o.batch, o.auto_policy, o.managed_run, false)
        },
        Request::CancelWork => {
            &&& r == Ok::<KeyOutcome, Refusal>(KeyOutcome::Perform)
            &&& view_of(n) == view_of(o) && data_of(n) == data_of(o) && rest_of(n) == rest_of(o)
            &&& work_of(n) == (true, None::<Batch>, None::<Policy>, false, false)
        },
        Request::ApproveQueue => if o.pending is Some || o.uncertain > 0 {
            r == Err::<KeyOutcome, Refusal>(Refusal::WaitForInFlight) && n == o
        } else {
            let approved = spec_approved(o.confirmation@, o.accounts@, o.policy, now);
            &&& data_of(n) == data_of(o) && rest_of(n) == rest_of(o)
            &&& n.mode == Mode::Browse && n.focus == o.focus && n.filter_row == o.filter_row
                && n.modal_scroll == o.modal_scroll
            &&& n.managed_run == o.managed_run && n.auto_policy == o.auto_policy
                && n.detach_requested == o.detach_requested
            &&& if approved.len() > 0 {
                &&& r == Ok::<KeyOutcome, Refusal>(KeyOutcome::Perform)
                &&& n.batch matches Some(b) && b.id@ == batch_id && b.ids@ == approved && b.policy == o.policy
                &&& !n.paused && n.query@.len() == 0 && !n.only_matching && n.show_queue_list
            } else {
                &&& r == Ok::<KeyOutcome, Refusal>(KeyOutcome::Done)
                &&& n.batch == o.batch && n.paused == o.paused && n.query@ == o.query@
                &&& n.only_matching == o.only_matching && n.show_queue_list == o.show_queue_list
            }
        },
        _ => false,
    }
}

/// What selecting, keeping and reviewing do to the choices.
pub open spec fn choice_effect(
    o: Controller,
    n: Controller,
    req: Request,
    rows: Seq<usize>,
    batch_id: Seq<char>,
    now: i64,
    r: Result<KeyOutcome, Refusal>,
) -> bool {
    match req {
        Request::ToggleSelection => match focused_account(rows, o.focus) {
            None => r == Ok::<KeyOutcome, Refusal>(KeyOutcome::Done) && n == o,
            Some(i) => {
                &&& r == Ok::<KeyOutcome, Refusal>(KeyOutcome::Done)
                &&& view_of(n) == view_of(o) && work_of(n) == work_of(o) && rest_of(n) == rest_of(o)
                &&& data_of(n) == (
                    spec_toggle_selection(o.selected@, o.accounts@[i as int], o.policy),
                    o.confirmation@,
                    o.accounts@,
                    o.policy,
                )
            },
        },
        Request::SelectCandidates | Request::SelectByBasicRules => {
            &&& r == Ok::<KeyOutcome, Refusal>(KeyOutcome::Done)
            &&& view_of(n) == view_of(o) && work_of(n) == work_of(o) && rest_of(n) == rest_of(o)
            &&& data_of(n) == (
                ids_at(
                    o.accounts@,
                    keep_rows(
                        o.accounts@,
                        rows,
                        if req is SelectCandidates {
                            crate::app::eligible(o.policy, now)
                        } else {
                            crate::app::passes_basic(o.policy)
                        },
                    ),
                ),
                o.confirmation@,
                o.accounts@,
                o.policy,
            )
        },
        Request::ToggleKeep => match focused_account(rows, o.focus) {
            None => r == Ok::<KeyOutcome, Refusal>(KeyOutcome::Done) && n == o,
            Some(i) => {
                let in_flight = o.pending matches Some(w) && (w.command matches Command::RemoveFollower {
                    target_id,
                    ..
                } && target_id@ == o.accounts@[i as int].id@);
                &&& r == Ok::<KeyOutcome, Refusal>(KeyOutcome::Perform)
                &&& view_of(n) == view_of(o) && rest_of(n) == rest_of(o)
                &&& work_of(n) == (
                    o.paused || in_flight,
                    o.batch,
                    o.auto_policy,
                    o.managed_run,
                    o.detach_requested && !in_flight,
                )
                &&& data_of(n) == (
                    without_text(o.selected@, o.accounts@[i as int].id@),
                    o.confirmation@,
                    o.accounts@.update(i as int, Account { kept: !o.accounts@[i as int].kept, ..o.accounts@[i as int] }),
                    o.policy,
                )
            },
        },
        Request::ReviewRemovals => {
            let cleared_ids = |order: Seq<usize>|
                ids_at(o.accounts@, keep_rows(o.accounts@, order, selected_and_eligible(o.selected@, o.policy, now)));
            if o.auto_policy is Some {
                r == Err::<KeyOutcome, Refusal>(Refusal::FullAutoManagesQueue) && n == o
            } else if o.batch is Some || o.pending is Some {
                r == Err::<KeyOutcome, Refusal>(Refusal::WaitOrCancel) && n == o
            } else if !seq_has_text(o.capabilities@, "remove_follower"@) {
                r == Err::<KeyOutcome, Refusal>(Refusal::RemovalAdapterUnavailable) && n == o
            } else {
                exists|order: Seq<usize>|
                    is_listing(order, o.accounts@) && if cleared_ids(order).len() == 0 {
                        r == Err::<KeyOutcome, Refusal>(Refusal::NothingCleared) && n == o
                    } else {
                        &&& r == Ok::<KeyOutcome, Refusal>(KeyOutcome::Done)
                        &&& view_of(n) == (
                            Mode::Confirm,
                            o.query@,
                            o.focus,
                            o.only_matching,
                            o.show_queue_list,
                            o.filter_row,
                            o.modal_scroll,
                        )
                        &&& work_of(n) == (true, o.batch, o.auto_policy, o.managed_run, o.detach_requested)
                        &&& rest_of(n) == rest_of(o)
                        &&& data_of(n) == (o.selected@, cleared_ids(order), o.accounts@, o.policy)
                    }
            }
        },
        _ => false,
    }
}

/// Requests on the view.
pub open spec fn is_view_request(req: Request) -> bool {
    match req {
        Request::Nothing | Request::BackToList | Request::SaveRulesAndClose | Request::SaveProcessingAndClose
        | Request::ConfirmAuto | Request::OpenSearch | Request::OpenHelp | Request::OpenDetails
        | Request::OpenSettings | Request::OpenFilters | Request::OpenFullAuto | Request::CloseSearch
        | Request::SearchBackspace | Request::SearchType(_) | Request::MoveFocus(_) | Request::ScrollBy(_)
        | Request::ScrollHome | Request::NextRow(_) | Request::PreviousRow(_) | Request::ToggleOnlyMatching
        | Request::ToggleQueueList | Request::AdjustRule(_) | Request::ResetPacing => true,
        _ => false,
    }
}

/// Requests on the running work.
pub open spec fn is_work_request(req: Request) -> bool {
    req is TogglePause || req is CancelWork || req is ApproveQueue || req is Quit
}

/// Requests on the choices.
pub open spec fn is_choice_request(req: Request) -> bool {
    req is ToggleSelection || req is SelectCandidates || req is SelectByBasicRules || req is ToggleKeep
        || req is ReviewRemovals
}

/// What a key request does to the controller. `rows` are the rows shown,
/// `batch_id` names a queue approved now, and `now` is the time. A refused
/// request changes nothing; a request that only the caller can carry out
/// (saving, sending, opening a page) leaves the state as it is and asks for
/// it.
pub open spec fn request_effect(
    o: Controller,
    n: Controller,
    req: Request,
    rows: Seq<usize>,
    batch_id: Seq<char>,
    now: i64,
    r: Result<KeyOutcome, Refusal>,
) -> bool {
    if is_view_request(req) {
        view_effect(o, n, req, rows, batch_id, now, r)
    } else if is_work_request(req) {
        work_effect(o, n, req, rows, batch_id, now, r)
    } else if is_choice_request(req) {
        choice_effect(o, n, req, rows, batch_id, now, r)
    } else {
        r == Ok::<KeyOutcome, Refusal>(KeyOutcome::Perform) && n == o
    }
}

/// Law: a refused key request leaves the controller exactly as it was.
pub proof fn law_refused_request_changes_nothing(
    o: Controller,
    n: Controller,
    req: Request,
    rows: Seq<usize>,
    batch_id: Seq<char>,
    now: i64,
    r: Result<KeyOutcome, Refusal>,
)
    requires
        request_effect(o, n, req, rows, batch_id, now, r),
        r is Err,
    ensures
        n == o,
{
}

/// Law: only the confirmation's approval starts a queue. Every other key
/// request, the refused approvals included, leaves the queue as it was or
/// drops it.
pub proof fn law_only_approval_starts_a_queue(
    o: Controller,
    n: Controller,
    req: Request,
    rows: Seq<usize>,
    batch_id: Seq<char>,
    now: i64,
    r: Result<KeyOutcome, Refusal>,
)
    requires
        request_effect(o, n, req, rows, batch_id, now, r),
        req != Request::ApproveQueue,
    ensures
        n.batch == o.batch || n.batch is None,
{
}

/// Drops every entry equal to `s` from `items`.
pub fn remove_text(items: &mut Vec<String>, s: &str)
    ensures
        final(items)@ == without_text(old(items)@, s@),
{
    let ghost all = items@;
    let mut kept: Vec<String> = Vec::new();
    let mut i: usize = 0;
    while i < items.len()
        invariant
            items@ == all,
            i <= all.len(),
            kept@ == all.take(i as int).filter(|x: String| x@ != s@),
        decreases all.len() - i,
    {
        proof {
            assert(all.take(i + 1).drop_last() =~= all.take(i as int));
            reveal(Seq::filter);
        }
        if !same_text(items[i].as_str(), s) {
            kept.push(items[i].clone());
        }
        i = i + 1;
    }
    proof {
        assert(all.take(all.len() as int) =~= all);
    }
    *items = kept;
}

/// The IDs of the accounts at positions `idx`.
pub fn ids_of(accounts: &Vec<Account>, idx: &Vec<usize>) -> (r: Vec<String>)
    requires
        crate::order::in_bounds(idx@, accounts@.len() as int),
    ensures
        r@ == ids_at(accounts@, idx@),
{
    let mut out: Vec<String> = Vec::new();
    let mut i: usize = 0;
    while i < idx.len()
        invariant
            i <= idx@.len(),
            crate::order::in_bounds(idx@, accounts@.len() as int),
            out@ == ids_at(accounts@, idx@.take(i as int)),
        decreases idx@.len() - i,
    {
        let ghost before = out@;
        out.push(accounts[idx[i]].id.clone());
        proof {
            assert(ids_at(accounts@, idx@.take(i + 1)) =~= before.push(accounts@[idx@[i as int] as int].id));
        }
        i = i + 1;
    }
    proof {
        assert(idx@.take(idx@.len() as int) =~= idx@);
    }
    out
}

/// `s` without its last character.
fn without_last(s: &str) -> (r: String)
    ensures
        r@ == (if s@.len() > 0 {
            s@.drop_last()
        } else {
            s@
        }),
{
    let cs = crate::text::chars_of(s);
    let end = if cs.len() > 0 {
        cs.len() - 1
    } else {
        0
    };
    let mut out = String::new();
    let mut k: usize = 0;
    while k < end
        invariant
            k <= end <= cs@.len(),
            cs@ == s@,
            end == (if cs@.len() > 0 { cs@.len() - 1 } else { 0 }),
            out@ == cs@.take(k as int),
        decreases end - k,
    {
        out.push(cs[k]);
        proof {
            assert(cs@.take(k + 1) =~= cs@.take(k as int).push(cs@[k as int]));
        }
        k = k + 1;
    }
    proof {
        assert(cs@.take(end as int) =~= (if s@.len() > 0 { s@.drop_last() } else { s@ }));
    }
    out
}

/// Carries out a request on the view.
fn apply_view_request(c: &mut Controller, req: Request, rows: &Vec<usize>, batch_id: String, now: i64) -> (r: Result<
    KeyOutcome,
    Refusal,
>)
    requires
        is_view_request(req),
        crate::order::in_bounds(rows@, old(c).accounts@.len() as int),
    ensures
        old(c).well_formed() ==> final(c).well_formed(),
        view_effect(*old(c), *final(c), req, rows@, batch_id@, now, r),
{
    match req {
        Request::Nothing => Ok(KeyOutcome::Done),
        Request::BackToList => {
            c.mode = Mode::Browse;
            Ok(KeyOutcome::Done)
        },
        Request::SaveRulesAndClose | Request::SaveProcessingAndClose => {
            c.mode = Mode::Browse;
            Ok(KeyOutcome::Perform)
        },
        Request::ConfirmAuto => {
            c.mode = Mode::AutoConfirm;
            Ok(KeyOutcome::Done)
        },
        Request::OpenSearch => {
            c.mode = Mode::Search;
            Ok(KeyOutcome::Done)
        },
        Request::OpenHelp => {
            c.modal_scroll = 0;
            c.mode = Mode::Help;
            Ok(KeyOutcome::Done)
        },
        Request::OpenDetails => {
            c.modal_scroll = 0;
            c.mode = Mode::Details;
            Ok(KeyOutcome::Done)
        },
        Request::OpenSettings => {
            c.filter_row = 0;
            c.mode = Mode::Settings;
            Ok(KeyOutcome::Done)
        },
        Request::OpenFilters => {
            match crate::guards::check_filters(c.auto_policy.is_some(), c.batch.is_some()) {
                Err(e) => Err(e),
                Ok(()) => {
                    c.mode = Mode::Filters;
                    Ok(KeyOutcome::Done)
                },
            }
        },
        Request::OpenFullAuto => {
            if c.batch.is_some() || c.pending.is_some() || c.auto_policy.is_some() {
                return Err(Refusal::CancelBeforeFullAuto);
            }
            c.paused = true;
            c.mode = Mode::AutoConfirm;
            Ok(KeyOutcome::Done)
        },
        Request::CloseSearch => {
            c.mode = Mode::Browse;
            c.focus = 0;
            Ok(KeyOutcome::Done)
        },
        Request::SearchBackspace => {
            c.query = without_last(c.query.as_str());
            c.focus = 0;
            Ok(KeyOutcome::Done)
        },
        Request::SearchType(ch) => {
            c.query.push(ch);
            c.focus = 0;
            Ok(KeyOutcome::Done)
        },
        Request::MoveFocus(nav) => {
            c.focus = move_focus(c.focus, rows.len(), nav);
            Ok(KeyOutcome::Done)
        },
        Request::ScrollBy(d) => {
            c.modal_scroll = crate::app::scroll_by(c.modal_scroll, d);
            Ok(KeyOutcome::Done)
        },
        Request::ScrollHome => {
            c.modal_scroll = 0;
            Ok(KeyOutcome::Done)
        },
        Request::NextRow(count) => {
            if count > 0 {
                c.filter_row = crate::app::cycle_row(c.filter_row, count, true);
            }
            Ok(KeyOutcome::Done)
        },
        Request::PreviousRow(count) => {
            if count > 0 {
                c.filter_row = crate::app::cycle_row(c.filter_row, count, false);
            }
            Ok(KeyOutcome::Done)
        },
        Request::ToggleOnlyMatching => {
            c.only_matching = !c.only_matching;
            c.focus = 0;
            Ok(KeyOutcome::Done)
        },
        Request::ToggleQueueList => {
            c.show_queue_list = !c.show_queue_list;
            Ok(KeyOutcome::Done)
        },
        Request::ResetPacing => {
            let defaults = Policy::default();
            c.policy.delay_seconds = defaults.delay_seconds;
            c.policy.batch_limit = defaults.batch_limit;
            Ok(KeyOutcome::Done)
        },
        Request::AdjustRule(d) => {
            let row = c.filter_row;
            c.policy.adjust(row, d);
            Ok(KeyOutcome::Done)
        },
        _ => Ok(KeyOutcome::Done),
    }
}

/// Carries out a request on the running work.
fn apply_work_request(c: &mut Controller, req: Request, rows: &Vec<usize>, batch_id: String, now: i64) -> (r: Result<
    KeyOutcome,
    Refusal,
>)
    requires
        is_work_request(req),
        crate::order::in_bounds(rows@, old(c).accounts@.len() as int),
    ensures
        old(c).well_formed() ==> final(c).well_formed(),
        work_effect(*old(c), *final(c), req, rows@, batch_id@, now, r),
{
    match req {
        Request::TogglePause => {
            if c.paused {
                if c.uncertain > 0 && !c.simple_running {
                    return Err(Refusal::ReconcileFirst);
                }
                c.paused = false;
            } else {
                c.detach_requested = false;
                c.paused = true;
            }
            Ok(KeyOutcome::Perform)
        },
        Request::Quit => {
            c.detach_requested = false;
            c.paused = true;
            Ok(KeyOutcome::Perform)
        },
        Request::CancelWork => {
            c.detach_requested = false;
            c.paused = true;
            c.batch = None;
            c.auto_policy = None;
            c.managed_run = false;
            Ok(KeyOutcome::Perform)
        },
        Request::ApproveQueue => {
            if c.pending.is_some() || c.uncertain > 0 {
                return Err(Refusal::WaitForInFlight);
            }
            let ids = approve_queue(&c.confirmation, &c.accounts, &c.policy, now);
            c.mode = Mode::Browse;
            if ids.len() == 0 {
                return Ok(KeyOutcome::Done);
            }
            let policy = c.policy.clone();
            c.batch = Some(Batch { id: batch_id, ids, policy });
            c.query = String::new();
            c.only_matching = false;
            c.show_queue_list = true;
            c.paused = false;
            Ok(KeyOutcome::Perform)
        },
        _ => Ok(KeyOutcome::Done),
    }
}

/// Carries out a request on the choices.
fn apply_choice_request(c: &mut Controller, req: Request, rows: &Vec<usize>, batch_id: String, now: i64) -> (r: Result<
    KeyOutcome,
    Refusal,
>)
    requires
        is_choice_request(req),
        crate::order::in_bounds(rows@, old(c).accounts@.len() as int),
    ensures
        old(c).well_formed() ==> final(c).well_formed(),
        choice_effect(*old(c), *final(c), req, rows@, batch_id@, now, r),
{
    match req {
        Request::ToggleSelection => {
            match crate::app::focused(rows.len(), c.focus) {
                None => Ok(KeyOutcome::Done),
                Some(k) => {
                    let i = rows[k];
                    let id = c.accounts[i].id.clone();
                    if text_in(&c.selected, id.as_str()) {
                        remove_text(&mut c.selected, id.as_str());
                    } else if c.accounts[i].basic_reason(&c.policy).is_ok() {
                        c.selected.push(id);
                    }
                    Ok(KeyOutcome::Done)
                },
            }
        },
        Request::SelectCandidates => {
            let picked = select_candidates(&c.accounts, rows, &c.policy, now);
            proof {
                crate::app::law_kept_rows_pass(c.accounts@, rows@, crate::app::eligible(c.policy, now));
            }
            c.selected = ids_of(&c.accounts, &picked);
            Ok(KeyOutcome::Done)
        },
        Request::SelectByBasicRules => {
            let picked = select_basic(&c.accounts, rows, &c.policy);
            proof {
                crate::app::law_kept_rows_pass(c.accounts@, rows@, crate::app::passes_basic(c.policy));
            }
            c.selected = ids_of(&c.accounts, &picked);
            Ok(KeyOutcome::Done)
        },
        Request::ToggleKeep => {
            match crate::app::focused(rows.len(), c.focus) {
                None => Ok(KeyOutcome::Done),
                Some(k) => {
                    let i = rows[k];
                    let in_flight = match &c.pending {
                        Some(w) => match &w.command {
                            Command::RemoveFollower { target_id, .. } => same_text(
                                target_id.as_str(),
                                c.accounts[i].id.as_str(),
                            ),
                            _ => false,
                        },
                        None => false,
                    };
                    if in_flight {
                        c.detach_requested = false;
                        c.paused = true;
                    }
                    let mut a = c.accounts[i].clone();
                    a.kept = !a.kept;
                    let id = a.id.clone();
                    c.accounts.set(i, a);
                    remove_text(&mut c.selected, id.as_str());
                    Ok(KeyOutcome::Perform)
                },
            }
        },
        Request::ReviewRemovals => {
            if c.auto_policy.is_some() {
                return Err(Refusal::FullAutoManagesQueue);
            }
            if c.batch.is_some() || c.pending.is_some() {
                return Err(Refusal::WaitOrCancel);
            }
            if !crate::schedule::has_capability(&c.capabilities, "remove_follower") {
                return Err(Refusal::RemovalAdapterUnavailable);
            }
            let order = crate::app::ordered_followers(&c.accounts);
            proof {
                assert forall|a: int| 0 <= a < order@.len() implies #[trigger] order@[a] < c.accounts@.len() by {
                    assert(order@.contains(order@[a]));
                }
            }
            let picked = review_queue(&c.accounts, &order, &c.selected, &c.policy, now);
            proof {
                crate::app::law_kept_rows_pass(
                    c.accounts@,
                    order@,
                    selected_and_eligible(c.selected@, c.policy, now),
                );
                assert(is_listing(order@, c.accounts@));
            }
            let ids = ids_of(&c.accounts, &picked);
            if ids.len() == 0 {
                return Err(Refusal::NothingCleared);
            }
            c.confirmation = ids;
            c.paused = true;
            c.mode = Mode::Confirm;
            Ok(KeyOutcome::Done)
        },
        _ => Ok(KeyOutcome::Done),
    }
}

/// Applies a key request to the controller. `rows` are the rows shown
/// (positions in the inventory), `batch_id` names a queue approved now.
pub fn apply_request(c: &mut Controller, req: Request, rows: &Vec<usize>, batch_id: String, now: i64) -> (r: Result<
    KeyOutcome,
    Refusal,
>)
    requires
        crate::order::in_bounds(rows@, old(c).accounts@.len() as int),
    ensures
        old(c).well_formed() ==> final(c).well_formed(),
        request_effect(*old(c), *final(c), req, rows@, batch_id@, now, r),
{
    if is_view(&req) {
        apply_view_request(c, req, rows, batch_id, now)
    } else if is_work(&req) {
        apply_work_request(c, req, rows, batch_id, now)
    } else if is_choice(&req) {
        apply_choice_request(c, req, rows, batch_id, now)
    } else {
        Ok(KeyOutcome::Perform)
    }
}

fn is_view(req: &Request) -> (b: bool)
    ensures
        b == is_view_request(*req),
{
    match req {
        Request::Nothing | Request::BackToList | Request::SaveRulesAndClose | Request::SaveProcessingAndClose
        | Request::ConfirmAuto | Request::OpenSearch | Request::OpenHelp | Request::OpenDetails
        | Request::OpenSettings | Request::OpenFilters | Request::OpenFullAuto | Request::CloseSearch
        | Request::SearchBackspace | Request::SearchType(_) | Request::MoveFocus(_) | Request::ScrollBy(_)
        | Request::ScrollHome | Request::NextRow(_) | Request::PreviousRow(_) | Request::ToggleOnlyMatching
        | Request::ToggleQueueList | Request::AdjustRule(_) | Request::ResetPacing => true,
        _ => false,
    }
}

fn is_work(req: &Request) -> (b: bool)
    ensures
        b == is_work_request(*req),
{
    match req {
        Request::TogglePause | Request::CancelWork | Request::ApproveQueue | Request::Quit => true,
        _ => false,
    }
}

fn is_choice(req: &Request) -> (b: bool)
    ensures
        b == is_choice_request(*req),
{
    match req {
        Request::ToggleSelection | Request::SelectCandidates | Request::SelectByBasicRules | Request::ToggleKeep
        | Request::ReviewRemovals => true,
        _ => false,
    }
}

} // verus!
