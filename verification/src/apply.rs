//! What each browser result does to the controller: collected pages go into
//! the inventory, deferrals extend the cooldown, receipts settle accounts
//! and leave the queue, and the queue's next step is taken on each tick.
use crate::app::{
    find_account, lemma_find_account, merge_page_account, opt_view, page_finished, spec_cursor_repeats,
    spec_find_account, spec_merge_page_account, PageError, PageProgress,
};
use crate::app::{spec_action_status, spec_is_fatal_failure, spec_settled_attempt, spec_trim_queue, Batch};
use crate::controller::{data_of, ids_unique, remove_text, rest_of, view_of, with_pacing, without_text, work_of, Controller};
use crate::manager::{check_settings, ControlError};
use crate::model::Policy;
use crate::pacing::{next_failures, retry_until};
use crate::protocol::WorkResult;
use crate::results::{
    check_account_result, check_follow_up, inherit_keep, spec_check_follow_up, spec_kept_in, CheckFollowUp,
    check_session_result, check_deferred_result, check_page_result, drop_target, receipt_follow_up, settle_account,
    spec_receipt_follow_up, spec_settle_account, spec_tag_handle, ReceiptFollowUp,
};
use crate::app::{check_receipt, ActionStatus, ReceiptError};
use crate::schedule::{batch_step, removal_command, spec_batch_step, BatchStep, REMOVAL_DEADLINE_MS};
use crate::text::same_text;
use std::collections::VecDeque;
use crate::model::Account;
use crate::protocol::{Command, Work};
use crate::results::ResultError;
use vstd::prelude::*;

verus! {

/// The inventory after the accounts of `page`, in order, are merged into
/// it: a known account is replaced in place by its merged record, a new one
/// is added at the end.
pub open spec fn merge_page(
    accounts: Seq<Account>,
    page: Seq<Account>,
    following_list: bool,
    following_complete: bool,
) -> Seq<Account>
    decreases page.len(),
{
    if page.len() == 0 {
        accounts
    } else {
        let before = merge_page(accounts, page.drop_last(), following_list, following_complete);
        let a = page.last();
        match spec_find_account(before, a.id@) {
            Some(i) => before.update(
                i,
                spec_merge_page_account(Some(before[i]), a, following_list, following_complete),
            ),
            None => before.push(spec_merge_page_account(None, a, following_list, following_complete)),
        }
    }
}

/// Whether some account of `page` has ID `id`.
pub open spec fn on_page(page: Seq<Account>, id: Seq<char>) -> bool {
    exists|k: int| 0 <= k < page.len() && (#[trigger] page[k]).id@ == id
}

/// Merging a page keeps every account already known at its place with its
/// ID and its Keep choice, leaves the accounts the page does not name as
/// they were, and keeps IDs unique.
pub proof fn law_page_merge_touches_only_its_accounts(
    accounts: Seq<Account>,
    page: Seq<Account>,
    following_list: bool,
    following_complete: bool,
)
    requires
        ids_unique(accounts),
    ensures
        ids_unique(merge_page(accounts, page, following_list, following_complete)),
        merge_page(accounts, page, following_list, following_complete).len() >= accounts.len(),
        forall|j: int|
            0 <= j < accounts.len() ==> {
                let m = #[trigger] merge_page(accounts, page, following_list, following_complete)[j];
                &&& m.id@ == accounts[j].id@
                &&& m.kept == accounts[j].kept
                &&& !on_page(page, accounts[j].id@) ==> m == accounts[j]
            },
    decreases page.len(),
{
    if page.len() > 0 {
        let prior = page.drop_last();
        law_page_merge_touches_only_its_accounts(accounts, prior, following_list, following_complete);
        let before = merge_page(accounts, prior, following_list, following_complete);
        let a = page.last();
        lemma_find_account(before, a.id@);
        let after = merge_page(accounts, page, following_list, following_complete);
        assert forall|j: int| 0 <= j < accounts.len() implies {
            let m = #[trigger] after[j];
            &&& m.id@ == accounts[j].id@
            &&& m.kept == accounts[j].kept
            &&& !on_page(page, accounts[j].id@) ==> m == accounts[j]
        } by {
            if !on_page(page, accounts[j].id@) {
                assert(!on_page(prior, accounts[j].id@)) by {
                    if on_page(prior, accounts[j].id@) {
                        let k = choose|k: int| 0 <= k < prior.len() && (#[trigger] prior[k]).id@ == accounts[j].id@;
                        assert(page[k] == prior[k]);
                    }
                }
                assert(page[page.len() - 1] == a);
            }
        }
    }
}

/// What the accounts of a page tell about the follower count: the number
/// of accounts known to follow.
pub open spec fn follower_count(accounts: Seq<Account>) -> nat
    decreases accounts.len(),
{
    if accounts.len() == 0 {
        0
    } else {
        follower_count(accounts.drop_last()) + if accounts.last().follows_me == Some(true) {
            1nat
        } else {
            0nat
        }
    }
}

/// Counts the accounts known to follow.
pub fn count_followers(accounts: &Vec<Account>) -> (r: usize)
    ensures
        r == follower_count(accounts@),
{
    let mut n: usize = 0;
    let mut i: usize = 0;
    while i < accounts.len()
        invariant
            i <= accounts@.len(),
            n == follower_count(accounts@.take(i as int)),
            n <= i,
        decreases accounts@.len() - i,
    {
        proof {
            assert(accounts@.take(i + 1).drop_last() =~= accounts@.take(i as int));
        }
        if accounts[i].follows_me == Some(true) {
            n = n + 1;
        }
        i = i + 1;
    }
    proof {
        assert(accounts@.take(accounts@.len() as int) =~= accounts@);
    }
    n
}

/// Puts one account of a page into the inventory.
fn merge_one(accounts: &mut Vec<Account>, a: Account, following_list: bool, following_complete: bool)
    ensures
        final(accounts)@ == (match spec_find_account(old(accounts)@, a.id@) {
            Some(i) => old(accounts)@.update(
                i,
                spec_merge_page_account(Some(old(accounts)@[i]), a, following_list, following_complete),
            ),
            None => old(accounts)@.push(spec_merge_page_account(None, a, following_list, following_complete)),
        }),
{
    match find_account(accounts, a.id.as_str()) {
        Some(i) => {
            let merged = merge_page_account(Some(&accounts[i]), a, following_list, following_complete);
            accounts.set(i, merged);
        },
        None => {
            let merged = merge_page_account(None, a, following_list, following_complete);
            accounts.push(merged);
        },
    }
}

/// Why a collected page was not taken in whole.
#[derive(Debug, PartialEq, Eq, Structural)]
pub enum PageRefusal {
    /// The page does not answer the request.
    Refused(ResultError),
    /// Collection stops here.
    Stopped(PageError),
}

/// The page answers the page request `w` of `owner` for `list`; whether
/// every account on it has an ID is checked as the page is merged.
pub open spec fn page_answers(w: Work, list: Seq<char>, owner: Seq<char>) -> Result<(), ResultError> {
    match w.command {
        Command::ScanPage { list: expected, .. } => if list != expected@ || w.owner_id@ != owner {
            Err(ResultError::PageMismatch)
        } else {
            Ok(())
        },
        _ => Err(ResultError::UnexpectedPage),
    }
}

/// The cursor the page request `w` asked for.
pub open spec fn requested_cursor(w: Work) -> Option<Seq<char>> {
    match w.command {
        Command::ScanPage { cursor, .. } => opt_view(cursor),
        _ => None,
    }
}

/// `k` is the first account of `page` without an ID.
pub open spec fn first_without_id(page: Seq<Account>, k: int) -> bool {
    &&& 0 <= k < page.len()
    &&& page[k].id@.len() == 0
    &&& forall|j: int| 0 <= j < k ==> (#[trigger] page[j]).id@.len() != 0
}

/// Every account of `page` has an ID.
pub open spec fn all_identified(page: Seq<Account>) -> bool {
    forall|j: int| 0 <= j < page.len() ==> (#[trigger] page[j]).id@.len() != 0
}

/// Everything but the pause flag, the inventory and the collection state
/// is as it was.
pub open spec fn only_collection_changed(o: Controller, n: Controller) -> bool {
    &&& view_of(n) == view_of(o)
    &&& n.batch == o.batch && n.auto_policy == o.auto_policy && n.managed_run == o.managed_run
    &&& n.detach_requested == o.detach_requested
    &&& n.selected@ == o.selected@ && n.confirmation@ == o.confirmation@ && n.policy == o.policy
    &&& n.pending == o.pending && n.pacing == o.pacing && n.owner@ == o.owner@
    &&& n.capabilities@ == o.capabilities@ && n.uncertain == o.uncertain
    &&& n.simple_running == o.simple_running
}

/// What a collected page does to the controller. A page that does not
/// answer the request changes nothing. A next cursor already followed in
/// this pass stops collection and pauses, with nothing merged and nothing
/// recorded. Otherwise the accounts are merged in order; an account without
/// an ID stops the page there. A whole page is recorded: the next cursor,
/// or the list's completion; a finished follower list pauses work unless
/// Full Auto runs, and a page that neither completes nor gives a cursor
/// pauses work.
pub open spec fn page_effect(
    o: Controller,
    n: Controller,
    w: Work,
    list: Seq<char>,
    page: Seq<Account>,
    next_cursor: Option<String>,
    complete: bool,
    r: Result<PageProgress, PageRefusal>,
) -> bool {
    let following_list = list == "following"@;
    let merged = merge_page(o.accounts@, page, following_list, o.scan.following_complete);
    match page_answers(w, list, o.owner@) {
        Err(e) => r == Err::<PageProgress, PageRefusal>(PageRefusal::Refused(e)) && n == o,
        Ok(()) => if spec_cursor_repeats(o.scan, requested_cursor(w), opt_view(next_cursor)) {
            &&& r == Err::<PageProgress, PageRefusal>(PageRefusal::Stopped(PageError::RepeatedCursor))
            &&& n.paused && n.accounts@ == o.accounts@ && n.scan == o.scan
            &&& only_collection_changed(o, n)
        } else if !all_identified(page) {
            &&& r == Err::<PageProgress, PageRefusal>(PageRefusal::Refused(ResultError::MissingIdentity))
            &&& n.paused == o.paused && n.scan == o.scan && only_collection_changed(o, n)
            &&& exists|k: int|
                first_without_id(page, k) && n.accounts@ == merge_page(
                    o.accounts@,
                    page.take(k),
                    following_list,
                    o.scan.following_complete,
                )
        } else {
            let progress = match r {
                Ok(p) => Ok::<PageProgress, PageError>(p),
                Err(PageRefusal::Stopped(e)) => Err::<PageProgress, PageError>(e),
                Err(PageRefusal::Refused(_)) => Err::<PageProgress, PageError>(PageError::RepeatedCursor),
            };
            &&& !(r matches Err(PageRefusal::Refused(_)))
            &&& n.accounts@ == merged
            &&& page_finished(
                o.scan,
                n.scan,
                following_list,
                next_cursor,
                complete,
                o.auto_policy is Some,
                follower_count(merged) as usize,
                progress,
            )
            &&& n.paused == (o.paused || (complete && !following_list && o.auto_policy is None) || (!complete
                && next_cursor is None))
            &&& only_collection_changed(o, n)
        },
    }
}

/// Merges the accounts of `page` in order, stopping at the first one
/// without an ID. Returns whether the whole page was merged.
fn merge_all(accounts: &mut Vec<Account>, page: &Vec<Account>, following_list: bool, following_complete: bool) -> (ok: bool)
    requires
        ids_unique(old(accounts)@),
    ensures
        ids_unique(final(accounts)@),
        ok == all_identified(page@),
        ok ==> final(accounts)@ == merge_page(old(accounts)@, page@, following_list, following_complete),
        !ok ==> exists|k: int|
            first_without_id(page@, k) && final(accounts)@ == merge_page(
                old(accounts)@,
                page@.take(k),
                following_list,
                following_complete,
            ),
{
    let ghost start = accounts@;
    let mut i: usize = 0;
    while i < page.len()
        invariant
            i <= page@.len(),
            start == old(accounts)@,
            ids_unique(start),
            accounts@ == merge_page(start, page@.take(i as int), following_list, following_complete),
            forall|j: int| 0 <= j < i ==> (#[trigger] page@[j]).id@.len() != 0,
        decreases page@.len() - i,
    {
        if page[i].id.as_str().unicode_len() == 0 {
            proof {
                law_page_merge_touches_only_its_accounts(start, page@.take(i as int), following_list, following_complete);
                assert(first_without_id(page@, i as int) && accounts@ == merge_page(
                    start,
                    page@.take(i as int),
                    following_list,
                    following_complete,
                ));
            }
            return false;
        }
        merge_one(accounts, page[i].clone(), following_list, following_complete);
        proof {
            assert(page@.take(i + 1).drop_last() =~= page@.take(i as int));
            assert(page@.take(i + 1).last() == page@[i as int]);
        }
        i = i + 1;
    }
    proof {
        assert(page@.take(page@.len() as int) =~= page@);
        law_page_merge_touches_only_its_accounts(start, page@, following_list, following_complete);
    }
    true
}

/// The cursor that `w` asked for.
fn requested(w: &Work) -> (r: Option<&String>)
    ensures
        opt_view(match r {
            Some(c) => Some(*c),
            None => None,
        }) == requested_cursor(*w),
{
    match &w.command {
        Command::ScanPage { cursor: Some(c), .. } => Some(c),
        _ => None,
    }
}

/// Applies a collected page of `list` that answers `w`.
pub fn apply_page(
    c: &mut Controller,
    w: &Work,
    list: &str,
    page: Vec<Account>,
    next_cursor: Option<String>,
    complete: bool,
) -> (r: Result<PageProgress, PageRefusal>)
    requires
        old(c).well_formed(),
    ensures
        final(c).well_formed(),
        page_effect(*old(c), *final(c), *w, list@, page@, next_cursor, complete, r),
{
    match check_page_result(w, list, &page, c.owner.as_str()) {
        Ok(()) => {},
        Err(ResultError::MissingIdentity) => {},
        Err(e) => {
            return Err(PageRefusal::Refused(e));
        },
    }
    let asked = requested(w);
    let next_ref = match &next_cursor {
        Some(n) => Some(n),
        None => None,
    };
    if c.scan.cursor_repeats(asked, next_ref) {
        c.paused = true;
        return Err(PageRefusal::Stopped(PageError::RepeatedCursor));
    }
    let following_list = same_text(list, "following");
    proof {
        reveal_strlit("following");
    }
    let following_complete = c.scan.following_complete;
    if !merge_all(&mut c.accounts, &page, following_list, following_complete) {
        return Err(PageRefusal::Refused(ResultError::MissingIdentity));
    }
    let found = count_followers(&c.accounts);
    let cleanup_running = c.auto_policy.is_some();
    match c.scan.finish_page(following_list, next_cursor, complete, cleanup_running, found) {
        Ok(PageProgress::FollowersComplete) => {
            if c.auto_policy.is_none() {
                c.paused = true;
            }
            Ok(PageProgress::FollowersComplete)
        },
        Ok(p) => Ok(p),
        Err(e) => {
            c.paused = true;
            Err(PageRefusal::Stopped(e))
        },
    }
}

/// Everything but the cooldown is as it was.
pub open spec fn only_pacing_changed(o: Controller, n: Controller) -> bool {
    &&& view_of(n) == view_of(o) && n.paused == o.paused
    &&& n.batch == o.batch && n.auto_policy == o.auto_policy && n.managed_run == o.managed_run
    &&& n.detach_requested == o.detach_requested
    &&& n.selected@ == o.selected@ && n.confirmation@ == o.confirmation@ && n.accounts@ == o.accounts@
    &&& n.policy == o.policy && n.pending == o.pending && n.scan == o.scan && n.owner@ == o.owner@
    &&& n.capabilities@ == o.capabilities@ && n.uncertain == o.uncertain
    &&& n.simple_running == o.simple_running
}

/// A deferral answers a removal of the same account sent for `owner`.
pub open spec fn deferral_answers(w: Work, target: Seq<char>, owner: Seq<char>) -> Result<(), ResultError> {
    match w.command {
        Command::RemoveFollower { target_id, .. } => if target_id@ != target || w.owner_id@ != owner {
            Err(ResultError::DeferredMismatch)
        } else {
            Ok(())
        },
        _ => Err(ResultError::DeferredNonRemoval),
    }
}

/// Applies a deferred removal: nothing was sent, so the target stays
/// queued and the run keeps its pause state; only the cooldown grows, to at
/// least the time the browser names. Recording the attempt as deferred is
/// left to the caller.
pub fn apply_deferred(c: &mut Controller, w: &Work, target: &str, code: &str, retry_at_ms: i64, now: i64) -> (r: Result<
    (),
    ResultError,
>)
    ensures
        r == deferral_answers(*w, target@, old(c).owner@),
        r is Err ==> *final(c) == *old(c),
        r is Ok ==> {
            &&& only_pacing_changed(*old(c), *final(c))
            &&& final(c).pacing.until_ms == retry_until(
                old(c).pacing.until_ms,
                old(c).pacing.failures,
                now,
                Some(retry_at_ms),
            )
            &&& final(c).pacing.until_ms >= retry_at_ms
            &&& final(c).pacing.failures == next_failures(old(c).pacing.failures)
            &&& final(c).pacing.reason@ == code@
            &&& final(c).pacing.attempts@ == old(c).pacing.attempts@
        },
{
    match check_deferred_result(w, target, c.owner.as_str()) {
        Err(e) => Err(e),
        Ok(()) => {
            c.pacing.retry_at(now, Some(retry_at_ms), code);
            Ok(())
        },
    }
}

/// Takes the command in flight when a result answers it.
pub fn take_pending(c: &mut Controller, command_id: &str) -> (r: Option<Work>)
    ensures
        match old(c).pending {
            Some(w) => if w.command_id@ == command_id@ {
                &&& r == Some(w)
                &&& *final(c) == Controller { pending: None, ..*old(c) }
            } else {
                r is None && *final(c) == *old(c)
            },
            None => r is None && *final(c) == *old(c),
        },
{
    let answers = match &c.pending {
        Some(w) => same_text(w.command_id.as_str(), command_id),
        None => false,
    };
    if !answers {
        return None;
    }
    let mut taken: Option<Work> = None;
    std::mem::swap(&mut taken, &mut c.pending);
    taken
}

/// The attempt a receipt settles and its status, or why it is refused.
pub open spec fn receipt_check(w: Work, result: WorkResult) -> Result<(Seq<char>, ActionStatus), ReceiptError> {
    match result {
        WorkResult::Action { target_id, status, .. } => match spec_settled_attempt(w) {
            None => Err(ReceiptError::NotAnAction),
            Some((id, target)) => if target != target_id@ {
                Err(ReceiptError::TargetMismatch)
            } else {
                match spec_action_status(status@) {
                    None => Err(ReceiptError::UnknownStatus),
                    Some(st) => Ok((id, st)),
                }
            },
        },
        _ => Err(ReceiptError::InvalidReceipt),
    }
}

/// A settled receipt, for the caller to record.
pub struct Settled {
    /// The command ID of the removal attempt.
    pub attempt_id: String,
    pub status: ActionStatus,
    /// What follows for the owner's own removal; `Continue` for another
    /// account's.
    pub follow_up: ReceiptFollowUp,
    /// The handle to show a removal tag for.
    pub tag: Option<String>,
}

/// The queue without `target`.
pub open spec fn batch_without(o: Option<Batch>, n: Option<Batch>, target: Seq<char>) -> bool {
    match o {
        None => n is None,
        Some(ob) => {
            &&& n matches Some(nb) && nb.id == ob.id && nb.policy == ob.policy
                && nb.ids@ == ob.ids@.filter(|id: String| id@ != target)
        },
    }
}

/// What a valid receipt does. For another account's removal nothing
/// changes. For the owner's own: a confirmed removal (or an account already
/// gone) ends the follow relationship, leaves the selection and resets the
/// failure count; the target leaves the queue whatever the status; a
/// failure that stops the cleanup pauses it and ends the managed run; a
/// failed or uncertain removal outside a cleanup pauses work.
pub open spec fn receipt_effect(
    o: Controller,
    n: Controller,
    w: Work,
    target: Seq<char>,
    message: Seq<char>,
    id: Seq<char>,
    st: ActionStatus,
    r: Settled,
) -> bool {
    &&& r.attempt_id@ == id && r.status == st
    &&& if w.owner_id@ != o.owner@ {
        r.follow_up == ReceiptFollowUp::Continue && r.tag is None && n == o
    } else {
        let settled = st == ActionStatus::VerifiedRemoved || st == ActionStatus::AlreadyAbsent;
        let fu = spec_receipt_follow_up(o.simple_running, st, spec_is_fatal_failure(st, message));
        &&& r.follow_up == fu
        &&& opt_view(r.tag) == spec_tag_handle(o.accounts@, target, st)
        &&& n.accounts@ == spec_settle_account(o.accounts@, target, st)
        &&& n.selected@ == (if settled {
            without_text(o.selected@, target)
        } else {
            o.selected@
        })
        &&& n.pacing.failures == (if settled {
            0
        } else {
            o.pacing.failures
        })
        &&& n.pacing.until_ms == o.pacing.until_ms && n.pacing.reason == o.pacing.reason
        &&& n.pacing.attempts == o.pacing.attempts
        &&& batch_without(o.batch, n.batch, target)
        &&& n.paused == (o.paused || fu == ReceiptFollowUp::StopCleanup || fu == ReceiptFollowUp::Pause)
        &&& n.managed_run == (o.managed_run && fu != ReceiptFollowUp::StopCleanup)
        &&& n.detach_requested == (o.detach_requested && fu != ReceiptFollowUp::Pause)
        &&& view_of(n) == view_of(o)
        &&& n.auto_policy == o.auto_policy && n.confirmation@ == o.confirmation@ && n.policy == o.policy
        &&& n.pending == o.pending && n.scan == o.scan && n.owner@ == o.owner@
        &&& n.capabilities@ == o.capabilities@ && n.uncertain == o.uncertain
        &&& n.simple_running == o.simple_running
    }
}

/// Applies a removal receipt for the attempt of `w`. Recording the outcome
/// and managing retries are left to the caller.
pub fn apply_receipt(c: &mut Controller, w: &Work, result: &WorkResult) -> (r: Result<Settled, ReceiptError>)
    requires
        old(c).well_formed(),
    ensures
        final(c).well_formed(),
        match receipt_check(*w, *result) {
            Err(e) => r == Err::<Settled, ReceiptError>(e) && *final(c) == *old(c),
            Ok((id, st)) => {
                &&& r matches Ok(s)
                &&& result matches WorkResult::Action { target_id, message, .. }
                &&& receipt_effect(*old(c), *final(c), *w, target_id@, message@, id, st, r->Ok_0)
            },
        },
{
    let (target, message) = match result {
        WorkResult::Action { target_id, message, .. } => (target_id, message),
        _ => {
            return Err(ReceiptError::InvalidReceipt);
        },
    };
    let (attempt_id, status) = match check_receipt(w, result) {
        Ok(x) => x,
        Err(e) => {
            return Err(e);
        },
    };
    if !same_text(w.owner_id.as_str(), c.owner.as_str()) {
        return Ok(Settled { attempt_id, status, follow_up: ReceiptFollowUp::Continue, tag: None });
    }
    let ghost before = c.accounts@;
    let tag = settle_account(&mut c.accounts, target.as_str(), status);
    proof {
        crate::app::lemma_find_account(before, target@);
        assert forall|j: int| 0 <= j < c.accounts@.len() implies #[trigger] c.accounts@[j].id@ == before[j].id@ by {}
    }
    if status == ActionStatus::VerifiedRemoved || status == ActionStatus::AlreadyAbsent {
        c.pacing.failures = 0;
        remove_text(&mut c.selected, target.as_str());
    }
    let mut queue: Option<Batch> = None;
    std::mem::swap(&mut queue, &mut c.batch);
    match queue {
        Some(mut b) => {
            drop_target(&mut b.ids, target.as_str());
            c.batch = Some(b);
        },
        None => {},
    }
    let follow_up = receipt_follow_up(c.simple_running, status, message.as_str());
    match follow_up {
        ReceiptFollowUp::StopCleanup => {
            c.paused = true;
            c.managed_run = false;
        },
        ReceiptFollowUp::Pause => {
            c.detach_requested = false;
            c.paused = true;
        },
        _ => {},
    }
    Ok(Settled { attempt_id, status, follow_up, tag })
}

/// What the queue asks for on a tick.
pub enum QueueTick {
    /// Send this removal.
    Send(Command),
    /// The next target's saved evidence no longer clears it; work pauses
    /// for review.
    Stalled,
    /// The queue is done.
    Finished,
}

/// What a tick does to a running queue: finished and no longer removable
/// targets leave its front; an empty queue is dropped, pausing work unless
/// Full Auto runs, with nothing sent; a front target whose evidence no
/// longer clears it pauses work; otherwise its removal is sent.
pub open spec fn queue_tick_effect(o: Controller, n: Controller, finished: Seq<String>, now: i64, r: QueueTick) -> bool {
    match o.batch {
        None => false,
        Some(ob) => {
            let ids = spec_trim_queue(ob.ids@, finished, o.accounts@);
            &&& view_of(n) == view_of(o)
            &&& n.auto_policy == o.auto_policy && n.managed_run == o.managed_run
            &&& n.detach_requested == o.detach_requested
            &&& n.selected@ == o.selected@ && n.confirmation@ == o.confirmation@ && n.accounts@ == o.accounts@
            &&& n.policy == o.policy && n.pending == o.pending && n.scan == o.scan && n.pacing == o.pacing
            &&& n.owner@ == o.owner@ && n.capabilities@ == o.capabilities@ && n.uncertain == o.uncertain
            &&& n.simple_running == o.simple_running
            &&& match spec_batch_step(ids, o.accounts@, ob.policy, now) {
                BatchStep::Finished => r is Finished && n.batch is None && n.paused == (o.paused
                    || o.auto_policy is None),
                BatchStep::StaleApproval => {
                    &&& r is Stalled && n.paused
                    &&& n.batch matches Some(nb) && nb.id == ob.id && nb.policy == ob.policy && nb.ids@ == ids
                },
                BatchStep::Remove(i) => {
                    &&& n.paused == o.paused
                    &&& n.batch matches Some(nb) && nb.id == ob.id && nb.policy == ob.policy && nb.ids@ == ids
                    &&& r matches QueueTick::Send(
                        Command::RemoveFollower { target_id, batch_id, policy, deadline_ms, approved_account },
                    )
                    &&& target_id@ == o.accounts@[i as int].id@ && batch_id@ == ob.id@ && policy == ob.policy
                    &&& deadline_ms == now + REMOVAL_DEADLINE_MS
                    &&& approved_account == Some(Box::new(o.accounts@[i as int]))
                },
            }
        },
    }
}

/// Takes the queue's next step. `finished` are the targets whose attempt is
/// already settled.
pub fn queue_tick(c: &mut Controller, finished: &Vec<String>, now: i64) -> (r: QueueTick)
    requires
        old(c).batch is Some,
        now <= i64::MAX - REMOVAL_DEADLINE_MS,
    ensures
        queue_tick_effect(*old(c), *final(c), finished@, now, r),
{
    let mut queue: Option<Batch> = None;
    std::mem::swap(&mut queue, &mut c.batch);
    let mut b = match queue {
        Some(b) => b,
        None => {
            return QueueTick::Finished;
        },
    };
    let step = batch_step(&mut b, finished, &c.accounts, now);
    match step {
        BatchStep::Finished => {
            if c.auto_policy.is_none() {
                c.paused = true;
            }
            QueueTick::Finished
        },
        BatchStep::StaleApproval => {
            c.batch = Some(b);
            c.paused = true;
            QueueTick::Stalled
        },
        BatchStep::Remove(i) => {
            proof {
                lemma_batch_step_in_bounds(b.ids@, c.accounts@, b.policy, now);
            }
            let command = removal_command(&b, &c.accounts[i], now);
            c.batch = Some(b);
            QueueTick::Send(command)
        },
    }
}

/// A removal step names an account of the inventory.
proof fn lemma_batch_step_in_bounds(ids: Seq<String>, accounts: Seq<crate::model::Account>, p: crate::model::Policy, now: i64)
    ensures
        spec_batch_step(ids, accounts, p, now) matches BatchStep::Remove(i) ==> i < accounts.len(),
{
    if ids.len() > 0 {
        lemma_find_account(accounts, ids[0]@);
    }
}

/// Applies processing settings sent by the manager: out-of-range settings
/// are refused; otherwise only the delay and the hourly budget change.
pub fn apply_settings(c: &mut Controller, p: &Policy) -> (r: Result<(), ControlError>)
    ensures
        r == (if 5 <= p.delay_seconds <= 300 && 1 <= p.batch_limit <= 500 {
            Ok(())
        } else {
            Err::<(), ControlError>(ControlError::SettingsOutOfRange)
        }),
        r is Err ==> *final(c) == *old(c),
        r is Ok ==> {
            &&& view_of(*final(c)) == view_of(*old(c)) && work_of(*final(c)) == work_of(*old(c))
            &&& rest_of(*final(c)) == rest_of(*old(c))
            &&& data_of(*final(c)) == (
                old(c).selected@,
                old(c).confirmation@,
                old(c).accounts@,
                with_pacing(old(c).policy, *p),
            )
        },
{
    match check_settings(p) {
        Err(e) => Err(e),
        Ok(()) => {
            c.policy.delay_seconds = p.delay_seconds;
            c.policy.batch_limit = p.batch_limit;
            Ok(())
        },
    }
}

/// What is left of a queue after its unremovable front is dropped is a
/// suffix of it.
proof fn lemma_drop_unremovable_suffix(ids: Seq<String>, accounts: Seq<Account>)
    ensures
        exists|d: int| 0 <= d <= ids.len() && crate::app::drop_unremovable(ids, accounts) == ids.skip(d),
    decreases ids.len(),
{
    if ids.len() == 0 || crate::app::still_removable(accounts, ids[0]@) {
        assert(ids.skip(0) =~= ids);
    } else {
        lemma_drop_unremovable_suffix(ids.drop_first(), accounts);
        let d = choose|d: int|
            0 <= d <= ids.drop_first().len() && crate::app::drop_unremovable(ids.drop_first(), accounts)
                == ids.drop_first().skip(d);
        assert(ids.drop_first().skip(d) =~= ids.skip(d + 1));
    }
}

/// Law: a removal whose attempt is already settled is never sent again,
/// even where the saved queue still lists it.
pub proof fn law_settled_removal_never_resent(
    o: Controller,
    n: Controller,
    finished: Seq<String>,
    now: i64,
    r: QueueTick,
)
    requires
        queue_tick_effect(o, n, finished, now, r),
    ensures
        r matches QueueTick::Send(Command::RemoveFollower { target_id, .. }) ==> !crate::app::seq_has_text(
            finished,
            target_id@,
        ),
{
    let ob = o.batch->0;
    let pred = |id: String| !crate::app::seq_has_text(finished, id@);
    let pending = ob.ids@.filter(pred);
    let ids = spec_trim_queue(ob.ids@, finished, o.accounts@);
    if spec_batch_step(ids, o.accounts@, ob.policy, now) is Remove {
        lemma_drop_unremovable_suffix(pending, o.accounts@);
        let d = choose|d: int| 0 <= d <= pending.len() && crate::app::drop_unremovable(pending, o.accounts@) == pending.skip(d);
        lemma_find_account(o.accounts@, ids[0]@);
        assert(d < pending.len());
        assert(ids[0] == pending[d]);
        ob.ids@.lemma_filter_pred(pred, d);
        assert(!crate::app::seq_has_text(finished, ids[0]@));
        let j = spec_find_account(o.accounts@, ids[0]@)->0;
        crate::controller::lemma_vec_len_bound(o.accounts);
        assert(j as usize as int == j);
    }
}

/// What the journal holds for an account, loaded once it is identified.
pub struct Saved {
    pub accounts: Vec<Account>,
    pub scan: crate::app::Scan,
    pub batch: Option<Batch>,
    pub pacing: crate::pacing::Pacing,
    pub auto_policy: Option<Policy>,
}

/// An identity answer is accepted for an identity request, from a current
/// adapter (any in demo mode), naming both an account and a handle.
pub open spec fn session_answers(
    w: Work,
    owner_id: Seq<char>,
    handle: Seq<char>,
    capabilities: Seq<String>,
    demo: bool,
) -> Result<(), ResultError> {
    if !(w.command is GetSession) {
        Err(ResultError::UnexpectedSession)
    } else if !crate::schedule::adapter_ready(demo, capabilities) {
        Err(ResultError::ExtensionOutdated)
    } else if owner_id.len() == 0 || handle.len() == 0 {
        Err(ResultError::NoSignedInAccount)
    } else {
        Ok(())
    }
}

/// Applies an identity answer. The list (or the pairing guide) is shown,
/// confirmations and selections made before are dropped, work is paused,
/// and the identified account's saved inventory, collection state, queue,
/// cooldown and Full Auto rules are loaded; a running Full Auto's rules
/// become the current rules.
pub fn apply_session(
    c: &mut Controller,
    w: &Work,
    owner_id: String,
    handle: &str,
    capabilities: Vec<String>,
    demo: bool,
    saved: Saved,
) -> (r: Result<(), ResultError>)
    requires
        ids_unique(saved.accounts@),
        crate::app::cursors_distinct(saved.scan.cursors@),
    ensures
        r == session_answers(*w, owner_id@, handle@, capabilities@, demo),
        r is Err ==> *final(c) == *old(c),
        r is Ok ==> {
            &&& final(c).well_formed()
            &&& final(c).mode == (if old(c).mode == crate::app::Mode::Setup {
                crate::app::Mode::Setup
            } else {
                crate::app::Mode::Browse
            })
            &&& final(c).confirmation@.len() == 0 && final(c).selected@.len() == 0
            &&& final(c).paused && final(c).focus == 0
            &&& final(c).owner@ == owner_id@ && final(c).capabilities@ == capabilities@
            &&& final(c).accounts@ == saved.accounts@ && final(c).scan == saved.scan
            &&& final(c).batch == saved.batch && final(c).pacing == saved.pacing
            &&& final(c).auto_policy == saved.auto_policy
            &&& final(c).policy == (match saved.auto_policy {
                Some(p) => p,
                None => old(c).policy,
            })
            &&& final(c).query@ == old(c).query@ && final(c).only_matching == old(c).only_matching
            &&& final(c).show_queue_list == old(c).show_queue_list
            &&& final(c).filter_row == old(c).filter_row && final(c).modal_scroll == old(c).modal_scroll
            &&& final(c).managed_run == old(c).managed_run
            &&& final(c).detach_requested == old(c).detach_requested
            &&& final(c).pending == old(c).pending && final(c).uncertain == old(c).uncertain
            &&& final(c).simple_running == old(c).simple_running
        },
{
    match check_session_result(w, owner_id.as_str(), handle, &capabilities, demo) {
        Err(e) => {
            return Err(e);
        },
        Ok(()) => {},
    }
    if c.mode != crate::app::Mode::Setup {
        c.mode = crate::app::Mode::Browse;
    }
    c.confirmation = Vec::new();
    c.paused = true;
    c.owner = owner_id;
    c.capabilities = capabilities;
    c.selected = Vec::new();
    c.focus = 0;
    let Saved { accounts, scan, batch, pacing, auto_policy } = saved;
    c.accounts = accounts;
    c.scan = scan;
    c.batch = batch;
    c.pacing = pacing;
    match &auto_policy {
        Some(p) => {
            c.policy = p.clone();
        },
        None => {},
    }
    c.auto_policy = auto_policy;
    Ok(())
}

/// An account answer is accepted for an activity check of the same
/// account, sent for `owner`.
pub open spec fn account_answers(w: Work, id: Seq<char>, owner: Seq<char>) -> Result<(), ResultError> {
    match w.command {
        Command::InspectAccount { target_id, .. } => if target_id@ != id || w.owner_id@ != owner {
            Err(ResultError::AccountMismatch)
        } else {
            Ok(())
        },
        _ => Err(ResultError::UnexpectedAccount),
    }
}

/// The inventory with `a` in place of its saved record, or added at the end.
pub open spec fn put_account(accounts: Seq<Account>, a: Account) -> Seq<Account> {
    match spec_find_account(accounts, a.id@) {
        Some(i) => accounts.update(i, a),
        None => accounts.push(a),
    }
}

/// Applies the answer of an activity check. The checked account keeps the
/// Keep choice of its saved record and replaces it. While Full Auto runs,
/// an account that clears Full Auto's rules becomes a queue of its own,
/// named `batch_id`. During a cleanup the caller gets what the check asks
/// for next.
pub fn apply_account(
    c: &mut Controller,
    w: &Work,
    account: Account,
    batch_id: String,
    now: i64,
) -> (r: Result<Option<CheckFollowUp>, ResultError>)
    requires
        old(c).well_formed(),
    ensures
        final(c).well_formed(),
        r is Err ==> *final(c) == *old(c) && r == Err::<Option<CheckFollowUp>, ResultError>(
            account_answers(*w, account.id@, old(c).owner@)->Err_0,
        ),
        account_answers(*w, account.id@, old(c).owner@) is Err <==> r is Err,
        r is Ok ==> {
            let checked = Account { kept: spec_kept_in(old(c).accounts@, account.id@), ..account };
            &&& final(c).accounts@ == put_account(old(c).accounts@, checked)
            &&& match old(c).auto_policy {
                Some(p) => if checked.spec_reason(p, now as int) is Ok {
                    final(c).batch matches Some(b) && b.id@ == batch_id@ && b.ids@.len() == 1
                        && b.ids@[0]@ == account.id@ && b.policy == p
                } else {
                    final(c).batch == old(c).batch
                },
                None => final(c).batch == old(c).batch,
            }
            &&& r == Ok::<Option<CheckFollowUp>, ResultError>(
                if old(c).simple_running {
                    Some(spec_check_follow_up(checked, old(c).policy, now))
                } else {
                    None
                },
            )
            &&& view_of(*final(c)) == view_of(*old(c)) && final(c).paused == old(c).paused
            &&& final(c).auto_policy == old(c).auto_policy && final(c).managed_run == old(c).managed_run
            &&& final(c).detach_requested == old(c).detach_requested
            &&& final(c).selected@ == old(c).selected@ && final(c).confirmation@ == old(c).confirmation@
            &&& final(c).policy == old(c).policy && final(c).pending == old(c).pending
            &&& final(c).scan == old(c).scan && final(c).pacing == old(c).pacing
            &&& final(c).owner@ == old(c).owner@ && final(c).capabilities@ == old(c).capabilities@
            &&& final(c).uncertain == old(c).uncertain && final(c).simple_running == old(c).simple_running
        },
{
    match check_account_result(w, account.id.as_str(), c.owner.as_str()) {
        Err(e) => {
            return Err(e);
        },
        Ok(()) => {},
    }
    let mut checked = account;
    inherit_keep(&mut checked, &c.accounts);
    match &c.auto_policy {
        Some(p) => {
            if checked.reason(p, now).is_ok() {
                let mut ids: VecDeque<String> = VecDeque::new();
                ids.push_back(checked.id.clone());
                c.batch = Some(Batch { id: batch_id, ids, policy: p.clone() });
            }
        },
        None => {},
    }
    let follow_up = if c.simple_running {
        Some(check_follow_up(&checked, &c.policy, now))
    } else {
        None
    };
    let ghost before = c.accounts@;
    match find_account(&c.accounts, checked.id.as_str()) {
        Some(i) => {
            c.accounts.set(i, checked);
        },
        None => {
            c.accounts.push(checked);
        },
    }
    proof {
        lemma_find_account(before, account.id@);
    }
    Ok(follow_up)
}

/// Opens a tick: decides whether work may be sent, and pauses work when
/// the adapter or the saved scan is out of date.
pub fn gate_tick(c: &mut Controller, connected: bool, early: bool, now: i64, demo: bool) -> (r: crate::schedule::Gate)
    ensures
        r == crate::schedule::spec_tick_gate(
            old(c).mode,
            old(c).paused,
            old(c).pending is Some,
            connected,
            early,
            now,
            old(c).pacing.until_ms,
            old(c).uncertain,
            old(c).simple_running,
            demo,
            old(c).capabilities@,
            old(c).scan.adapter_revision,
            old(c).scan.phase@,
        ),
        (r is AdapterOutdated || r is OldScan) ==> *final(c) == (Controller { paused: true, ..*old(c) }),
        !(r is AdapterOutdated || r is OldScan) ==> *final(c) == *old(c),
{
    let gate = crate::schedule::tick_gate(
        c.mode,
        c.paused,
        c.pending.is_some(),
        connected,
        early,
        now,
        c.pacing.until_ms,
        c.uncertain,
        c.simple_running,
        demo,
        &c.capabilities,
        &c.scan,
    );
    match gate {
        crate::schedule::Gate::AdapterOutdated | crate::schedule::Gate::OldScan => {
            c.paused = true;
        },
        _ => {},
    }
    gate
}

/// Error codes after which a cleanup sets the account aside for a later
/// try and goes on with the others.
pub open spec fn is_skip_code(code: Seq<char>) -> bool {
    code == "http_404"@ || code == "operation_unavailable"@ || code == "invalid_response"@ || code
        == "worker_error"@
}

fn skip_code(code: &str) -> (r: bool)
    ensures
        r == is_skip_code(code@),
{
    same_text(code, "http_404") || same_text(code, "operation_unavailable") || same_text(code, "invalid_response")
        || same_text(code, "worker_error")
}

/// What a browser error leaves to the caller.
pub enum ErrorOutcome {
    /// A cleanup sets the checked account aside for a later try; nothing
    /// else changes.
    RetryLater,
    /// The error was applied. A failed removal was settled as uncertain;
    /// a read may be retried automatically after the cooldown.
    Handled { settled: Option<Settled>, retries_read: bool },
}

/// What an error does after any failed removal is settled: rate limits and
/// network loss extend the cooldown; unless the failed read is retried
/// automatically, work pauses.
pub open spec fn error_effect(
    m: Controller,
    n: Controller,
    w: Work,
    code: Seq<char>,
    retry_at_ms: Option<i64>,
    now: i64,
) -> bool {
    let reads = crate::app::spec_error_retries_read(w.command, code, m.simple_running);
    &&& n.paused == (m.paused || !reads)
    &&& n.detach_requested == (m.detach_requested && reads)
    &&& if crate::app::spec_is_backoff_code(code) {
        &&& n.pacing.until_ms == retry_until(m.pacing.until_ms, m.pacing.failures, now, retry_at_ms)
        &&& n.pacing.failures == next_failures(m.pacing.failures)
        &&& n.pacing.reason@ == code
        &&& n.pacing.attempts@ == m.pacing.attempts@
    } else {
        n.pacing == m.pacing
    }
    &&& view_of(n) == view_of(m)
    &&& n.batch == m.batch && n.auto_policy == m.auto_policy && n.managed_run == m.managed_run
    &&& n.selected@ == m.selected@ && n.confirmation@ == m.confirmation@ && n.accounts@ == m.accounts@
    &&& n.policy == m.policy && n.pending == m.pending && n.scan == m.scan && n.owner@ == m.owner@
    &&& n.capabilities@ == m.capabilities@ && n.uncertain == m.uncertain
    &&& n.simple_running == m.simple_running
}

/// A handled error: a failed removal is settled as uncertain first, then
/// the error itself takes effect.
pub open spec fn error_handled(
    o: Controller,
    n: Controller,
    w: Work,
    code: Seq<char>,
    message: Seq<char>,
    retry_at_ms: Option<i64>,
    now: i64,
    r: ErrorOutcome,
) -> bool {
    match r {
        ErrorOutcome::RetryLater => false,
        ErrorOutcome::Handled { settled, retries_read } => {
            &&& retries_read == crate::app::spec_error_retries_read(w.command, code, o.simple_running)
            &&& exists|m: Controller|
                {
                    &&& m.simple_running == o.simple_running
                    &&& match w.command {
                        Command::RemoveFollower { target_id, .. } => {
                            &&& settled matches Some(s)
                            &&& receipt_effect(o, m, w, target_id@, message, w.command_id@, ActionStatus::Uncertain, settled->0)
                        },
                        _ => settled is None && m == o,
                    }
                    &&& error_effect(m, n, w, code, retry_at_ms, now)
                }
        },
    }
}

/// Applies an error the browser reports for `w`.
pub fn apply_error(
    c: &mut Controller,
    w: &Work,
    code: &str,
    message: &str,
    retry_at_ms: Option<i64>,
    now: i64,
) -> (r: ErrorOutcome)
    requires
        old(c).well_formed(),
    ensures
        final(c).well_formed(),
        ({
            let skip = old(c).simple_running && is_skip_code(code@) && (w.command is InspectAccount
                || w.command is Reconcile);
            &&& skip ==> r is RetryLater && *final(c) == *old(c)
            &&& !skip ==> error_handled(*old(c), *final(c), *w, code@, message@, retry_at_ms, now, r)
        }),
{
    let is_check = match &w.command {
        Command::InspectAccount { .. } | Command::Reconcile { .. } => true,
        _ => false,
    };
    if c.simple_running && skip_code(code) && is_check {
        return ErrorOutcome::RetryLater;
    }
    let ghost o = *c;
    let settled = match &w.command {
        Command::RemoveFollower { target_id, .. } => {
            let receipt = WorkResult::Action {
                target_id: target_id.clone(),
                status: "uncertain".to_owned(),
                message: message.to_owned(),
            };
            proof {
                reveal_strlit("uncertain");
                reveal_strlit("verified_removed");
                reveal_strlit("already_absent");
                reveal_strlit("skipped");
                reveal_strlit("failed");
                assert("uncertain"@.len() == 9 && "verified_removed"@.len() == 16);
                assert("already_absent"@.len() == 14 && "skipped"@.len() == 7 && "failed"@.len() == 6);
            }
            match apply_receipt(c, w, &receipt) {
                Ok(s) => Some(s),
                Err(_) => None,
            }
        },
        _ => None,
    };
    let ghost m = *c;
    let reads = crate::app::error_retries_read(&w.command, code, c.simple_running);
    if crate::app::is_backoff_code(code) {
        c.pacing.retry_at(now, retry_at_ms, code);
    }
    if !reads {
        c.paused = true;
        c.detach_requested = false;
    }
    proof {
        assert(error_effect(m, *c, *w, code@, retry_at_ms, now));
    }
    ErrorOutcome::Handled { settled, retries_read: reads }
}

} // verus!
