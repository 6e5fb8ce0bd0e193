//! What the controller makes of a browser result: whether the result
//! answers the command that was sent, what it changes in the saved
//! inventory, whether an account is tried again, and how long the next
//! command waits.
use crate::app::{find_account, seq_has_text, spec_find_account, ActionStatus};
use crate::model::{Account, Policy};
use crate::pacing::Pacing;
use crate::protocol::{Command, Work};
use crate::schedule::{adapter_ready, has_capability};
use crate::text::{chars_of, same_text};
use std::collections::VecDeque;
use vstd::prelude::*;

verus! {

broadcast use vstd::std_specs::vecdeque::axiom_spec_len;

/// Why a browser result is refused.
#[derive(Clone, Copy, Debug, PartialEq, Eq, Structural)]
pub enum ResultError {
    UnexpectedSession,
    ExtensionOutdated,
    NoSignedInAccount,
    UnexpectedPage,
    PageMismatch,
    MissingIdentity,
    UnexpectedAccount,
    AccountMismatch,
    DeferredNonRemoval,
    DeferredMismatch,
    RecoveryOwnerMismatch,
}

/// The text shown for each refused result.
pub open spec fn result_error_text(e: ResultError) -> Seq<char> {
    match e {
        ResultError::UnexpectedSession => "Unexpected session response"@,
        ResultError::ExtensionOutdated => "Chrome extension is out of date. Reload remover in chrome://extensions, then Connect terminal."@,
        ResultError::NoSignedInAccount => "X did not identify a signed-in account. Sign in, then retry (r)."@,
        ResultError::UnexpectedPage => "Unexpected page response"@,
        ResultError::PageMismatch => "Page owner or kind mismatch"@,
        ResultError::MissingIdentity => "Missing account identity"@,
        ResultError::UnexpectedAccount => "Unexpected account response"@,
        ResultError::AccountMismatch => "Account response identity mismatch"@,
        ResultError::DeferredNonRemoval => "Deferred response for non-removal"@,
        ResultError::DeferredMismatch => "Deferred target mismatch"@,
        ResultError::RecoveryOwnerMismatch => "Recovery owner mismatch"@,
    }
}

impl ResultError {
    /// The text shown for this refusal.
    pub fn message(&self) -> (r: &'static str)
        ensures
            r@ == result_error_text(*self),
    {
        match self {
            ResultError::UnexpectedSession => "Unexpected session response",
            ResultError::ExtensionOutdated => "Chrome extension is out of date. Reload remover in chrome://extensions, then Connect terminal.",
            ResultError::NoSignedInAccount => "X did not identify a signed-in account. Sign in, then retry (r).",
            ResultError::UnexpectedPage => "Unexpected page response",
            ResultError::PageMismatch => "Page owner or kind mismatch",
            ResultError::MissingIdentity => "Missing account identity",
            ResultError::UnexpectedAccount => "Unexpected account response",
            ResultError::AccountMismatch => "Account response identity mismatch",
            ResultError::DeferredNonRemoval => "Deferred response for non-removal",
            ResultError::DeferredMismatch => "Deferred target mismatch",
            ResultError::RecoveryOwnerMismatch => "Recovery owner mismatch",
        }
    }
}

/// An identity answer is accepted for an identity request only, from a
/// current adapter (any in demo mode), naming both an account and a handle.
pub fn check_session_result(
    w: &Work,
    owner_id: &str,
    handle: &str,
    capabilities: &Vec<String>,
    demo: bool,
) -> (r: Result<(), ResultError>)
    ensures
        r == (if !(w.command is GetSession) {
            Err::<(), ResultError>(ResultError::UnexpectedSession)
        } else if !adapter_ready(demo, capabilities@) {
            Err::<(), ResultError>(ResultError::ExtensionOutdated)
        } else if owner_id@.len() == 0 || handle@.len() == 0 {
            Err::<(), ResultError>(ResultError::NoSignedInAccount)
        } else {
            Ok(())
        }),
{
    if !matches!(w.command, Command::GetSession) {
        return Err(ResultError::UnexpectedSession);
    }
    if !demo && !has_capability(capabilities, "adapter:2") {
        return Err(ResultError::ExtensionOutdated);
    }
    if owner_id.unicode_len() == 0 || handle.unicode_len() == 0 {
        return Err(ResultError::NoSignedInAccount);
    }
    Ok(())
}

/// A page is accepted for a page request of the same list, sent for the
/// current owner, and only if every account on it has an ID.
pub open spec fn spec_check_page_result(
    w: Work,
    list: Seq<char>,
    accounts: Seq<Account>,
    owner: Seq<char>,
) -> Result<(), ResultError> {
    match w.command {
        Command::ScanPage { list: expected, .. } => if list != expected@ || w.owner_id@ != owner {
            Err(ResultError::PageMismatch)
        } else if exists|k: int| 0 <= k < accounts.len() && (#[trigger] accounts[k]).id@.len() == 0 {
            Err(ResultError::MissingIdentity)
        } else {
            Ok(())
        },
        _ => Err(ResultError::UnexpectedPage),
    }
}

fn missing_identity(accounts: &Vec<Account>) -> (r: bool)
    ensures
        r == exists|k: int| 0 <= k < accounts@.len() && (#[trigger] accounts@[k]).id@.len() == 0,
{
    let mut k: usize = 0;
    while k < accounts.len()
        invariant
            k <= accounts@.len(),
            forall|j: int| 0 <= j < k ==> (#[trigger] accounts@[j]).id@.len() != 0,
        decreases accounts@.len() - k,
    {
        if accounts[k].id.as_str().unicode_len() == 0 {
            proof {
                assert(accounts@[k as int].id@.len() == 0);
            }
            return true;
        }
        k = k + 1;
    }
    false
}

/// Checks that a page answers the page request `w` for `owner`.
pub fn check_page_result(w: &Work, list: &str, accounts: &Vec<Account>, owner: &str) -> (r: Result<
    (),
    ResultError,
>)
    ensures
        r == spec_check_page_result(*w, list@, accounts@, owner@),
{
    let expected = match &w.command {
        Command::ScanPage { list: expected, .. } => expected,
        _ => {
            return Err(ResultError::UnexpectedPage);
        },
    };
    if !same_text(list, expected.as_str()) || !same_text(w.owner_id.as_str(), owner) {
        return Err(ResultError::PageMismatch);
    }
    if missing_identity(accounts) {
        return Err(ResultError::MissingIdentity);
    }
    Ok(())
}

/// An account answer is accepted for an activity check of the same account,
/// sent for the current owner.
pub fn check_account_result(w: &Work, account_id: &str, owner: &str) -> (r: Result<(), ResultError>)
    ensures
        r == (match w.command {
            Command::InspectAccount { target_id, .. } => if target_id@ != account_id@ || w.owner_id@
                != owner@ {
                Err::<(), ResultError>(ResultError::AccountMismatch)
            } else {
                Ok(())
            },
            _ => Err::<(), ResultError>(ResultError::UnexpectedAccount),
        }),
{
    match &w.command {
        Command::InspectAccount { target_id, .. } => {
            if !same_text(target_id.as_str(), account_id) || !same_text(w.owner_id.as_str(), owner) {
                Err(ResultError::AccountMismatch)
            } else {
                Ok(())
            }
        },
        _ => Err(ResultError::UnexpectedAccount),
    }
}

/// A deferral is accepted for a removal of the same account, sent for the
/// current owner.
pub fn check_deferred_result(w: &Work, target: &str, owner: &str) -> (r: Result<(), ResultError>)
    ensures
        r == (match w.command {
            Command::RemoveFollower { target_id, .. } => if target_id@ != target@ || w.owner_id@
                != owner@ {
                Err::<(), ResultError>(ResultError::DeferredMismatch)
            } else {
                Ok(())
            },
            _ => Err::<(), ResultError>(ResultError::DeferredNonRemoval),
        }),
{
    match &w.command {
        Command::RemoveFollower { target_id, .. } => {
            if !same_text(target_id.as_str(), target) || !same_text(w.owner_id.as_str(), owner) {
                Err(ResultError::DeferredMismatch)
            } else {
                Ok(())
            }
        },
        _ => Err(ResultError::DeferredNonRemoval),
    }
}

/// A recovered receipt is accepted only for the owner that sent the stored
/// command.
pub fn check_recovery_owner(stored_owner: &str, reported_owner: &str) -> (r: Result<(), ResultError>)
    ensures
        r == (if stored_owner@ != reported_owner@ {
            Err::<(), ResultError>(ResultError::RecoveryOwnerMismatch)
        } else {
            Ok(())
        }),
{
    if !same_text(stored_owner, reported_owner) {
        Err(ResultError::RecoveryOwnerMismatch)
    } else {
        Ok(())
    }
}

/// Whether the saved account with ID `id` is kept.
pub open spec fn spec_kept_in(accounts: Seq<Account>, id: Seq<char>) -> bool {
    match spec_find_account(accounts, id) {
        Some(i) => accounts[i].kept,
        None => false,
    }
}

/// A freshly checked account keeps the Keep choice of its saved record and
/// nothing else of it.
pub fn inherit_keep(account: &mut Account, accounts: &Vec<Account>)
    ensures
        *final(account) == (Account { kept: spec_kept_in(accounts@, old(account).id@), ..*old(account) }),
{
    let kept = match find_account(accounts, account.id.as_str()) {
        Some(i) => accounts[i].kept,
        None => false,
    };
    account.kept = kept;
}

/// What a cleanup does with an account after its activity check.
#[derive(Clone, Copy, Debug, PartialEq, Eq, Structural)]
pub enum CheckFollowUp {
    /// The evidence was incomplete; the account is tried again later.
    Retry,
    /// The account is protected for good; its retry record is dropped.
    Forget,
    /// The account cleared; nothing changes.
    Proceed,
}

/// After a check during a cleanup: unknown visibility, an unchecked
/// verification or an unknown following relationship is retried; any other protection ends the
/// account's retries; a cleared account proceeds.
pub open spec fn spec_check_follow_up(a: Account, p: Policy, now: i64) -> CheckFollowUp {
    let reason = a.spec_reason(p, now as int);
    if a.protected is None || reason == Err::<Seq<char>, Seq<char>>("Verification not checked"@)
        || reason == Err::<Seq<char>, Seq<char>>("Following relationship unknown"@) {
        CheckFollowUp::Retry
    } else if reason is Err {
        CheckFollowUp::Forget
    } else {
        CheckFollowUp::Proceed
    }
}

/// Decides what a cleanup does with a checked account.
pub fn check_follow_up(a: &Account, p: &Policy, now: i64) -> (r: CheckFollowUp)
    ensures
        r == spec_check_follow_up(*a, *p, now),
{
    let reason = a.reason(p, now);
    let relationship_unknown = match reason {
        Err(e) => same_text(e, "Verification not checked") || same_text(
            e,
            "Following relationship unknown",
        ),
        Ok(_) => false,
    };
    if a.protected.is_none() || relationship_unknown {
        CheckFollowUp::Retry
    } else if reason.is_err() {
        CheckFollowUp::Forget
    } else {
        CheckFollowUp::Proceed
    }
}

/// The pause after a result, in seconds: a removal waits for the delay of
/// its queue's rules (or the current rules without a queue); anything else
/// waits two seconds.
pub fn result_pause_seconds(command: &Command, queue_delay: Option<u32>, delay_seconds: u32) -> (r: u32)
    ensures
        r == (if command is RemoveFollower {
            match queue_delay {
                Some(d) => d,
                None => delay_seconds,
            }
        } else {
            2
        }),
{
    if matches!(command, Command::RemoveFollower { .. }) {
        match queue_delay {
            Some(d) => d,
            None => delay_seconds,
        }
    } else {
        2
    }
}

/// The latest start of the next pause that the clock allows.
pub const LAST_PAUSE_START_MS: i64 = 9_223_367_741_887_480_807;

/// Extends the cooldown so that no removal starts within `seconds` of
/// `now`; a longer cooldown already set stands.
pub fn extend_cooldown(pacing: &mut Pacing, now: i64, seconds: u32)
    requires
        now <= LAST_PAUSE_START_MS,
    ensures
        final(pacing).until_ms == (if old(pacing).until_ms >= now + seconds * 1000 {
            old(pacing).until_ms as int
        } else {
            now + seconds * 1000
        }),
        final(pacing).attempts == old(pacing).attempts,
        final(pacing).failures == old(pacing).failures,
        final(pacing).reason == old(pacing).reason,
{
    assert(LAST_PAUSE_START_MS + 4_294_967_295_000 == i64::MAX);
    let end = now + (seconds as i64) * 1000;
    if pacing.until_ms < end {
        pacing.until_ms = end;
    }
}

/// The browser task a failed command was part of.
pub open spec fn spec_error_task(command: Command) -> Seq<char> {
    match command {
        Command::ScanPage { list, .. } => list@ + " collection"@,
        Command::InspectAccount { .. } => "activity check"@,
        _ => "browser task"@,
    }
}

/// `s` without its trailing full stops.
pub open spec fn trim_trailing_dots(s: Seq<char>) -> Seq<char>
    decreases s.len(),
{
    if s.len() > 0 && s.last() == '.' {
        trim_trailing_dots(s.drop_last())
    } else {
        s
    }
}

proof fn lemma_trim_prefix(s: Seq<char>, end: int)
    requires
        0 <= end <= s.len(),
        forall|k: int| end <= k < s.len() ==> s[k] == '.',
    ensures
        trim_trailing_dots(s) == trim_trailing_dots(s.subrange(0, end)),
    decreases s.len() - end,
{
    if end < s.len() {
        assert(s.drop_last() == s.subrange(0, s.len() - 1));
        assert(s.subrange(0, s.len() - 1).subrange(0, end) =~= s.subrange(0, end));
        lemma_trim_prefix(s.drop_last(), end);
    } else {
        assert(s.subrange(0, end) =~= s);
    }
}

/// The notice shown for a failed command: whether work waits and retries
/// or pauses, the task, the error code, and the message without trailing
/// full stops.
pub open spec fn spec_error_notice(
    retries: bool,
    command: Command,
    code: Seq<char>,
    message: Seq<char>,
) -> Seq<char> {
    (if retries {
        "Waiting; retries automatically"@
    } else {
        "Paused"@
    }) + " during "@ + spec_error_task(command) + ": "@ + code + ": "@ + trim_trailing_dots(message)
}

/// Writes the notice for a failed command.
pub fn error_notice(retries: bool, command: &Command, code: &str, message: &str) -> (r: String)
    ensures
        r@ == spec_error_notice(retries, *command, code@, message@),
{
    let mut s = if retries {
        "Waiting; retries automatically".to_owned()
    } else {
        "Paused".to_owned()
    };
    s.append(" during ");
    match command {
        Command::ScanPage { list, .. } => {
            s.append(list.as_str());
            s.append(" collection");
        },
        Command::InspectAccount { .. } => s.append("activity check"),
        _ => s.append("browser task"),
    }
    s.append(": ");
    s.append(code);
    s.append(": ");
    let m = chars_of(message);
    let mut end: usize = m.len();
    while end > 0 && m[end - 1] == '.'
        invariant
            end <= m@.len(),
            m@ == message@,
            forall|k: int| end <= k < m@.len() ==> m@[k] == '.',
        decreases end,
    {
        end = end - 1;
    }
    proof {
        lemma_trim_prefix(m@, end as int);
        assert(end == 0 || m@.subrange(0, end as int).last() != '.');
        assert(trim_trailing_dots(m@.subrange(0, end as int)) == m@.subrange(0, end as int));
    }
    let ghost base = s@;
    let mut k: usize = 0;
    while k < end
        invariant
            k <= end <= m@.len(),
            s@ == base + m@.subrange(0, k as int),
        decreases end - k,
    {
        s.push(m[k]);
        proof {
            assert(m@.subrange(0, k + 1) =~= m@.subrange(0, k as int).push(m@[k as int]));
        }
        k = k + 1;
    }
    s
}

/// A settled removal ends the follow relationship: the account is known
/// not to follow any more.
pub open spec fn spec_settle_account(accounts: Seq<Account>, target: Seq<char>, status: ActionStatus) -> Seq<Account> {
    if status == ActionStatus::VerifiedRemoved || status == ActionStatus::AlreadyAbsent {
        match spec_find_account(accounts, target) {
            Some(i) => accounts.update(i, Account { follows_me: Some(false), ..accounts[i] }),
            None => accounts,
        }
    } else {
        accounts
    }
}

/// The handle a receipt shows a removal tag for: only a confirmed removal
/// of a known account not already known to have left gets one.
pub open spec fn spec_tag_handle(accounts: Seq<Account>, target: Seq<char>, status: ActionStatus) -> Option<Seq<char>> {
    if status == ActionStatus::VerifiedRemoved {
        match spec_find_account(accounts, target) {
            Some(i) => if accounts[i].follows_me != Some(false) {
                Some(accounts[i].handle@)
            } else {
                None
            },
            None => None,
        }
    } else {
        None
    }
}

/// Records a receipt in the inventory. Returns the handle to show a
/// removal tag for: only a confirmed removal of an account not already
/// known to have left gets one.
pub fn settle_account(accounts: &mut Vec<Account>, target: &str, status: ActionStatus) -> (r: Option<String>)
    ensures
        final(accounts)@ == spec_settle_account(old(accounts)@, target@, status),
        crate::app::opt_view(r) == spec_tag_handle(old(accounts)@, target@, status),
{
    if status != ActionStatus::VerifiedRemoved && status != ActionStatus::AlreadyAbsent {
        return None;
    }
    match find_account(accounts, target) {
        Some(i) => {
            let show = status == ActionStatus::VerifiedRemoved && accounts[i].follows_me != Some(
                false,
            );
            let tag = if show {
                Some(accounts[i].handle.clone())
            } else {
                None
            };
            let mut a = accounts[i].clone();
            a.follows_me = Some(false);
            accounts.set(i, a);
            tag
        },
        None => None,
    }
}

/// Drops every entry naming `target` from a queue.
pub fn drop_target(ids: &mut VecDeque<String>, target: &str)
    ensures
        final(ids)@ == old(ids)@.filter(|id: String| id@ != target@),
{
    let ghost all = ids@;
    let n = ids.len();
    let mut kept: VecDeque<String> = VecDeque::new();
    let mut i: usize = 0;
    while i < n
        invariant
            n == all.len(),
            i <= n,
            ids@ == all.skip(i as int),
            kept@ == all.take(i as int).filter(|id: String| id@ != target@),
        decreases n - i,
    {
        match ids.pop_front() {
            Some(id) => {
                proof {
                    assert(all.skip(i as int)[0] == all[i as int]);
                    assert(all.skip(i as int).subrange(1, all.skip(i as int).len() as int) =~= all.skip(
                        i + 1,
                    ));
                    assert(all.take(i + 1).drop_last() =~= all.take(i as int));
                    assert(all.take(i + 1).last() == id);
                    reveal(Seq::filter);
                }
                if !same_text(id.as_str(), target) {
                    kept.push_back(id);
                }
            },
            None => {},
        }
        i = i + 1;
    }
    proof {
        assert(all.take(n as int) =~= all);
    }
    *ids = kept;
}

/// What follows a receipt for the owner's own removal.
#[derive(Clone, Copy, Debug, PartialEq, Eq, Structural)]
pub enum ReceiptFollowUp {
    /// The browser can no longer act: the account is retried later and the
    /// cleanup stops.
    StopCleanup,
    /// The account is tried again later.
    Retry,
    /// The account is settled; its retry record is dropped.
    Forget,
    /// Outside a cleanup, a failed or uncertain removal pauses work.
    Pause,
    /// Nothing more.
    Continue,
}

/// During a cleanup a fatal failure stops it, any other failure or
/// uncertainty is retried, and anything else is settled; outside a cleanup
/// a failure or uncertainty pauses work.
pub open spec fn spec_receipt_follow_up(simple_running: bool, status: ActionStatus, fatal: bool) -> ReceiptFollowUp {
    let troubled = status == ActionStatus::Uncertain || status == ActionStatus::Failed;
    if simple_running {
        if fatal {
            ReceiptFollowUp::StopCleanup
        } else if troubled {
            ReceiptFollowUp::Retry
        } else {
            ReceiptFollowUp::Forget
        }
    } else if troubled {
        ReceiptFollowUp::Pause
    } else {
        ReceiptFollowUp::Continue
    }
}

/// Decides what follows a receipt.
pub fn receipt_follow_up(simple_running: bool, status: ActionStatus, message: &str) -> (r: ReceiptFollowUp)
    ensures
        r == spec_receipt_follow_up(
            simple_running,
            status,
            crate::app::spec_is_fatal_failure(status, message@),
        ),
{
    let fatal = crate::app::is_fatal_failure(status, message);
    let troubled = status == ActionStatus::Uncertain || status == ActionStatus::Failed;
    if simple_running {
        if fatal {
            ReceiptFollowUp::StopCleanup
        } else if troubled {
            ReceiptFollowUp::Retry
        } else {
            ReceiptFollowUp::Forget
        }
    } else if troubled {
        ReceiptFollowUp::Pause
    } else {
        ReceiptFollowUp::Continue
    }
}

/// Law: recording a receipt never touches a Keep choice, and changes at
/// most whether the settled account still follows.
pub proof fn law_receipt_preserves_keep(accounts: Seq<Account>, target: Seq<char>, status: ActionStatus)
    ensures
        spec_settle_account(accounts, target, status).len() == accounts.len(),
        forall|k: int|
            0 <= k < accounts.len() ==> {
                let after = #[trigger] spec_settle_account(accounts, target, status)[k];
                &&& after.kept == accounts[k].kept
                &&& after == (Account { follows_me: after.follows_me, ..accounts[k] })
            },
{
    crate::app::lemma_find_account(accounts, target);
}

/// Law: a confirmed removal or absence leaves the settled account known not
/// to follow.
pub proof fn law_settled_account_left(accounts: Seq<Account>, target: Seq<char>, status: ActionStatus)
    requires
        status == ActionStatus::VerifiedRemoved || status == ActionStatus::AlreadyAbsent,
        spec_find_account(accounts, target) is Some,
    ensures
        spec_settle_account(accounts, target, status)[spec_find_account(accounts, target)->0].follows_me
            == Some(false),
{
    crate::app::lemma_find_account(accounts, target);
}

/// Law: a check that clears an account never drops its retry record, so a
/// successful check does not reset the budget of failed removals.
pub proof fn law_clearing_check_keeps_retry_budget(a: Account, p: Policy, now: i64)
    requires
        a.spec_reason(p, now as int) is Ok,
    ensures
        spec_check_follow_up(a, p, now) == CheckFollowUp::Proceed,
{
}

/// A journaled removal may still take a new outcome only while it is open:
/// dispatched or uncertain. Every other outcome is final.
pub open spec fn spec_action_open(state: Seq<char>) -> bool {
    state == "dispatched"@ || state == "uncertain"@
}

/// Whether a journaled removal in `state` may take a new outcome.
pub fn action_open(state: &str) -> (r: bool)
    ensures
        r == spec_action_open(state@),
{
    same_text(state, "dispatched") || same_text(state, "uncertain")
}

/// The journaled state after an outcome arrives: an open removal takes it;
/// a final one keeps its own.
pub open spec fn spec_next_action_state(current: Seq<char>, incoming: Seq<char>) -> Seq<char> {
    if spec_action_open(current) {
        incoming
    } else {
        current
    }
}

/// Law: a final outcome is never replaced, so a stale recovered receipt
/// cannot downgrade a removal that was already settled.
pub proof fn law_final_outcomes_stay(current: Seq<char>, incoming: Seq<char>)
    requires
        !spec_action_open(current),
    ensures
        spec_next_action_state(current, incoming) == current,
{
}

} // verus!
