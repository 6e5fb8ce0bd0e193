//! What the controller does on each tick: whether it may send work at all,
//! which uncertain removal to reconcile, which queued removal to send, and
//! which collection or activity step comes next. Only these decisions are
//! here; the controller performs them.
use crate::app::{
    due_for_check, find_account, find_retry, next_inspect_target, retry_for, seq_has_text,
    spec_find_account, spec_retry_ready, spec_trim_queue, text_in, trim_queue, Batch, Mode, Retry, Scan,
    MAX_ATTEMPTS,
};
use crate::model::{Account, Policy};
use crate::protocol::{Command, Work};
use crate::text::same_text;
use std::collections::VecDeque;
use vstd::prelude::*;

verus! {

broadcast use vstd::std_specs::vecdeque::axiom_spec_len;

/// The capability a browser adapter must advertise before it is driven.
pub open spec fn adapter_ready(demo: bool, capabilities: Seq<String>) -> bool {
    demo || seq_has_text(capabilities, "adapter:2"@)
}

/// Whether `capabilities` names `c`.
pub fn has_capability(capabilities: &Vec<String>, c: &str) -> (r: bool)
    ensures
        r == seq_has_text(capabilities@, c@),
{
    text_in(capabilities, c)
}

/// Whether a tick may send work.
#[derive(Clone, Copy, Debug, PartialEq, Eq, Structural)]
pub enum Gate {
    /// Nothing is sent this tick.
    Idle,
    /// The adapter must be reloaded; work pauses.
    AdapterOutdated,
    /// The saved scan was made by an old adapter; work pauses.
    OldScan,
    /// Work may be sent.
    Go,
}

/// The tick's gate: no work during setup, while paused, while a command is
/// out, while disconnected, before the next tick or the end of a cooldown,
/// or while removals are uncertain outside a simple cleanup; then the
/// adapter and the saved scan must be current.
pub open spec fn spec_tick_gate(
    mode: Mode,
    paused: bool,
    pending: bool,
    connected: bool,
    early: bool,
    now: i64,
    until_ms: i64,
    uncertain: usize,
    simple_running: bool,
    demo: bool,
    capabilities: Seq<String>,
    adapter_revision: u8,
    phase: Seq<char>,
) -> Gate {
    if mode == Mode::Setup || paused || pending || !connected || early || now < until_ms || (
    uncertain > 0 && !simple_running) {
        Gate::Idle
    } else if !adapter_ready(demo, capabilities) {
        Gate::AdapterOutdated
    } else if !demo && adapter_revision < 2 && phase.len() > 0 {
        Gate::OldScan
    } else {
        Gate::Go
    }
}

/// Decides whether this tick may send work. `early` holds before the time
/// set for the next tick.
pub fn tick_gate(
    mode: Mode,
    paused: bool,
    pending: bool,
    connected: bool,
    early: bool,
    now: i64,
    until_ms: i64,
    uncertain: usize,
    simple_running: bool,
    demo: bool,
    capabilities: &Vec<String>,
    scan: &Scan,
) -> (r: Gate)
    ensures
        r == spec_tick_gate(
            mode,
            paused,
            pending,
            connected,
            early,
            now,
            until_ms,
            uncertain,
            simple_running,
            demo,
            capabilities@,
            scan.adapter_revision,
            scan.phase@,
        ),
{
    if mode == Mode::Setup || paused || pending || !connected || early || now < until_ms || (
    uncertain > 0 && !simple_running) {
        return Gate::Idle;
    }
    if !demo && !has_capability(capabilities, "adapter:2") {
        return Gate::AdapterOutdated;
    }
    if !demo && scan.adapter_revision < 2 && scan.phase.as_str().unicode_len() > 0 {
        return Gate::OldScan;
    }
    Gate::Go
}

/// An unresolved command may be reconciled now: it was a removal whose
/// target may be tried again.
pub open spec fn reconcilable(w: Work, retries: Seq<(String, Retry)>, now: i64) -> bool {
    match w.command {
        Command::RemoveFollower { target_id, .. } => spec_retry_ready(
            retry_for(retries, target_id@),
            now,
        ),
        _ => false,
    }
}

/// The first unresolved removal that may be reconciled now.
pub fn reconcile_next(unresolved: &Vec<Work>, retries: &Vec<(String, Retry)>, now: i64) -> (r: Option<usize>)
    ensures
        match r {
            Some(k) => k < unresolved@.len() && reconcilable(unresolved@[k as int], retries@, now)
                && forall|j: int| 0 <= j < k ==> !reconcilable(#[trigger] unresolved@[j], retries@, now),
            None => forall|j: int|
                0 <= j < unresolved@.len() ==> !reconcilable(#[trigger] unresolved@[j], retries@, now),
        },
{
    let mut k: usize = 0;
    while k < unresolved.len()
        invariant
            k <= unresolved@.len(),
            forall|j: int| 0 <= j < k ==> !reconcilable(#[trigger] unresolved@[j], retries@, now),
        decreases unresolved@.len() - k,
    {
        let ok = match &unresolved[k].command {
            Command::RemoveFollower { target_id, .. } => {
                let retry = find_retry(retries, target_id.as_str());
                match retry {
                    None => true,
                    Some(r) => r.attempts < MAX_ATTEMPTS && r.due_ms <= now,
                }
            },
            _ => false,
        };
        if ok {
            return Some(k);
        }
        k = k + 1;
    }
    None
}

/// The command that reconciles the unresolved removal `w`.
pub fn reconcile_command(w: &Work) -> (r: Option<Command>)
    ensures
        match w.command {
            Command::RemoveFollower { target_id, .. } => r matches Some(
                Command::Reconcile { target_id: t, original_command_id: o },
            ) && t@ == target_id@ && o@ == w.command_id@,
            _ => r is None,
        },
{
    match &w.command {
        Command::RemoveFollower { target_id, .. } => Some(
            Command::Reconcile {
                target_id: target_id.clone(),
                original_command_id: w.command_id.clone(),
            },
        ),
        _ => None,
    }
}

/// The targets of the unresolved removals, in order.
pub open spec fn spec_unresolved_targets(unresolved: Seq<Work>) -> Seq<Seq<char>>
    decreases unresolved.len(),
{
    if unresolved.len() == 0 {
        Seq::empty()
    } else {
        let rest = spec_unresolved_targets(unresolved.drop_last());
        match unresolved.last().command {
            Command::RemoveFollower { target_id, .. } => rest.push(target_id@),
            _ => rest,
        }
    }
}

/// Lists the targets of the unresolved removals.
pub fn unresolved_targets(unresolved: &Vec<Work>) -> (r: Vec<String>)
    ensures
        r@.map_values(|s: String| s@) == spec_unresolved_targets(unresolved@),
{
    let mut out: Vec<String> = Vec::new();
    let mut i: usize = 0;
    while i < unresolved.len()
        invariant
            i <= unresolved@.len(),
            out@.map_values(|s: String| s@) == spec_unresolved_targets(unresolved@.take(i as int)),
        decreases unresolved@.len() - i,
    {
        proof {
            assert(unresolved@.take(i + 1).drop_last() =~= unresolved@.take(i as int));
        }
        match &unresolved[i].command {
            Command::RemoveFollower { target_id, .. } => {
                let ghost before = out@;
                out.push(target_id.clone());
                proof {
                    assert(out@.map_values(|s: String| s@) =~= before.map_values(|s: String| s@).push(
                        target_id@,
                    ));
                }
            },
            _ => {},
        }
        i = i + 1;
    }
    proof {
        assert(unresolved@.take(unresolved@.len() as int) =~= unresolved@);
    }
    out
}

/// The next step of an approved queue.
#[derive(Clone, Copy, Debug, PartialEq, Eq, Structural)]
pub enum BatchStep {
    /// Remove the account at this position of the inventory.
    Remove(usize),
    /// The saved activity no longer clears the next target; work stops for
    /// review.
    StaleApproval,
    /// The queue is empty.
    Finished,
}

/// The step for a queue whose pending targets are `ids`: the front target
/// is removed when its saved evidence still clears it under the queue's
/// rules.
pub open spec fn spec_batch_step(ids: Seq<String>, accounts: Seq<Account>, p: Policy, now: i64) -> BatchStep {
    if ids.len() == 0 {
        BatchStep::Finished
    } else {
        match spec_find_account(accounts, ids[0]@) {
            Some(i) => if accounts[i].spec_reason(p, now as int) is Ok {
                BatchStep::Remove(i as usize)
            } else {
                BatchStep::StaleApproval
            },
            None => BatchStep::StaleApproval,
        }
    }
}

/// Drops the finished and no longer removable targets from the front of
/// the queue, then decides its next step.
pub fn batch_step(batch: &mut Batch, finished: &Vec<String>, accounts: &Vec<Account>, now: i64) -> (r: BatchStep)
    ensures
        final(batch).ids@ == spec_trim_queue(old(batch).ids@, finished@, accounts@),
        final(batch).id == old(batch).id,
        final(batch).policy == old(batch).policy,
        r == spec_batch_step(final(batch).ids@, accounts@, final(batch).policy, now),
{
    trim_queue(&mut batch.ids, finished, accounts);
    if batch.ids.len() == 0 {
        return BatchStep::Finished;
    }
    match find_account(accounts, batch.ids[0].as_str()) {
        Some(i) => {
            if accounts[i].reason(&batch.policy, now).is_ok() {
                BatchStep::Remove(i)
            } else {
                BatchStep::StaleApproval
            }
        },
        None => BatchStep::StaleApproval,
    }
}

/// How long the browser may take to carry out a removal, in milliseconds.
pub const REMOVAL_DEADLINE_MS: i64 = 120_000;

/// The removal of `account` under the queue `batch`, with the saved
/// evidence attached and a deadline two minutes from `now`.
pub fn removal_command(batch: &Batch, account: &Account, now: i64) -> (r: Command)
    requires
        now <= i64::MAX - REMOVAL_DEADLINE_MS,
    ensures
        r matches Command::RemoveFollower { target_id, batch_id, policy, deadline_ms, approved_account }
            && target_id@ == account.id@ && batch_id@ == batch.id@ && policy == batch.policy
            && deadline_ms == now + REMOVAL_DEADLINE_MS && approved_account == Some(Box::new(*account)),
{
    Command::RemoveFollower {
        target_id: account.id.clone(),
        batch_id: batch.id.clone(),
        policy: batch.policy.clone(),
        deadline_ms: now + REMOVAL_DEADLINE_MS,
        approved_account: Some(Box::new(account.clone())),
    }
}

/// The next collection or activity step.
pub enum PhaseStep {
    /// Fetch the next page of this list from this cursor.
    ScanPage { list: String, cursor: Option<String> },
    /// Check the activity of the account at this position of the inventory.
    Inspect(usize),
    /// A retried account whose saved evidence now clears it is queued alone.
    QueueAlone(usize),
    /// Only accounts waiting for a scheduled retry are left.
    WaitForRetries,
    /// Every collected candidate was checked.
    Finish,
    /// The phase needs no browser work; work pauses.
    Pause,
}

/// Some retry record still allows another try.
pub open spec fn retries_pending(retries: Seq<(String, Retry)>) -> bool {
    exists|k: int| 0 <= k < retries.len() && (#[trigger] retries[k]).1.attempts < MAX_ATTEMPTS
}

/// Whether some retry record still allows another try.
pub fn any_retry_pending(retries: &Vec<(String, Retry)>) -> (r: bool)
    ensures
        r == retries_pending(retries@),
{
    let mut k: usize = 0;
    while k < retries.len()
        invariant
            k <= retries@.len(),
            forall|j: int| 0 <= j < k ==> (#[trigger] retries@[j]).1.attempts >= MAX_ATTEMPTS,
        decreases retries@.len() - k,
    {
        if retries[k].1.attempts < MAX_ATTEMPTS {
            return true;
        }
        k = k + 1;
    }
    false
}

/// The step for the scan's phase. While collecting, the next page of the
/// list; while checking activity, the first follower in list order that is
/// due, which in a simple cleanup is queued alone when it is being retried
/// and its evidence already clears it; when none is due, a wait for the
/// scheduled retries of a simple cleanup, or the end of the pass. Any other
/// phase pauses.
pub fn phase_step(
    scan: &Scan,
    accounts: &Vec<Account>,
    order: &Vec<usize>,
    p: &Policy,
    unresolved: &Vec<String>,
    retries: &Vec<(String, Retry)>,
    simple_running: bool,
    now: i64,
) -> (r: PhaseStep)
    requires
        crate::order::in_bounds(order@, accounts@.len() as int),
    ensures
        (scan.phase@ == "following"@ || scan.phase@ == "followers"@) ==> (r matches PhaseStep::ScanPage {
            list,
            cursor,
        } && list@ == scan.phase@ && cursor == scan.cursor),
        scan.phase@ == "inspect"@ ==> match r {
            PhaseStep::Inspect(i) | PhaseStep::QueueAlone(i) => exists|k: int|
                0 <= k < order@.len() && order@[k] == i && due_for_check(
                    accounts@[i as int],
                    *p,
                    unresolved@,
                    retries@,
                    scan.started_at,
                    now,
                ) && (forall|j: int|
                    0 <= j < k ==> !due_for_check(
                        #[trigger] accounts@[order@[j] as int],
                        *p,
                        unresolved@,
                        retries@,
                        scan.started_at,
                        now,
                    )) && ((r is QueueAlone) <==> (simple_running && retry_for(
                    retries@,
                    accounts@[i as int].id@,
                ) is Some && accounts@[i as int].spec_reason(*p, now as int) is Ok)),
            PhaseStep::WaitForRetries => simple_running && retries_pending(retries@) && forall|j: int|
                0 <= j < order@.len() ==> !due_for_check(
                    #[trigger] accounts@[order@[j] as int],
                    *p,
                    unresolved@,
                    retries@,
                    scan.started_at,
                    now,
                ),
            PhaseStep::Finish => !(simple_running && retries_pending(retries@)) && forall|j: int|
                0 <= j < order@.len() ==> !due_for_check(
                    #[trigger] accounts@[order@[j] as int],
                    *p,
                    unresolved@,
                    retries@,
                    scan.started_at,
                    now,
                ),
            _ => false,
        },
        !(scan.phase@ == "following"@ || scan.phase@ == "followers"@ || scan.phase@ == "inspect"@)
            ==> r is Pause,
{
    let phase = scan.phase.as_str();
    proof {
        reveal_strlit("following");
        reveal_strlit("followers");
        reveal_strlit("inspect");
        assert("inspect"@.len() == 7);
        assert("following"@.len() == 9);
        assert("followers"@.len() == 9);
    }
    if same_text(phase, "following") || same_text(phase, "followers") {
        return PhaseStep::ScanPage { list: scan.phase.clone(), cursor: scan.cursor.clone() };
    }
    if !same_text(phase, "inspect") {
        return PhaseStep::Pause;
    }
    match next_inspect_target(accounts, order, p, unresolved, retries, scan.started_at, now) {
        Some(k) => {
            let i = order[k];
            let a = &accounts[i];
            let retried = find_retry(retries, a.id.as_str()).is_some();
            if simple_running && retried && a.reason(p, now).is_ok() {
                PhaseStep::QueueAlone(i)
            } else {
                PhaseStep::Inspect(i)
            }
        },
        None => {
            if simple_running && any_retry_pending(retries) {
                PhaseStep::WaitForRetries
            } else {
                PhaseStep::Finish
            }
        },
    }
}

/// Law: a queue only ever sends the removal of its front target, and only
/// while that target's saved evidence clears it under the queue's rules,
/// which also means that it is not kept and still follows.
pub proof fn law_queue_removes_only_cleared(ids: Seq<String>, accounts: Seq<Account>, p: Policy, now: i64, i: usize)
    requires
        accounts.len() <= usize::MAX,
        spec_batch_step(ids, accounts, p, now) == BatchStep::Remove(i),
    ensures
        i < accounts.len(),
        accounts[i as int].id@ == ids[0]@,
        accounts[i as int].spec_reason(p, now as int) is Ok,
        !accounts[i as int].kept,
        accounts[i as int].follows_me == Some(true),
{
    crate::app::lemma_find_account(accounts, ids[0]@);
    let j = spec_find_account(accounts, ids[0]@)->0;
    assert(j as usize == i);
}

/// Law: an account whose removal is still unsettled is never checked
/// again until that removal is reconciled.
pub proof fn law_unsettled_removal_not_rechecked(
    a: Account,
    p: Policy,
    unresolved: Seq<String>,
    retries: Seq<(String, Retry)>,
    started_at: i64,
    now: i64,
)
    requires
        seq_has_text(unresolved, a.id@),
    ensures
        !due_for_check(a, p, unresolved, retries, started_at, now),
{
}

} // verus!
