//! The checks the controller makes before it starts work on a user's
//! request, each with the refusal it answers.
use crate::app::seq_has_text;
use crate::protocol::Command;
use crate::schedule::{adapter_ready, has_capability};
use vstd::prelude::*;

verus! {

/// Why a request is refused.
#[derive(Clone, Copy, Debug, PartialEq, Eq, Structural)]
pub enum Refusal {
    ReconcileFirst,
    WaitForInFlight,
    FinishBeforeFullAuto,
    FullAutoNeedsExtension,
    CancelBeforeFullAuto,
    FullAutoRulesFixed,
    CancelBatchBeforeFilters,
    FullAutoCollects,
    CollectFirst,
    NoBackgroundInDemo,
    NothingToBackground,
    BackgroundNeedsExtension,
    FullAutoManagesQueue,
    WaitOrCancel,
    RemovalAdapterUnavailable,
    NothingCleared,
    WaitForTask,
    NotConnected,
    CleanupNeedsExtension,
    RemovalNeedsExtension,
    ScanNeedsAdapter,
    IdentifyFirst,
    FinishQueueFirst,
    WaitBeforeScan,
    FinishCurrentJob,
    CleanupNeedsReload,
    WaitForCooldown,
}

/// The text shown for each refusal.
pub open spec fn refusal_text(r: Refusal) -> Seq<char> {
    match r {
        Refusal::ReconcileFirst => "Press r to reconcile uncertain actions first"@,
        Refusal::WaitForInFlight => "Wait for in-flight work; reconcile uncertain actions first"@,
        Refusal::FinishBeforeFullAuto => "Finish current work and reconcile uncertain actions first"@,
        Refusal::FullAutoNeedsExtension => "Connect the current Chrome extension before Full Auto"@,
        Refusal::CancelBeforeFullAuto => "Pause and cancel existing work before starting Full Auto"@,
        Refusal::FullAutoRulesFixed => "Full Auto rules are fixed. Cancel Full Auto to change them; , changes processing pace"@,
        Refusal::CancelBatchBeforeFilters => "Cancel the current batch before changing filters"@,
        Refusal::FullAutoCollects => "Full Auto already controls collection"@,
        Refusal::CollectFirst => "Finish collecting followers first (s), then press i to check activity"@,
        Refusal::NoBackgroundInDemo => "Background work is unavailable in demo mode"@,
        Refusal::NothingToBackground => "Approve and start a removal queue first (d then y)"@,
        Refusal::BackgroundNeedsExtension => "Reload the updated Chrome extension before running in the background"@,
        Refusal::FullAutoManagesQueue => "Full Auto already manages the removal queue"@,
        Refusal::WaitOrCancel => "Pause and wait for the current task, or cancel the existing removal queue"@,
        Refusal::RemovalAdapterUnavailable => "Removal adapter unavailable. Open X in Chrome and refresh discovery in the extension."@,
        Refusal::NothingCleared => "No selected accounts have cleared activity rules. Press i to check activity, then a to select candidates."@,
        Refusal::WaitForTask => "Wait for the current task"@,
        Refusal::NotConnected => "Chrome is not connected"@,
        Refusal::CleanupNeedsExtension => "Reload the current Chrome extension before continuing cleanup"@,
        Refusal::RemovalNeedsExtension => "Reload the v0.1.10 Chrome extension to remove using saved activity checks"@,
        Refusal::ScanNeedsAdapter => "Reload remover in chrome://extensions, then Connect terminal before scanning"@,
        Refusal::IdentifyFirst => "Connect Chrome and identify the signed-in account first"@,
        Refusal::FinishQueueFirst => "Finish/cancel the removal queue and reconcile uncertain actions first (r)"@,
        Refusal::WaitBeforeScan => "Wait for the current browser task before starting a scan"@,
        Refusal::FinishCurrentJob => "Finish or cancel the current job first"@,
        Refusal::CleanupNeedsReload => "Reload the Chrome extension to use the new 30-day cleanup"@,
        Refusal::WaitForCooldown => "X asked us to wait. Retry after the current cooldown."@,
    }
}

impl Refusal {
    /// The text shown for this refusal.
    pub fn message(&self) -> (r: &'static str)
        ensures
            r@ == refusal_text(*self),
    {
        match self {
            Refusal::ReconcileFirst => "Press r to reconcile uncertain actions first",
            Refusal::WaitForInFlight => "Wait for in-flight work; reconcile uncertain actions first",
            Refusal::FinishBeforeFullAuto => "Finish current work and reconcile uncertain actions first",
            Refusal::FullAutoNeedsExtension => "Connect the current Chrome extension before Full Auto",
            Refusal::CancelBeforeFullAuto => "Pause and cancel existing work before starting Full Auto",
            Refusal::FullAutoRulesFixed => "Full Auto rules are fixed. Cancel Full Auto to change them; , changes processing pace",
            Refusal::CancelBatchBeforeFilters => "Cancel the current batch before changing filters",
            Refusal::FullAutoCollects => "Full Auto already controls collection",
            Refusal::CollectFirst => "Finish collecting followers first (s), then press i to check activity",
            Refusal::NoBackgroundInDemo => "Background work is unavailable in demo mode",
            Refusal::NothingToBackground => "Approve and start a removal queue first (d then y)",
            Refusal::BackgroundNeedsExtension => "Reload the updated Chrome extension before running in the background",
            Refusal::FullAutoManagesQueue => "Full Auto already manages the removal queue",
            Refusal::WaitOrCancel => "Pause and wait for the current task, or cancel the existing removal queue",
            Refusal::RemovalAdapterUnavailable => "Removal adapter unavailable. Open X in Chrome and refresh discovery in the extension.",
            Refusal::NothingCleared => "No selected accounts have cleared activity rules. Press i to check activity, then a to select candidates.",
            Refusal::WaitForTask => "Wait for the current task",
            Refusal::NotConnected => "Chrome is not connected",
            Refusal::CleanupNeedsExtension => "Reload the current Chrome extension before continuing cleanup",
            Refusal::RemovalNeedsExtension => "Reload the v0.1.10 Chrome extension to remove using saved activity checks",
            Refusal::ScanNeedsAdapter => "Reload remover in chrome://extensions, then Connect terminal before scanning",
            Refusal::IdentifyFirst => "Connect Chrome and identify the signed-in account first",
            Refusal::FinishQueueFirst => "Finish/cancel the removal queue and reconcile uncertain actions first (r)",
            Refusal::WaitBeforeScan => "Wait for the current browser task before starting a scan",
            Refusal::FinishCurrentJob => "Finish or cancel the current job first",
            Refusal::CleanupNeedsReload => "Reload the Chrome extension to use the new 30-day cleanup",
            Refusal::WaitForCooldown => "X asked us to wait. Retry after the current cooldown.",
        }
    }
}

/// Resuming paused work: uncertain removals must be reconciled first,
/// except in a simple cleanup, which reconciles them itself.
pub fn check_resume(uncertain: usize, simple_running: bool) -> (r: Result<(), Refusal>)
    ensures
        r == (if uncertain > 0 && !simple_running {
            Err::<(), Refusal>(Refusal::ReconcileFirst)
        } else {
            Ok(())
        }),
{
    if uncertain > 0 && !simple_running {
        Err(Refusal::ReconcileFirst)
    } else {
        Ok(())
    }
}

/// Approving a removal queue: nothing may be in flight or uncertain.
pub fn check_approval(pending: bool, uncertain: usize) -> (r: Result<(), Refusal>)
    ensures
        r == (if pending || uncertain > 0 {
            Err::<(), Refusal>(Refusal::WaitForInFlight)
        } else {
            Ok(())
        }),
{
    if pending || uncertain > 0 {
        Err(Refusal::WaitForInFlight)
    } else {
        Ok(())
    }
}

/// Starting Full Auto once confirmed: no work in flight, queued or
/// uncertain, and an extension that removes using saved activity.
pub fn check_full_auto(pending: bool, has_batch: bool, uncertain: usize, capabilities: &Vec<String>) -> (r: Result<(), Refusal>)
    ensures
        r == (if pending || has_batch || uncertain > 0 {
            Err::<(), Refusal>(Refusal::FinishBeforeFullAuto)
        } else if !seq_has_text(capabilities@, "saved_activity:1"@) || !seq_has_text(
            capabilities@,
            "remove_follower"@,
        ) {
            Err::<(), Refusal>(Refusal::FullAutoNeedsExtension)
        } else {
            Ok(())
        }),
{
    if pending || has_batch || uncertain > 0 {
        return Err(Refusal::FinishBeforeFullAuto);
    }
    if !has_capability(capabilities, "saved_activity:1") || !has_capability(capabilities, "remove_follower") {
        return Err(Refusal::FullAutoNeedsExtension);
    }
    Ok(())
}

/// Opening the Full Auto confirmation: no queue, command or Full Auto may
/// be running.
pub fn check_full_auto_entry(has_batch: bool, pending: bool, auto: bool) -> (r: Result<(), Refusal>)
    ensures
        r == (if has_batch || pending || auto {
            Err::<(), Refusal>(Refusal::CancelBeforeFullAuto)
        } else {
            Ok(())
        }),
{
    if has_batch || pending || auto {
        Err(Refusal::CancelBeforeFullAuto)
    } else {
        Ok(())
    }
}

/// Opening the removal rules: not while Full Auto or a queue runs.
pub fn check_filters(auto: bool, has_batch: bool) -> (r: Result<(), Refusal>)
    ensures
        r == (if auto {
            Err::<(), Refusal>(Refusal::FullAutoRulesFixed)
        } else if has_batch {
            Err::<(), Refusal>(Refusal::CancelBatchBeforeFilters)
        } else {
            Ok(())
        }),
{
    if auto {
        Err(Refusal::FullAutoRulesFixed)
    } else if has_batch {
        Err(Refusal::CancelBatchBeforeFilters)
    } else {
        Ok(())
    }
}

/// Starting a scan by hand: not while Full Auto collects.
pub fn check_manual_scan(auto: bool) -> (r: Result<(), Refusal>)
    ensures
        r == (if auto {
            Err::<(), Refusal>(Refusal::FullAutoCollects)
        } else {
            Ok(())
        }),
{
    if auto {
        Err(Refusal::FullAutoCollects)
    } else {
        Ok(())
    }
}

/// The phases after which activity checks may start.
pub open spec fn collected(phase: Seq<char>) -> bool {
    phase == "review"@ || phase == "inspect"@ || phase == "done"@
}

/// Starting activity checks: no queue, Full Auto or command running, and
/// followers collected.
pub fn check_inspection(has_batch: bool, auto: bool, pending: bool, phase: &str) -> (r: Result<(), Refusal>)
    ensures
        r == (if has_batch || auto || pending || !collected(phase@) {
            Err::<(), Refusal>(Refusal::CollectFirst)
        } else {
            Ok(())
        }),
{
    let done = crate::text::same_text(phase, "review") || crate::text::same_text(phase, "inspect")
        || crate::text::same_text(phase, "done");
    if has_batch || auto || pending || !done {
        Err(Refusal::CollectFirst)
    } else {
        Ok(())
    }
}

/// Moving work to the background: not in demo mode, only running approved
/// work, and only with an extension that keeps a durable queue.
pub fn check_background(
    demo: bool,
    has_batch: bool,
    auto: bool,
    paused: bool,
    capabilities: &Vec<String>,
) -> (r: Result<(), Refusal>)
    ensures
        r == (if demo {
            Err::<(), Refusal>(Refusal::NoBackgroundInDemo)
        } else if (!has_batch && !auto) || paused {
            Err::<(), Refusal>(Refusal::NothingToBackground)
        } else if !seq_has_text(capabilities@, "durable_queue:1"@) {
            Err::<(), Refusal>(Refusal::BackgroundNeedsExtension)
        } else {
            Ok(())
        }),
{
    if demo {
        return Err(Refusal::NoBackgroundInDemo);
    }
    if (!has_batch && !auto) || paused {
        return Err(Refusal::NothingToBackground);
    }
    if !has_capability(capabilities, "durable_queue:1") {
        return Err(Refusal::BackgroundNeedsExtension);
    }
    Ok(())
}

/// Opening the removal review: not under Full Auto, not while a queue or
/// command runs, only with a removal adapter, and only with at least one
/// selected account cleared (`cleared` of them).
pub fn check_review(
    auto: bool,
    has_batch: bool,
    pending: bool,
    capabilities: &Vec<String>,
    cleared: usize,
) -> (r: Result<(), Refusal>)
    ensures
        r == (if auto {
            Err::<(), Refusal>(Refusal::FullAutoManagesQueue)
        } else if has_batch || pending {
            Err::<(), Refusal>(Refusal::WaitOrCancel)
        } else if !seq_has_text(capabilities@, "remove_follower"@) {
            Err::<(), Refusal>(Refusal::RemovalAdapterUnavailable)
        } else if cleared == 0 {
            Err::<(), Refusal>(Refusal::NothingCleared)
        } else {
            Ok(())
        }),
{
    if auto {
        return Err(Refusal::FullAutoManagesQueue);
    }
    if has_batch || pending {
        return Err(Refusal::WaitOrCancel);
    }
    if !has_capability(capabilities, "remove_follower") {
        return Err(Refusal::RemovalAdapterUnavailable);
    }
    if cleared == 0 {
        return Err(Refusal::NothingCleared);
    }
    Ok(())
}

/// Sending a command: one at a time, only while connected, and during a
/// simple cleanup only with an extension that supports it, except for the
/// identity check and opening a profile, which any extension may do.
pub fn check_submission(
    pending: bool,
    connected: bool,
    simple_running: bool,
    demo: bool,
    capabilities: &Vec<String>,
    command: &Command,
) -> (r: Result<(), Refusal>)
    ensures
        r == (if pending {
            Err::<(), Refusal>(Refusal::WaitForTask)
        } else if !connected {
            Err::<(), Refusal>(Refusal::NotConnected)
        } else if simple_running && !demo && !(*command is GetSession || *command is OpenProfile)
            && !seq_has_text(capabilities@, "simple_cleanup:1"@) {
            Err::<(), Refusal>(Refusal::CleanupNeedsExtension)
        } else {
            Ok(())
        }),
{
    if pending {
        return Err(Refusal::WaitForTask);
    }
    if !connected {
        return Err(Refusal::NotConnected);
    }
    let exempt = matches!(command, Command::GetSession | Command::OpenProfile { .. });
    if simple_running && !demo && !exempt && !has_capability(capabilities, "simple_cleanup:1") {
        return Err(Refusal::CleanupNeedsExtension);
    }
    Ok(())
}

/// Sending a removal: the extension must remove using saved activity
/// checks (any will do in demo mode).
pub fn check_removal(demo: bool, capabilities: &Vec<String>) -> (r: Result<(), Refusal>)
    ensures
        r == (if !demo && !seq_has_text(capabilities@, "saved_activity:1"@) {
            Err::<(), Refusal>(Refusal::RemovalNeedsExtension)
        } else {
            Ok(())
        }),
{
    if !demo && !has_capability(capabilities, "saved_activity:1") {
        Err(Refusal::RemovalNeedsExtension)
    } else {
        Ok(())
    }
}

/// Starting collection: a current adapter, an identified account on a
/// connected browser, no queue, no uncertain removal outside a simple
/// cleanup, and no command in flight.
pub fn check_scan_start(
    demo: bool,
    capabilities: &Vec<String>,
    identified: bool,
    connected: bool,
    has_batch: bool,
    uncertain: usize,
    simple_cleanup: bool,
    pending: bool,
) -> (r: Result<(), Refusal>)
    ensures
        r == (if !adapter_ready(demo, capabilities@) {
            Err::<(), Refusal>(Refusal::ScanNeedsAdapter)
        } else if !identified || !connected {
            Err::<(), Refusal>(Refusal::IdentifyFirst)
        } else if has_batch || (uncertain > 0 && !simple_cleanup) {
            Err::<(), Refusal>(Refusal::FinishQueueFirst)
        } else if pending {
            Err::<(), Refusal>(Refusal::WaitBeforeScan)
        } else {
            Ok(())
        }),
{
    if !demo && !has_capability(capabilities, "adapter:2") {
        return Err(Refusal::ScanNeedsAdapter);
    }
    if !identified || !connected {
        return Err(Refusal::IdentifyFirst);
    }
    if has_batch || (uncertain > 0 && !simple_cleanup) {
        return Err(Refusal::FinishQueueFirst);
    }
    if pending {
        return Err(Refusal::WaitBeforeScan);
    }
    Ok(())
}

/// A scan starts a fresh pass when none was started, the last one is done,
/// or it was saved by an older adapter; otherwise it resumes.
pub open spec fn spec_starts_fresh(phase: Seq<char>, adapter_revision: u8) -> bool {
    phase.len() == 0 || phase == "done"@ || adapter_revision < 2
}

/// Whether a scan starts a fresh pass.
pub fn starts_fresh(phase: &str, adapter_revision: u8) -> (r: bool)
    ensures
        r == spec_starts_fresh(phase@, adapter_revision),
{
    phase.unicode_len() == 0 || crate::text::same_text(phase, "done") || adapter_revision < 2
}

/// Beginning a cleanup: nothing may be running, and the extension must
/// support the simple cleanup (any will do in demo mode).
pub fn check_cleanup_start(
    pending: bool,
    has_batch: bool,
    auto: bool,
    demo: bool,
    capabilities: &Vec<String>,
) -> (r: Result<(), Refusal>)
    ensures
        r == (if pending || has_batch || auto {
            Err::<(), Refusal>(Refusal::FinishCurrentJob)
        } else if !demo && !seq_has_text(capabilities@, "simple_cleanup:1"@) {
            Err::<(), Refusal>(Refusal::CleanupNeedsReload)
        } else {
            Ok(())
        }),
{
    if pending || has_batch || auto {
        return Err(Refusal::FinishCurrentJob);
    }
    if !demo && !has_capability(capabilities, "simple_cleanup:1") {
        return Err(Refusal::CleanupNeedsReload);
    }
    Ok(())
}

/// Asking for the signed-in account again: not before a wait that X asked
/// for has passed.
pub fn check_identity_request(retry_at_ms: Option<i64>, now: i64) -> (r: Result<(), Refusal>)
    ensures
        r == (if retry_at_ms matches Some(t) && t > now {
            Err::<(), Refusal>(Refusal::WaitForCooldown)
        } else {
            Ok(())
        }),
{
    match retry_at_ms {
        Some(t) => if t > now {
            Err(Refusal::WaitForCooldown)
        } else {
            Ok(())
        },
        None => Ok(()),
    }
}

} // verus!
