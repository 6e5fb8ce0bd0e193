//! The detached worker's decisions: when it resumes an approved run by
//! itself, when it stops doing so, and what each private control asks of
//! it. A connection or reconnection alone never continues work; only an
//! identity check that confirms the approved owner lets an automatic run
//! go on.
use crate::background::Control;
use crate::protocol::WorkResult;
use crate::text::same_text;
use vstd::prelude::*;

verus! {

/// How an identity check ended, as the worker tells them apart.
#[derive(Clone, Copy, Debug, PartialEq, Eq, Structural)]
pub enum IdentityOutcome {
    Succeeded,
    /// A rate limit or lost network: worth repeating.
    Transient,
    /// A denied access or a changed account: never repeated.
    Denied,
    OtherFailure,
}

/// Classifies an identity result.
pub open spec fn spec_identity_outcome(r: WorkResult) -> IdentityOutcome {
    match r {
        WorkResult::Error { code, .. } => if code@ == "rate_limited"@ || code@ == "network_unavailable"@ {
            IdentityOutcome::Transient
        } else if code@ == "access_denied"@ || code@ == "account_changed"@ {
            IdentityOutcome::Denied
        } else {
            IdentityOutcome::OtherFailure
        },
        WorkResult::Session { .. } => IdentityOutcome::Succeeded,
        _ => IdentityOutcome::OtherFailure,
    }
}

/// Classifies an identity result.
pub fn identity_outcome(r: &WorkResult) -> (o: IdentityOutcome)
    ensures
        o == spec_identity_outcome(*r),
{
    match r {
        WorkResult::Error { code, .. } => {
            if same_text(code.as_str(), "rate_limited") || same_text(code.as_str(), "network_unavailable") {
                IdentityOutcome::Transient
            } else if same_text(code.as_str(), "access_denied") || same_text(code.as_str(), "account_changed") {
                IdentityOutcome::Denied
            } else {
                IdentityOutcome::OtherFailure
            }
        },
        WorkResult::Session { .. } => IdentityOutcome::Succeeded,
        _ => IdentityOutcome::OtherFailure,
    }
}

/// What the worker knows: whether its run is automatic, whether an identity
/// check is owed after a page load, and the controller's state as the last
/// event left it.
#[derive(Clone, Copy, Debug, PartialEq, Eq, Structural)]
pub struct WorkerState {
    /// The approved run may continue without the user.
    pub automatic: bool,
    /// An identity check is to be repeated when idle.
    pub identity_retry: bool,
    pub connected: bool,
    /// The signed-in account is known.
    pub identified: bool,
    /// The signed-in account is the one whose run was approved.
    pub same_owner: bool,
    pub paused: bool,
    /// A queue or cleanup is approved.
    pub has_work: bool,
    pub uncertain: usize,
    pub simple_running: bool,
    /// The extension keeps a durable queue.
    pub durable: bool,
    /// A command is in flight.
    pub pending: bool,
    /// A cooldown is still running.
    pub cooling: bool,
}

/// What reaches the worker.
pub enum WorkerEvent {
    Connected,
    Disconnected,
    PageReady,
    /// The answer to an identity check; `ok` where the controller accepted it.
    IdentityAnswered { outcome: IdentityOutcome, ok: bool },
    OtherMessage,
    Control { control: Control },
    /// The controller began the cleanup a `Start` control asked for.
    CleanupBegun,
    Tick,
    /// A step of the controller failed.
    Failed,
}

/// What the worker asks the controller to do.
#[derive(Clone, Copy, Debug, PartialEq, Eq, Structural)]
pub enum WorkerAction {
    Nothing,
    /// Continue the approved run after the owner was confirmed again.
    Resume,
    /// The signed-in account changed: pause and wait for the user.
    PauseOwnerChanged,
    /// The extension lacks a durable queue: stay paused.
    ReloadExtension,
    BeginCleanup,
    /// Pause and record that the run is no longer automatic.
    PauseUnmanaged,
    /// Record the run as automatic and resume it.
    ResumeManaged,
    /// Record the run as automatic; it is already running.
    Manage,
    /// Resuming needs the approved account, no uncertain removals outside a
    /// simple cleanup, and a durable queue.
    ReconnectFirst,
    Cancel,
    Stop,
    /// Copy the new pacing settings.
    SavePacing,
    SettingsOutOfRange,
    CheckIdentity,
    /// Let the controller take its next step.
    Tick,
}

/// Whether an event comes from the bridge.
pub open spec fn from_bridge(e: WorkerEvent) -> bool {
    e is Connected || e is Disconnected || e is PageReady || e is IdentityAnswered || e is OtherMessage
}

/// Pacing settings within range.
pub open spec fn pacing_in_range(p: crate::model::Policy) -> bool {
    5 <= p.delay_seconds <= 300 && 1 <= p.batch_limit <= 500
}

/// The worker's step for an event, with the controller's state after the
/// event in `s`: the identity retry flag follows connections, page loads
/// and identity answers; an owner change stops automatic work; a confirmed
/// identity resumes a paused automatic run that may continue; controls do
/// what they name.
pub open spec fn spec_worker_event_step(s: WorkerState, e: WorkerEvent) -> (WorkerState, WorkerAction) {
    let retry = match e {
        WorkerEvent::Connected | WorkerEvent::Disconnected => false,
        WorkerEvent::PageReady => if s.connected && !s.identified {
            true
        } else {
            s.identity_retry
        },
        WorkerEvent::IdentityAnswered { outcome, .. } => outcome == IdentityOutcome::Transient || (
        s.identity_retry && outcome == IdentityOutcome::OtherFailure),
        _ => s.identity_retry,
    };
    let t = WorkerState { identity_retry: retry, ..s };
    if from_bridge(e) {
        if s.identified && !s.same_owner {
            (WorkerState { automatic: false, ..t }, WorkerAction::PauseOwnerChanged)
        } else if e == (WorkerEvent::IdentityAnswered { outcome: IdentityOutcome::Succeeded, ok: true })
            && s.automatic && s.identified && s.paused && s.has_work && (s.uncertain == 0
            || s.simple_running) {
            if s.durable {
                (t, WorkerAction::Resume)
            } else {
                (WorkerState { automatic: false, ..t }, WorkerAction::ReloadExtension)
            }
        } else {
            (t, WorkerAction::Nothing)
        }
    } else {
        match e {
            WorkerEvent::Control { control } => match control {
                Control::Status => (t, WorkerAction::Nothing),
                Control::Start => (t, WorkerAction::BeginCleanup),
                Control::Pause => (WorkerState { automatic: false, ..t }, WorkerAction::PauseUnmanaged),
                Control::Resume => if !s.same_owner || !s.identified || (s.uncertain > 0
                    && !s.simple_running) || !s.durable {
                    (t, WorkerAction::ReconnectFirst)
                } else if s.paused {
                    (WorkerState { automatic: true, ..t }, WorkerAction::ResumeManaged)
                } else {
                    (WorkerState { automatic: true, ..t }, WorkerAction::Manage)
                },
                Control::Cancel => (WorkerState { automatic: false, ..t }, WorkerAction::Cancel),
                Control::Stop => (WorkerState { automatic: false, ..t }, WorkerAction::Stop),
                Control::Settings { policy } => if pacing_in_range(policy) {
                    (t, WorkerAction::SavePacing)
                } else {
                    (t, WorkerAction::SettingsOutOfRange)
                },
            },
            WorkerEvent::CleanupBegun => (WorkerState { automatic: true, ..t }, WorkerAction::Nothing),
            WorkerEvent::Tick => if s.identity_retry && s.connected && !s.identified && !s.pending
                && !s.cooling {
                (WorkerState { identity_retry: false, ..t }, WorkerAction::CheckIdentity)
            } else {
                (t, WorkerAction::Tick)
            },
            _ => (WorkerState { automatic: false, ..t }, WorkerAction::PauseUnmanaged),
        }
    }
}

/// Takes the worker's step for an event.
pub fn worker_event_step(s: &WorkerState, e: &WorkerEvent) -> (r: (WorkerState, WorkerAction))
    ensures
        r == spec_worker_event_step(*s, *e),
{
    let retry = match e {
        WorkerEvent::Connected | WorkerEvent::Disconnected => false,
        WorkerEvent::PageReady => if s.connected && !s.identified {
            true
        } else {
            s.identity_retry
        },
        WorkerEvent::IdentityAnswered { outcome, .. } => *outcome == IdentityOutcome::Transient || (
        s.identity_retry && *outcome == IdentityOutcome::OtherFailure),
        _ => s.identity_retry,
    };
    let t = WorkerState { identity_retry: retry, ..*s };
    let bridge = matches!(
        e,
        WorkerEvent::Connected | WorkerEvent::Disconnected | WorkerEvent::PageReady
            | WorkerEvent::IdentityAnswered { .. } | WorkerEvent::OtherMessage
    );
    if bridge {
        let confirmed = match e {
            WorkerEvent::IdentityAnswered { outcome, ok } => *outcome == IdentityOutcome::Succeeded
                && *ok,
            _ => false,
        };
        if s.identified && !s.same_owner {
            return (WorkerState { automatic: false, ..t }, WorkerAction::PauseOwnerChanged);
        }
        if confirmed && s.automatic && s.identified && s.paused && s.has_work && (s.uncertain == 0
            || s.simple_running) {
            if s.durable {
                return (t, WorkerAction::Resume);
            } else {
                return (WorkerState { automatic: false, ..t }, WorkerAction::ReloadExtension);
            }
        }
        return (t, WorkerAction::Nothing);
    }
    match e {
        WorkerEvent::Control { control } => match control {
            Control::Status => (t, WorkerAction::Nothing),
            Control::Start => (t, WorkerAction::BeginCleanup),
            Control::Pause => (WorkerState { automatic: false, ..t }, WorkerAction::PauseUnmanaged),
            Control::Resume => if !s.same_owner || !s.identified || (s.uncertain > 0
                && !s.simple_running) || !s.durable {
                (t, WorkerAction::ReconnectFirst)
            } else if s.paused {
                (WorkerState { automatic: true, ..t }, WorkerAction::ResumeManaged)
            } else {
                (WorkerState { automatic: true, ..t }, WorkerAction::Manage)
            },
            Control::Cancel => (WorkerState { automatic: false, ..t }, WorkerAction::Cancel),
            Control::Stop => (WorkerState { automatic: false, ..t }, WorkerAction::Stop),
            Control::Settings { policy } => if 5 <= policy.delay_seconds && policy.delay_seconds
                <= 300 && 1 <= policy.batch_limit && policy.batch_limit <= 500 {
                (t, WorkerAction::SavePacing)
            } else {
                (t, WorkerAction::SettingsOutOfRange)
            },
        },
        WorkerEvent::CleanupBegun => (WorkerState { automatic: true, ..t }, WorkerAction::Nothing),
        WorkerEvent::Tick => if s.identity_retry && s.connected && !s.identified && !s.pending
            && !s.cooling {
            (WorkerState { identity_retry: false, ..t }, WorkerAction::CheckIdentity)
        } else {
            (t, WorkerAction::Tick)
        },
        _ => (WorkerState { automatic: false, ..t }, WorkerAction::PauseUnmanaged),
    }
}

/// After an action has run, a run that is paused on an identified account
/// with nothing in flight is no longer automatic: a pause, whoever made it,
/// is kept across reconnections.
pub open spec fn spec_settle_automatic(automatic: bool, paused: bool, identified: bool, pending: bool) -> bool {
    automatic && !(paused && identified && !pending)
}

/// Settles the automatic flag after an action.
pub fn settle_automatic(automatic: bool, paused: bool, identified: bool, pending: bool) -> (r: bool)
    ensures
        r == spec_settle_automatic(automatic, paused, identified, pending),
{
    automatic && !(paused && identified && !pending)
}

/// Law: a connection or reconnection alone never continues work, and a run
/// that is not automatic is never resumed by the worker itself; the worker
/// resumes only a paused automatic run, after an identity check confirmed
/// the approved owner.
pub proof fn law_reconnection_never_resumes_by_itself(s: WorkerState, e: WorkerEvent)
    ensures
        (e is Connected || e is Disconnected || e is PageReady) ==> !(spec_worker_event_step(s, e).1
            == WorkerAction::Resume || spec_worker_event_step(s, e).1 == WorkerAction::ResumeManaged),
        !s.automatic ==> spec_worker_event_step(s, e).1 != WorkerAction::Resume,
        spec_worker_event_step(s, e).1 == WorkerAction::Resume ==> s.automatic && s.same_owner
            && s.identified && s.durable && e == (WorkerEvent::IdentityAnswered {
            outcome: IdentityOutcome::Succeeded,
            ok: true,
        }),
{
}

/// Law: once the signed-in account differs from the approved one, every
/// bridge event pauses and ends automatic work.
pub proof fn law_owner_change_pauses(s: WorkerState, e: WorkerEvent)
    requires
        from_bridge(e),
        s.identified,
        !s.same_owner,
    ensures
        !spec_worker_event_step(s, e).0.automatic,
        spec_worker_event_step(s, e).1 == WorkerAction::PauseOwnerChanged,
{
}

/// Law: a manual pause is recorded as not automatic, and stays so after the
/// action has run.
pub proof fn law_manual_pause_stays(s: WorkerState, paused: bool, identified: bool, pending: bool)
    ensures
        !spec_worker_event_step(s, WorkerEvent::Control { control: Control::Pause }).0.automatic,
        !spec_settle_automatic(
            spec_worker_event_step(s, WorkerEvent::Control { control: Control::Pause }).0.automatic,
            paused,
            identified,
            pending,
        ),
{
}

} // verus!
