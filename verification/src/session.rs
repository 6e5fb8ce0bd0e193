//! The connection's life: what a new connection or a disconnection resets,
//! and when a loaded X page or a failed identity check asks for the
//! signed-in account again. Only the identity check is ever repeated this
//! way; no other work starts from a page load.
use crate::app::{spec_identity_can_repeat, Mode};
use crate::protocol::{Command, WorkResult};
use crate::setup::{Setup, Step};
use crate::app::Batch;
use crate::model::Policy;
use vstd::prelude::*;

verus! {

/// The view a new connection shows: the pairing guide moves on to the
/// account check; anywhere else the list opens.
pub open spec fn spec_view_on_connect(mode: Mode) -> (Mode, Option<Step>) {
    if mode == Mode::Setup {
        (Mode::Setup, Some(Step::Connect))
    } else {
        (Mode::Browse, None)
    }
}

/// Decides the view of a new connection.
pub fn view_on_connect(mode: Mode) -> (r: (Mode, Option<Step>))
    ensures
        r == spec_view_on_connect(mode),
{
    if mode == Mode::Setup {
        (Mode::Setup, Some(Step::Connect))
    } else {
        (Mode::Browse, None)
    }
}

/// The view after a disconnection: where the pairing guide exists it
/// reopens at pairing; otherwise the list shows.
pub open spec fn spec_view_on_disconnect(has_setup: bool) -> (Mode, Option<Step>) {
    if has_setup {
        (Mode::Setup, Some(Step::Pair))
    } else {
        (Mode::Browse, None)
    }
}

/// Decides the view after a disconnection.
pub fn view_on_disconnect(has_setup: bool) -> (r: (Mode, Option<Step>))
    ensures
        r == spec_view_on_disconnect(has_setup),
{
    if has_setup {
        (Mode::Setup, Some(Step::Pair))
    } else {
        (Mode::Browse, None)
    }
}

/// Applies a connection change to the pairing guide: a new connection
/// moves it to the account check, a disconnection back to pairing.
pub fn guide_on_connection(setup: &mut Setup, connected: bool)
    ensures
        final(setup).step == (if connected {
            Step::Connect
        } else {
            Step::Pair
        }),
        !final(setup).revealed,
        !final(setup).recheck_requested,
        final(setup).token == old(setup).token,
        final(setup).port == old(setup).port,
{
    setup.go(
        if connected {
            Step::Connect
        } else {
            Step::Pair
        },
    );
}

/// What a loaded X page asks for.
#[derive(Clone, Copy, Debug, PartialEq, Eq, Structural)]
pub enum PageReadyStep {
    Ignore,
    /// An identity check is running; it may be repeated once it ends.
    QueueRecheck,
    /// Ask for the signed-in account now.
    CheckNow,
}

/// A loaded page matters only in the pairing guide, on a live connection
/// whose account is not identified yet, once any wait X asked for has
/// passed. It then queues a recheck behind a running identity check, or
/// asks now when nothing is running.
pub open spec fn spec_page_ready_step(
    setup_mode: bool,
    connected: bool,
    identified: bool,
    retry_at_ms: Option<i64>,
    now: i64,
    pending: Option<Command>,
) -> PageReadyStep {
    if !(setup_mode && connected && !identified && !(retry_at_ms matches Some(t) && t > now)) {
        PageReadyStep::Ignore
    } else {
        match pending {
            Some(c) => if c is GetSession {
                PageReadyStep::QueueRecheck
            } else {
                PageReadyStep::Ignore
            },
            None => PageReadyStep::CheckNow,
        }
    }
}

/// Decides what a loaded X page asks for.
pub fn page_ready_step(
    setup_mode: bool,
    connected: bool,
    identified: bool,
    retry_at_ms: Option<i64>,
    now: i64,
    pending: Option<&Command>,
) -> (r: PageReadyStep)
    ensures
        r == spec_page_ready_step(
            setup_mode,
            connected,
            identified,
            retry_at_ms,
            now,
            match pending {
                Some(c) => Some(*c),
                None => None,
            },
        ),
{
    let waiting = match retry_at_ms {
        Some(t) => t > now,
        None => false,
    };
    if !(setup_mode && connected && !identified && !waiting) {
        return PageReadyStep::Ignore;
    }
    match pending {
        Some(c) => if matches!(c, Command::GetSession) {
            PageReadyStep::QueueRecheck
        } else {
            PageReadyStep::Ignore
        },
        None => PageReadyStep::CheckNow,
    }
}

/// After an identity result, a queued recheck runs only while the guide is
/// still open and only after a failure that may be repeated.
pub open spec fn spec_recheck_after(queued: bool, result: WorkResult, setup_mode: bool) -> bool {
    queued && setup_mode && spec_identity_can_repeat(result)
}

/// Whether a queued recheck runs after an identity result.
pub fn recheck_after(queued: bool, result: &WorkResult, setup_mode: bool) -> (r: bool)
    ensures
        r == spec_recheck_after(queued, *result, setup_mode),
{
    queued && setup_mode && crate::app::identity_can_repeat(result)
}

/// Law: a loaded page never starts work other than the identity check,
/// and only in the pairing guide of a live, unidentified connection.
pub proof fn law_page_load_only_rechecks_identity(
    setup_mode: bool,
    connected: bool,
    identified: bool,
    retry_at_ms: Option<i64>,
    now: i64,
    pending: Option<Command>,
)
    ensures
        spec_page_ready_step(setup_mode, connected, identified, retry_at_ms, now, pending)
            != PageReadyStep::Ignore ==> setup_mode && connected && !identified,
        spec_page_ready_step(setup_mode, connected, identified, retry_at_ms, now, pending)
            == PageReadyStep::QueueRecheck ==> (pending matches Some(c) && c is GetSession),
{
}

/// Law: a queued recheck never follows a successful identity check, nor a
/// refusal for access, an account change, a rate limit or a server wait.
pub proof fn law_recheck_only_after_recoverable_failure(queued: bool, result: WorkResult, setup_mode: bool)
    ensures
        spec_recheck_after(queued, result, setup_mode) ==> (result matches WorkResult::Error {
            code,
            retry_at_ms,
            ..
        } && retry_at_ms is None && code@ != "rate_limited"@ && code@ != "access_denied"@ && code@
            != "account_changed"@),
{
}

/// Law: a disconnection never leaves the pairing guide at a later step than
/// pairing.
pub proof fn law_disconnect_returns_to_pairing(has_setup: bool)
    ensures
        has_setup ==> spec_view_on_disconnect(has_setup) == (Mode::Setup, Some(Step::Pair)),
{
}

/// What a connection carries in the controller: the view, whether work is
/// paused or a command is in flight, the identified account and its
/// capabilities, and the choices made for it.
pub struct SessionState {
    pub mode: Mode,
    pub paused: bool,
    pub pending: bool,
    pub session: String,
    pub handle: String,
    pub capabilities: Vec<String>,
    pub confirmation: Vec<String>,
    pub selected: Vec<String>,
}

/// A new connection: the view moves on, the account must be identified
/// again, confirmations and selections made for the old connection are
/// dropped, nothing is in flight, and work stays paused.
pub fn connect(s: &mut SessionState, session_id: String)
    ensures
        final(s).mode == spec_view_on_connect(old(s).mode).0,
        final(s).paused,
        !final(s).pending,
        final(s).session@ == session_id@,
        final(s).handle@.len() == 0,
        final(s).capabilities@.len() == 0,
        final(s).confirmation@.len() == 0,
        final(s).selected@.len() == 0,
{
    let (mode, _) = view_on_connect(s.mode);
    s.mode = mode;
    s.handle = String::new();
    s.capabilities = Vec::new();
    s.confirmation = Vec::new();
    s.selected = Vec::new();
    s.session = session_id;
    s.pending = false;
    s.paused = true;
}

/// A disconnection: the view falls back, the account and the session are
/// forgotten, confirmations are dropped, nothing is in flight, and work is
/// paused.
pub fn disconnect(s: &mut SessionState, has_setup: bool)
    ensures
        final(s).mode == spec_view_on_disconnect(has_setup).0,
        final(s).paused,
        !final(s).pending,
        final(s).session@.len() == 0,
        final(s).handle@.len() == 0,
        final(s).confirmation@.len() == 0,
        final(s).capabilities@ == old(s).capabilities@,
        final(s).selected@ == old(s).selected@,
{
    let (mode, _) = view_on_disconnect(has_setup);
    s.mode = mode;
    s.handle = String::new();
    s.confirmation = Vec::new();
    s.session = String::new();
    s.paused = true;
    s.pending = false;
}

/// Law: a connection or disconnection never lets work continue: the next
/// tick sends nothing until the user resumes.
pub proof fn law_connection_changes_stop_work(
    mode: Mode,
    connected: bool,
    early: bool,
    now: i64,
    until_ms: i64,
    uncertain: usize,
    simple_running: bool,
    demo: bool,
    capabilities: Seq<String>,
    adapter_revision: u8,
    phase: Seq<char>,
)
    ensures
        crate::schedule::spec_tick_gate(
            mode,
            true,
            false,
            connected,
            early,
            now,
            until_ms,
            uncertain,
            simple_running,
            demo,
            capabilities,
            adapter_revision,
            phase,
        ) == crate::schedule::Gate::Idle,
{
}

/// The controller's running work: whether it is paused, the approved queue,
/// Full Auto's rules, and a requested move to the background.
pub struct WorkState {
    pub paused: bool,
    pub batch: Option<Batch>,
    pub auto_policy: Option<Policy>,
    pub detach_requested: bool,
}

/// Cancels Full Auto and the queue and pauses; an action already sent may
/// still finish.
pub fn cancel_work(w: &mut WorkState)
    ensures
        final(w).paused,
        final(w).batch is None,
        final(w).auto_policy is None,
        !final(w).detach_requested,
{
    w.paused = true;
    w.detach_requested = false;
    w.batch = None;
    w.auto_policy = None;
}

/// Pauses running work, or resumes paused work where nothing uncertain
/// blocks it; returns the refusal otherwise. Pausing also withdraws a
/// requested move to the background.
pub fn toggle_pause(w: &mut WorkState, uncertain: usize, simple_running: bool) -> (r: Result<
    (),
    crate::guards::Refusal,
>)
    ensures
        old(w).paused && uncertain > 0 && !simple_running ==> r == Err::<(), crate::guards::Refusal>(
            crate::guards::Refusal::ReconcileFirst,
        ) && final(w).paused && final(w).detach_requested == old(w).detach_requested,
        old(w).paused && !(uncertain > 0 && !simple_running) ==> r is Ok && !final(w).paused
            && final(w).detach_requested == old(w).detach_requested,
        !old(w).paused ==> r is Ok && final(w).paused && !final(w).detach_requested,
        final(w).batch == old(w).batch,
        final(w).auto_policy == old(w).auto_policy,
{
    if w.paused {
        match crate::guards::check_resume(uncertain, simple_running) {
            Ok(()) => {
                w.paused = false;
                Ok(())
            },
            Err(e) => Err(e),
        }
    } else {
        w.detach_requested = false;
        w.paused = true;
        Ok(())
    }
}

/// Approves a reviewed queue: where any confirmed account is still
/// eligible, the queue holds exactly those, frozen with the current rules,
/// and work resumes; otherwise nothing runs.
pub fn approve(w: &mut WorkState, id: String, confirmation: &Vec<String>, accounts: &Vec<crate::model::Account>, p: &Policy, now: i64) -> (r: bool)
    ensures
        r == (crate::app::spec_approved(confirmation@, accounts@, *p, now).len() > 0),
        r ==> (final(w).batch matches Some(b) && b.id@ == id@ && b.ids@ == crate::app::spec_approved(
            confirmation@,
            accounts@,
            *p,
            now,
        ) && b.policy == *p) && !final(w).paused,
        !r ==> final(w).batch == old(w).batch && final(w).paused == old(w).paused,
        final(w).auto_policy == old(w).auto_policy,
{
    broadcast use vstd::std_specs::vecdeque::axiom_spec_len;

    let ids = crate::app::approve_queue(confirmation, accounts, p, now);
    if ids.len() == 0 {
        return false;
    }
    w.batch = Some(Batch { id, ids, policy: p.clone() });
    w.paused = false;
    true
}

} // verus!
