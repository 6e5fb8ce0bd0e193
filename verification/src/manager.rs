//! Requests from the browser's visual manager.
use crate::model::{Account, Policy};
use crate::protocol::Command;
use crate::text::same_text;
use vstd::prelude::*;

verus! {

/// A view of the follower inventory: a search, a decision filter and a page.
pub struct Query {
    pub search: String,
    pub filter: String,
    pub page: usize,
}

/// What the manager may ask for.
pub enum Action {
    Snapshot { query: Query },
    Collect,
    Inspect,
    Start { confirmed: bool },
    Pause,
    Resume,
    Cancel,
    Keep { target_id: String, kept: bool },
    Settings { policy: Policy },
}

/// One account row of a snapshot.
pub struct Row<'a> {
    pub account: &'a Account,
    pub decision: String,
    pub reason: String,
    pub queued: bool,
    pub working: bool,
    pub retry_at_ms: Option<i64>,
}


/// Rows in one page of a snapshot.
pub const PAGE_SIZE: usize = 50;

/// The inventory views the manager may ask for.
pub open spec fn known_views() -> Seq<Seq<char>> {
    seq![""@, "all"@, "keep"@, "remove"@, "review"@, "removed"@, "queue"@]
}

/// Why a manager request was refused.
#[derive(Debug, PartialEq, Eq, Structural)]
pub enum ManagerError {
    /// The request ID is longer than 80 bytes.
    InvalidRequestId,
    /// Chrome or the X account is not connected.
    NotConnected,
    /// The request is for another account.
    AccountChanged,
    /// Controls are refused for an account other than the worker's.
    ControlsRefused,
    /// The search is longer than 200 bytes or the page beyond a million.
    SearchTooLarge,
    /// The view is not one of the known ones.
    UnknownView,
}

impl ManagerError {
    pub fn message(&self) -> (r: &'static str)
        ensures
            *self == ManagerError::InvalidRequestId ==> r@ == "Invalid request ID"@,
            *self == ManagerError::NotConnected ==> r@ == "Connect X before opening your follower list"@,
            *self == ManagerError::AccountChanged ==> r@ == "Account changed. Refresh before continuing."@,
            *self == ManagerError::ControlsRefused ==> r@
                == "Account changed. Reconnect the account approved for this worker."@,
            *self == ManagerError::SearchTooLarge ==> r@ == "Search too large"@,
            *self == ManagerError::UnknownView ==> r@ == "Unknown view"@,
    {
        match self {
            ManagerError::InvalidRequestId => "Invalid request ID",
            ManagerError::NotConnected => "Connect X before opening your follower list",
            ManagerError::AccountChanged => "Account changed. Refresh before continuing.",
            ManagerError::ControlsRefused => "Account changed. Reconnect the account approved for this worker.",
            ManagerError::SearchTooLarge => "Search too large",
            ManagerError::UnknownView => "Unknown view",
        }
    }
}

/// The byte length of a string.
pub open spec fn byte_len(s: Seq<char>) -> int {
    vstd::utf8::encode_utf8(s).len() as int
}

/// The admission rules of a manager request, in order: a short request ID;
/// a connected, identified account; the request's account (a snapshot may
/// leave it empty); and, except for snapshots, permission to control.
pub open spec fn spec_admit_request(
    request_id: Seq<char>,
    connected: bool,
    identified: bool,
    owner_id: Seq<char>,
    is_snapshot: bool,
    current_owner: Seq<char>,
    controls_allowed: bool,
) -> Result<(), ManagerError> {
    if byte_len(request_id) > 80 {
        Err(ManagerError::InvalidRequestId)
    } else if !(connected && identified) {
        Err(ManagerError::NotConnected)
    } else if !((owner_id.len() == 0 && is_snapshot) || owner_id == current_owner) {
        Err(ManagerError::AccountChanged)
    } else if !is_snapshot && !controls_allowed {
        Err(ManagerError::ControlsRefused)
    } else {
        Ok(())
    }
}

/// Admits or refuses a manager request.
pub fn admit_request(
    request_id: &str,
    connected: bool,
    identified: bool,
    owner_id: &str,
    action: &Action,
    current_owner: &str,
    controls_allowed: bool,
) -> (r: Result<(), ManagerError>)
    ensures
        r == spec_admit_request(
            request_id@,
            connected,
            identified,
            owner_id@,
            action is Snapshot,
            current_owner@,
            controls_allowed,
        ),
{
    if request_id.as_bytes().len() > 80 {
        return Err(ManagerError::InvalidRequestId);
    }
    if !(connected && identified) {
        return Err(ManagerError::NotConnected);
    }
    let is_snapshot = matches!(action, Action::Snapshot { .. });
    if !((owner_id.unicode_len() == 0 && is_snapshot) || same_text(owner_id, current_owner)) {
        return Err(ManagerError::AccountChanged);
    }
    if !is_snapshot && !controls_allowed {
        return Err(ManagerError::ControlsRefused);
    }
    Ok(())
}

/// A snapshot query within bounds: a search of at most 200 bytes, a page
/// of at most a million, and a known view.
pub open spec fn spec_check_query(q: Query) -> Result<(), ManagerError> {
    if !(byte_len(q.search@) <= 200 && q.page <= 1_000_000) {
        Err(ManagerError::SearchTooLarge)
    } else if !(exists|i: int| 0 <= i < known_views().len() && #[trigger] known_views()[i] == q.filter@) {
        Err(ManagerError::UnknownView)
    } else {
        Ok(())
    }
}

/// Checks a snapshot query.
pub fn check_query(q: &Query) -> (r: Result<(), ManagerError>)
    ensures
        r == spec_check_query(*q),
{
    if !(q.search.as_str().as_bytes().len() <= 200 && q.page <= 1_000_000) {
        return Err(ManagerError::SearchTooLarge);
    }
    let f = q.filter.as_str();
    let views = ["", "all", "keep", "remove", "review", "removed", "queue"];
    let mut i: usize = 0;
    while i < 7
        invariant
            i <= 7,
            forall|k: int| 0 <= k < 7 ==> #[trigger] views@[k]@ == known_views()[k],
            f@ == q.filter@,
            byte_len(q.search@) <= 200 && q.page <= 1_000_000,
            forall|k: int| 0 <= k < i ==> known_views()[k] != f@,
        decreases 7 - i,
    {
        if same_text(views[i], f) {
            assert(known_views()[i as int] == q.filter@);
            return Ok(());
        }
        i = i + 1;
    }
    Err(ManagerError::UnknownView)
}

/// One page of `total` rows: the requested page, clamped to the last page,
/// and the range of rows it shows.
pub open spec fn spec_page_window(total: usize, page: usize) -> (usize, usize, usize) {
    let last = if total == 0 {
        0
    } else {
        (total - 1) / PAGE_SIZE as int
    };
    let p = if page < last {
        page as int
    } else {
        last
    };
    let start = p * PAGE_SIZE;
    let end = if start + PAGE_SIZE < total {
        start + PAGE_SIZE
    } else {
        total as int
    };
    (p as usize, start as usize, end as usize)
}

/// Chooses the page shown and its rows.
pub fn page_window(total: usize, page: usize) -> (r: (usize, usize, usize))
    ensures
        r == spec_page_window(total, page),
        r.1 <= r.2 <= total,
        r.2 - r.1 <= PAGE_SIZE,
{
    let last = if total == 0 {
        0
    } else {
        (total - 1) / PAGE_SIZE
    };
    let p = if page < last {
        page
    } else {
        last
    };
    assert(p * PAGE_SIZE <= total) by (nonlinear_arith)
        requires
            p <= last,
            total == 0 ==> last == 0,
            total > 0 ==> last == (total - 1) / 50,
            PAGE_SIZE == 50,
    ;
    let start = p * PAGE_SIZE;
    let end = if total - start > PAGE_SIZE {
        start + PAGE_SIZE
    } else {
        total
    };
    (p, start, end)
}

/// How a snapshot row is judged.
#[derive(Clone, Copy, Debug, PartialEq, Eq, Structural)]
pub enum Decision {
    Keep,
    Remove,
    Review,
    Removed,
}

/// The view name of each decision.
pub open spec fn decision_text(d: Decision) -> Seq<char> {
    match d {
        Decision::Keep => "keep"@,
        Decision::Remove => "remove"@,
        Decision::Review => "review"@,
        Decision::Removed => "removed"@,
    }
}

impl Decision {
    /// The view name of this decision.
    pub fn name(&self) -> (r: &'static str)
        ensures
            r@ == decision_text(*self),
    {
        match self {
            Decision::Keep => "keep",
            Decision::Remove => "remove",
            Decision::Review => "review",
            Decision::Removed => "removed",
        }
    }
}

/// Something clearly protects the account: the Keep choice, verification,
/// following it back, a protected profile, or recent activity.
pub open spec fn clearly_protected(a: Account, p: Policy, now: i64) -> bool {
    a.kept || a.verified == Some(true) || a.i_follow == Some(true) || a.protected == Some(true) || (
    a.last_activity_ms matches Some(t) && t > Account::spec_cutoff(p, now as int))
}

/// The row of an account in a snapshot, given the state of its last
/// removal receipt: none for an account that neither follows nor has a
/// receipt; review while a removal is unsettled; removed once X confirmed
/// it; kept once it left by itself; remove when it is eligible; otherwise
/// kept when something clearly protects it and for review when not, with
/// the rule that protects it.
pub open spec fn spec_row_decision(a: Account, receipt: Option<Seq<char>>, p: Policy, now: i64) -> Option<
    (Decision, Seq<char>),
> {
    if a.follows_me != Some(true) && receipt is None {
        None
    } else if receipt == Some("dispatched"@) || receipt == Some("uncertain"@) {
        Some((Decision::Review, "Removal outcome needs reconciliation"@))
    } else if a.follows_me != Some(true) && receipt == Some("verified_removed"@) {
        Some((Decision::Removed, "Removal confirmed by X"@))
    } else if a.follows_me == Some(false) {
        Some((Decision::Keep, "Already absent from your follower list"@))
    } else {
        match a.spec_reason(p, now as int) {
            Ok(why) => Some((Decision::Remove, why)),
            Err(why) => if clearly_protected(a, p, now) {
                Some((Decision::Keep, why))
            } else {
                Some((Decision::Review, why))
            },
        }
    }
}

/// Judges an account for a snapshot.
pub fn row_decision(a: &Account, receipt: Option<&str>, p: &Policy, now: i64) -> (r: Option<
    (Decision, &'static str),
>)
    ensures
        match r {
            Some((d, why)) => spec_row_decision(
                *a,
                match receipt {
                    Some(x) => Some(x@),
                    None => None,
                },
                *p,
                now,
            ) == Some((d, why@)),
            None => spec_row_decision(
                *a,
                match receipt {
                    Some(x) => Some(x@),
                    None => None,
                },
                *p,
                now,
            ) is None,
        },
{
    let follows = a.follows_me == Some(true);
    let (unsettled, confirmed) = match receipt {
        Some(x) => (same_text(x, "dispatched") || same_text(x, "uncertain"), same_text(
            x,
            "verified_removed",
        )),
        None => (false, false),
    };
    if !follows && receipt.is_none() {
        return None;
    }
    if unsettled {
        return Some((Decision::Review, "Removal outcome needs reconciliation"));
    }
    if !follows && confirmed {
        return Some((Decision::Removed, "Removal confirmed by X"));
    }
    if a.follows_me == Some(false) {
        return Some((Decision::Keep, "Already absent from your follower list"));
    }
    match a.reason(p, now) {
        Ok(why) => Some((Decision::Remove, why)),
        Err(why) => {
            let recent = match a.last_activity_ms {
                Some(t) => (t as i128) > (now as i128) - (p.inactive_days as i128) * 86_400_000,
                None => false,
            };
            if a.kept || a.verified == Some(true) || a.i_follow == Some(true) || a.protected == Some(
                true,
            ) || recent {
                Some((Decision::Keep, why))
            } else {
                Some((Decision::Review, why))
            }
        },
    }
}

/// A row is in a view: every row is in the default and `all` views, a
/// decision's view holds its rows, and the queue view holds queued rows.
pub open spec fn spec_in_view(filter: Seq<char>, d: Decision, queued: bool) -> bool {
    filter.len() == 0 || filter == "all"@ || filter == decision_text(d) || (filter == "queue"@
        && queued)
}

/// Whether a row is in the requested view.
pub fn in_view(filter: &str, d: Decision, queued: bool) -> (r: bool)
    ensures
        r == spec_in_view(filter@, d, queued),
{
    filter.unicode_len() == 0 || same_text(filter, "all") || same_text(filter, d.name()) || (
    same_text(filter, "queue") && queued)
}

/// What the browser is doing, as the manager shows it.
pub open spec fn spec_active_kind(c: Command) -> Seq<char> {
    match c {
        Command::GetSession => "Connecting X"@,
        Command::ScanPage { .. } => "Loading followers"@,
        Command::InspectAccount { .. } => "Checking activity"@,
        Command::RemoveFollower { .. } => "Removing follower"@,
        Command::Reconcile { .. } => "Checking removal result"@,
        Command::OpenProfile { .. } => "Opening profile"@,
    }
}

/// Names what the browser is doing.
pub fn active_kind(c: &Command) -> (r: &'static str)
    ensures
        r@ == spec_active_kind(*c),
{
    match c {
        Command::GetSession => "Connecting X",
        Command::ScanPage { .. } => "Loading followers",
        Command::InspectAccount { .. } => "Checking activity",
        Command::RemoveFollower { .. } => "Removing follower",
        Command::Reconcile { .. } => "Checking removal result",
        Command::OpenProfile { .. } => "Opening profile",
    }
}

/// The account a command works on, for checks, removals and
/// reconciliations.
pub open spec fn spec_working_target(c: Command) -> Option<Seq<char>> {
    match c {
        Command::InspectAccount { target_id, .. } => Some(target_id@),
        Command::RemoveFollower { target_id, .. } => Some(target_id@),
        Command::Reconcile { target_id, .. } => Some(target_id@),
        _ => None,
    }
}

/// The account a command works on.
pub fn working_target(c: &Command) -> (r: Option<&String>)
    ensures
        match r {
            Some(t) => spec_working_target(*c) == Some(t@),
            None => spec_working_target(*c) is None,
        },
{
    match c {
        Command::InspectAccount { target_id, .. } => Some(target_id),
        Command::RemoveFollower { target_id, .. } => Some(target_id),
        Command::Reconcile { target_id, .. } => Some(target_id),
        _ => None,
    }
}

/// Why the manager refuses a control.
#[derive(Clone, Copy, Debug, PartialEq, Eq, Structural)]
pub enum ControlError {
    CancelCleanupFirst,
    WaitBeforeCollecting,
    ConfirmRuleFirst,
    NoWorkToResume,
    ResolveUncertainFirst,
    AccountGone,
    RemovalInFlight,
    SettingsOutOfRange,
}

/// The text shown for each refused control.
pub open spec fn control_error_text(e: ControlError) -> Seq<char> {
    match e {
        ControlError::CancelCleanupFirst => "Cancel the current cleanup before collecting again"@,
        ControlError::WaitBeforeCollecting => "Wait for the current task before collecting again"@,
        ControlError::ConfirmRuleFirst => "Confirm the cleanup rule first"@,
        ControlError::NoWorkToResume => "No work to resume"@,
        ControlError::ResolveUncertainFirst => "Resolve uncertain removals in the terminal first"@,
        ControlError::AccountGone => "Account no longer in this inventory"@,
        ControlError::RemovalInFlight => "Removal already in flight. Its result must arrive before this account can be changed."@,
        ControlError::SettingsOutOfRange => "Settings out of range"@,
    }
}

impl ControlError {
    /// The text shown for this refusal.
    pub fn message(&self) -> (r: &'static str)
        ensures
            r@ == control_error_text(*self),
    {
        match self {
            ControlError::CancelCleanupFirst => "Cancel the current cleanup before collecting again",
            ControlError::WaitBeforeCollecting => "Wait for the current task before collecting again",
            ControlError::ConfirmRuleFirst => "Confirm the cleanup rule first",
            ControlError::NoWorkToResume => "No work to resume",
            ControlError::ResolveUncertainFirst => "Resolve uncertain removals in the terminal first",
            ControlError::AccountGone => "Account no longer in this inventory",
            ControlError::RemovalInFlight => "Removal already in flight. Its result must arrive before this account can be changed.",
            ControlError::SettingsOutOfRange => "Settings out of range",
        }
    }
}

/// Collecting again: not under a cleanup and not while a command runs.
pub fn check_collect(auto: bool, pending: bool) -> (r: Result<(), ControlError>)
    ensures
        r == (if auto {
            Err::<(), ControlError>(ControlError::CancelCleanupFirst)
        } else if pending {
            Err::<(), ControlError>(ControlError::WaitBeforeCollecting)
        } else {
            Ok(())
        }),
{
    if auto {
        Err(ControlError::CancelCleanupFirst)
    } else if pending {
        Err(ControlError::WaitBeforeCollecting)
    } else {
        Ok(())
    }
}

/// Starting the cleanup needs the rule confirmed.
pub fn check_start(confirmed: bool) -> (r: Result<(), ControlError>)
    ensures
        r == (if confirmed {
            Ok(())
        } else {
            Err::<(), ControlError>(ControlError::ConfirmRuleFirst)
        }),
{
    if confirmed {
        Ok(())
    } else {
        Err(ControlError::ConfirmRuleFirst)
    }
}

/// Resuming needs work to resume (a cleanup, a queue, or an unfinished
/// collection or activity pass), and no uncertain removal outside a simple
/// cleanup.
pub fn check_resume_control(
    auto: bool,
    has_batch: bool,
    phase: &str,
    uncertain: usize,
    simple_running: bool,
) -> (r: Result<(), ControlError>)
    ensures
        r == (if !(auto || has_batch || phase@ == "following"@ || phase@ == "followers"@ || phase@
            == "inspect"@) {
            Err::<(), ControlError>(ControlError::NoWorkToResume)
        } else if !(uncertain == 0 || simple_running) {
            Err::<(), ControlError>(ControlError::ResolveUncertainFirst)
        } else {
            Ok(())
        }),
{
    let resumable = auto || has_batch || same_text(phase, "following") || same_text(
        phase,
        "followers",
    ) || same_text(phase, "inspect");
    if !resumable {
        return Err(ControlError::NoWorkToResume);
    }
    if !(uncertain == 0 || simple_running) {
        return Err(ControlError::ResolveUncertainFirst);
    }
    Ok(())
}

/// Changing a Keep choice: the account must be in the inventory and not
/// the target of a removal in flight.
pub fn check_keep(accounts: &Vec<Account>, target_id: &str, pending: Option<&Command>) -> (r: Result<
    (),
    ControlError,
>)
    ensures
        r == (if crate::app::spec_find_account(accounts@, target_id@) is None {
            Err::<(), ControlError>(ControlError::AccountGone)
        } else if pending matches Some(c) && (*c matches Command::RemoveFollower { target_id: t, .. }
            && t@ == target_id@) {
            Err::<(), ControlError>(ControlError::RemovalInFlight)
        } else {
            Ok(())
        }),
{
    if crate::app::find_account(accounts, target_id).is_none() {
        return Err(ControlError::AccountGone);
    }
    match pending {
        Some(Command::RemoveFollower { target_id: t, .. }) => {
            if same_text(t.as_str(), target_id) {
                return Err(ControlError::RemovalInFlight);
            }
        },
        _ => {},
    }
    Ok(())
}

/// Processing settings within range: 5 to 300 seconds between removals and
/// 1 to 500 attempts per rolling hour.
pub fn check_settings(p: &Policy) -> (r: Result<(), ControlError>)
    ensures
        r == (if 5 <= p.delay_seconds <= 300 && 1 <= p.batch_limit <= 500 {
            Ok(())
        } else {
            Err::<(), ControlError>(ControlError::SettingsOutOfRange)
        }),
{
    if 5 <= p.delay_seconds && p.delay_seconds <= 300 && 1 <= p.batch_limit && p.batch_limit <= 500 {
        Ok(())
    } else {
        Err(ControlError::SettingsOutOfRange)
    }
}

/// Law: every view the snapshot counts can be asked for. The default
/// view, `all`, `queue` and the view of each decision are accepted for any
/// search up to 200 bytes and any page up to a million.
pub proof fn law_every_counted_view_is_accepted(q: Query, d: Decision)
    requires
        byte_len(q.search@) <= 200,
        q.page <= 1_000_000,
        q.filter@ == decision_text(d) || q.filter@ == "all"@ || q.filter@ == "queue"@ || q.filter@.len() == 0,
    ensures
        spec_check_query(q) == Ok::<(), ManagerError>(()),
{
    let v = known_views();
    assert(v[0] == ""@ && v[1] == "all"@ && v[2] == "keep"@ && v[3] == "remove"@);
    assert(v[4] == "review"@ && v[5] == "removed"@ && v[6] == "queue"@);
    if q.filter@.len() == 0 {
        reveal_strlit("");
        assert(q.filter@ =~= ""@);
        assert(v[0] == q.filter@);
    } else if q.filter@ == "all"@ {
        assert(v[1] == q.filter@);
    } else if q.filter@ == "queue"@ {
        assert(v[6] == q.filter@);
    } else {
        match d {
            Decision::Keep => assert(v[2] == q.filter@),
            Decision::Remove => assert(v[3] == q.filter@),
            Decision::Review => assert(v[4] == q.filter@),
            Decision::Removed => assert(v[5] == q.filter@),
        }
    }
}

/// Law: the manager never plans the removal of a kept account.
pub proof fn law_kept_never_planned(a: Account, receipt: Option<Seq<char>>, p: Policy, now: i64)
    requires
        a.kept,
    ensures
        !(spec_row_decision(a, receipt, p, now) matches Some((d, _)) && d == Decision::Remove),
{
}

/// The state of the last journaled removal of account `id`, where the
/// journal holds `(target, state)` pairs, oldest first.
pub open spec fn spec_receipt_for(receipts: Seq<(String, String)>, id: Seq<char>) -> Option<Seq<char>>
    decreases receipts.len(),
{
    if receipts.len() == 0 {
        None
    } else if receipts.last().0@ == id {
        Some(receipts.last().1@)
    } else {
        spec_receipt_for(receipts.drop_last(), id)
    }
}

/// Looks up the state of the last journaled removal of account `id`.
pub fn receipt_for<'a>(receipts: &'a Vec<(String, String)>, id: &str) -> (r: Option<&'a str>)
    ensures
        match r {
            Some(x) => spec_receipt_for(receipts@, id@) == Some(x@),
            None => spec_receipt_for(receipts@, id@) is None,
        },
{
    let mut k: usize = receipts.len();
    assert(receipts@.take(k as int) =~= receipts@);
    while k > 0
        invariant
            k <= receipts@.len(),
            spec_receipt_for(receipts@, id@) == spec_receipt_for(receipts@.take(k as int), id@),
        decreases k,
    {
        proof {
            assert(receipts@.take(k as int).drop_last() =~= receipts@.take(k - 1));
        }
        if same_text(receipts[k - 1].0.as_str(), id) {
            return Some(receipts[k - 1].1.as_str());
        }
        k = k - 1;
    }
    None
}

/// The counts a snapshot reports: every row, each decision's rows, and the
/// queued rows.
#[derive(Clone, Copy, Debug, PartialEq, Eq, Structural)]
pub struct Counts {
    pub all: usize,
    pub keep: usize,
    pub remove: usize,
    pub review: usize,
    pub removed: usize,
    pub queue: usize,
}

/// The counts after adding a row with decision `d`, queued or not.
pub open spec fn add_row(c: Counts, d: Decision, queued: bool) -> Counts {
    Counts {
        all: (c.all + 1) as usize,
        keep: if d == Decision::Keep { (c.keep + 1) as usize } else { c.keep },
        remove: if d == Decision::Remove { (c.remove + 1) as usize } else { c.remove },
        review: if d == Decision::Review { (c.review + 1) as usize } else { c.review },
        removed: if d == Decision::Removed { (c.removed + 1) as usize } else { c.removed },
        queue: if queued { (c.queue + 1) as usize } else { c.queue },
    }
}

/// No counts yet.
pub open spec fn no_counts() -> Counts {
    Counts { all: 0, keep: 0, remove: 0, review: 0, removed: 0, queue: 0 }
}

/// The counts of a snapshot over `accounts`: each account that has a row
/// adds to `all`, to its decision, and to `queue` when it is queued.
pub open spec fn spec_snapshot_counts(
    accounts: Seq<Account>,
    receipts: Seq<(String, String)>,
    queued: Seq<String>,
    p: Policy,
    now: i64,
) -> Counts
    decreases accounts.len(),
{
    if accounts.len() == 0 {
        no_counts()
    } else {
        let rest = spec_snapshot_counts(accounts.drop_last(), receipts, queued, p, now);
        let a = accounts.last();
        match spec_row_decision(a, spec_receipt_for(receipts, a.id@), p, now) {
            Some((d, _)) => add_row(rest, d, crate::app::seq_has_text(queued, a.id@)),
            None => rest,
        }
    }
}

proof fn lemma_counts_bounded(
    accounts: Seq<Account>,
    receipts: Seq<(String, String)>,
    queued: Seq<String>,
    p: Policy,
    now: i64,
)
    requires
        accounts.len() <= usize::MAX,
    ensures
        ({
            let c = spec_snapshot_counts(accounts, receipts, queued, p, now);
            c.all <= accounts.len() && c.keep <= c.all && c.remove <= c.all && c.review <= c.all
                && c.removed <= c.all && c.queue <= c.all
        }),
    decreases accounts.len(),
{
    if accounts.len() > 0 {
        lemma_counts_bounded(accounts.drop_last(), receipts, queued, p, now);
    }
}

/// Counts the rows of a snapshot.
pub fn snapshot_counts(
    accounts: &Vec<Account>,
    receipts: &Vec<(String, String)>,
    queued: &Vec<String>,
    p: &Policy,
    now: i64,
) -> (r: Counts)
    ensures
        r == spec_snapshot_counts(accounts@, receipts@, queued@, *p, now),
{
    let mut c = Counts { all: 0, keep: 0, remove: 0, review: 0, removed: 0, queue: 0 };
    let mut i: usize = 0;
    while i < accounts.len()
        invariant
            i <= accounts@.len(),
            c == spec_snapshot_counts(accounts@.take(i as int), receipts@, queued@, *p, now),
        decreases accounts@.len() - i,
    {
        proof {
            assert(accounts@.take(i + 1).drop_last() =~= accounts@.take(i as int));
            lemma_counts_bounded(accounts@.take(i as int), receipts@, queued@, *p, now);
        }
        let a = &accounts[i];
        let receipt = receipt_for(receipts, a.id.as_str());
        match row_decision(a, receipt, p, now) {
            Some((d, _)) => {
                let q = crate::app::text_in(queued, a.id.as_str());
                c = Counts {
                    all: c.all + 1,
                    keep: if d == Decision::Keep { c.keep + 1 } else { c.keep },
                    remove: if d == Decision::Remove { c.remove + 1 } else { c.remove },
                    review: if d == Decision::Review { c.review + 1 } else { c.review },
                    removed: if d == Decision::Removed { c.removed + 1 } else { c.removed },
                    queue: if q { c.queue + 1 } else { c.queue },
                };
            },
            None => {},
        }
        i = i + 1;
    }
    proof {
        assert(accounts@.take(accounts@.len() as int) =~= accounts@);
    }
    c
}

/// Law: every row of a snapshot has exactly one of the four decisions, so
/// the count of all rows is the sum of the decision counts.
pub proof fn law_counts_add_up(
    accounts: Seq<Account>,
    receipts: Seq<(String, String)>,
    queued: Seq<String>,
    p: Policy,
    now: i64,
)
    requires
        accounts.len() <= usize::MAX,
    ensures
        ({
            let c = spec_snapshot_counts(accounts, receipts, queued, p, now);
            c.all == c.keep + c.remove + c.review + c.removed
        }),
    decreases accounts.len(),
{
    if accounts.len() > 0 {
        law_counts_add_up(accounts.drop_last(), receipts, queued, p, now);
        lemma_counts_bounded(accounts.drop_last(), receipts, queued, p, now);
    }
}

/// Account `x` has a row in the view `filter` for the search `search`.
pub open spec fn snapshot_row(
    accounts: Seq<Account>,
    receipts: Seq<(String, String)>,
    queued: Seq<String>,
    p: Policy,
    now: i64,
    filter: Seq<char>,
    search: Seq<char>,
    x: int,
) -> bool {
    &&& 0 <= x < accounts.len()
    &&& match spec_row_decision(accounts[x], spec_receipt_for(receipts, accounts[x].id@), p, now) {
        Some((d, _)) => spec_in_view(filter, d, crate::app::seq_has_text(queued, accounts[x].id@))
            && crate::app::matches_search(accounts[x], search),
        None => false,
    }
}

/// `order` lists exactly the rows of the view, each once, by lowercased
/// handle, then ID.
pub open spec fn snapshot_order(
    order: Seq<usize>,
    accounts: Seq<Account>,
    receipts: Seq<(String, String)>,
    queued: Seq<String>,
    p: Policy,
    now: i64,
    filter: Seq<char>,
    search: Seq<char>,
) -> bool {
    &&& forall|x: usize| order.contains(x) <==> snapshot_row(accounts, receipts, queued, p, now, filter, search, x as int)
    &&& forall|a: int, b: int|
        0 <= a < b < order.len() ==> crate::app::listed_before(accounts, #[trigger] order[a] as int, #[trigger] order[b] as int)
}

/// One page of a snapshot: the positions of its rows in the inventory, the
/// number of rows in the view, the page shown, and the counts.
pub struct SnapshotPage {
    pub rows: Vec<usize>,
    pub total: usize,
    pub page: usize,
    pub counts: Counts,
}

/// The page of the inventory a snapshot shows. A query with a search over
/// 200 bytes, a page beyond a million or an unknown view is refused. The
/// view's rows are sorted by lowercased handle, then ID; the page asked for
/// is clamped to the last one and shows up to 50 rows; the counts cover
/// every row whatever the view.
pub fn snapshot_page(
    accounts: &Vec<Account>,
    receipts: &Vec<(String, String)>,
    queued: &Vec<String>,
    p: &Policy,
    now: i64,
    q: &Query,
) -> (r: Result<SnapshotPage, ManagerError>)
    ensures
        match spec_check_query(*q) {
            Err(e) => r == Err::<SnapshotPage, ManagerError>(e),
            Ok(()) => r matches Ok(s) && {
                let (page, start, end) = spec_page_window(s.total, q.page);
                &&& s.page == page
                &&& s.counts == spec_snapshot_counts(accounts@, receipts@, queued@, *p, now)
                &&& exists|order: Seq<usize>|
                    snapshot_order(order, accounts@, receipts@, queued@, *p, now, q.filter@, q.search@)
                        && order.len() == s.total && s.rows@ == order.subrange(start as int, end as int)
            },
        },
{
    match check_query(q) {
        Err(e) => {
            return Err(e);
        },
        Ok(()) => {},
    }
    let lower_query = crate::text::to_lowercase(q.search.as_str());
    let needle = crate::text::chars_of(lower_query.as_str());
    let n = accounts.len();
    let mut cands: Vec<usize> = Vec::new();
    let mut i: usize = 0;
    while i < n
        invariant
            n == accounts@.len(),
            i <= n,
            needle@ == crate::text::lowercase(q.search@),
            crate::order::in_bounds(cands@, i as int),
            forall|a: int, b: int| 0 <= a < b < cands@.len() ==> cands@[a] < cands@[b],
            forall|x: usize|
                cands@.contains(x) <==> (x < i && snapshot_row(
                    accounts@,
                    receipts@,
                    queued@,
                    *p,
                    now,
                    q.filter@,
                    q.search@,
                    x as int,
                )),
        decreases n - i,
    {
        let a = &accounts[i];
        let receipt = receipt_for(receipts, a.id.as_str());
        let take = match row_decision(a, receipt, p, now) {
            Some((d, _)) => {
                let queued_now = crate::app::text_in(queued, a.id.as_str());
                if in_view(q.filter.as_str(), d, queued_now) {
                    let mut hit = needle.len() == 0;
                    if !hit {
                        let h = crate::text::to_lowercase(a.handle.as_str());
                        hit = crate::text::contains_text(&crate::text::chars_of(h.as_str()), &needle);
                    }
                    if !hit {
                        let nm = crate::text::to_lowercase(a.name.as_str());
                        hit = crate::text::contains_text(&crate::text::chars_of(nm.as_str()), &needle);
                    }
                    hit
                } else {
                    false
                }
            },
            None => false,
        };
        proof {
            assert(take == snapshot_row(accounts@, receipts@, queued@, *p, now, q.filter@, q.search@, i as int));
        }
        let ghost before = cands@;
        if take {
            cands.push(i);
        }
        proof {
            assert forall|x: usize|
                cands@.contains(x) <==> (x < i + 1 && snapshot_row(
                    accounts@,
                    receipts@,
                    queued@,
                    *p,
                    now,
                    q.filter@,
                    q.search@,
                    x as int,
                )) by {
                if cands@.contains(x) {
                    let k = choose|k: int| 0 <= k < cands@.len() && cands@[k] == x;
                    if k < before.len() {
                        assert(before.contains(x));
                    }
                }
                if x < i && snapshot_row(accounts@, receipts@, queued@, *p, now, q.filter@, q.search@, x as int) {
                    assert(before.contains(x));
                    let k = choose|k: int| 0 <= k < before.len() && before[k] == x;
                    assert(cands@[k] == x);
                }
                if x == i && take {
                    assert(cands@[cands@.len() - 1] == x);
                }
            }
            assert forall|a: int, b: int| 0 <= a < b < cands@.len() implies cands@[a] < cands@[b] by {
                if b == cands@.len() - 1 && cands@.len() > before.len() {
                    assert(before.contains(before[a]));
                }
            }
        }
        i = i + 1;
    }
    let sorted = crate::app::sort_listing(accounts, &cands);
    let total = sorted.len();
    let (page, start, end) = page_window(total, q.page);
    let mut rows: Vec<usize> = Vec::new();
    let mut k: usize = start;
    while k < end
        invariant
            start <= k <= end <= sorted@.len(),
            rows@ == sorted@.subrange(start as int, k as int),
        decreases end - k,
    {
        rows.push(sorted[k]);
        proof {
            assert(sorted@.subrange(start as int, k + 1) =~= sorted@.subrange(start as int, k as int).push(
                sorted@[k as int],
            ));
        }
        k = k + 1;
    }
    let counts = snapshot_counts(accounts, receipts, queued, p, now);
    proof {
        assert(snapshot_order(sorted@, accounts@, receipts@, queued@, *p, now, q.filter@, q.search@));
    }
    Ok(SnapshotPage { rows, total, page, counts })
}

} // verus!
