//! Controller state and the decisions the controller makes about it:
//! collection progress, retries, the removal queue, and account merging.
use crate::model::{Account, Policy};
use crate::protocol::{Command, Work, WorkResult};
use crate::text::same_text;
use std::collections::VecDeque;
use vstd::prelude::*;

verus! {

/// Progress of follower collection and activity checks.
pub struct Scan {
    pub adapter_revision: u8,
    /// `following`, `followers`, `review`, `inspect`, `done`, or empty.
    pub phase: String,
    pub cursor: Option<String>,
    /// Cursors already followed in this pass; none repeats.
    pub cursors: Vec<String>,
    pub started_at: i64,
    pub following_complete: bool,
    pub collected_total: usize,
}

/// Failed attempts on one account and when it may be tried again.
#[derive(Clone, Copy, Debug, Default, PartialEq, Eq, Structural)]
pub struct Retry {
    pub attempts: u32,
    pub due_ms: i64,
}

/// An approved removal queue with the rules it was approved under.
pub struct Batch {
    pub id: String,
    pub ids: VecDeque<String>,
    pub policy: Policy,
}

/// The screen the controller shows.
#[derive(Clone, Copy, Debug, PartialEq, Eq, Structural)]
pub enum Mode {
    Setup,
    Browse,
    Search,
    Filters,
    Settings,
    AutoConfirm,
    Details,
    Help,
    Confirm,
}

/// Failed attempts after which an account is set aside for a later pass.
pub const MAX_ATTEMPTS: u32 = 4;

/// The wait before the next try after `attempts` failures: one minute,
/// fifteen minutes, six hours, then a day.
pub open spec fn retry_delay_ms(attempts: u32) -> int {
    if attempts <= 1 {
        60_000
    } else if attempts == 2 {
        900_000
    } else if attempts == 3 {
        21_600_000
    } else {
        86_400_000
    }
}

/// An account may be tried now: it has no retry record, or it has failed
/// fewer than four times and its wait is over.
pub open spec fn spec_retry_ready(retry: Option<Retry>, now: i64) -> bool {
    match retry {
        None => true,
        Some(r) => r.attempts < MAX_ATTEMPTS && r.due_ms <= now,
    }
}

impl Retry {
    /// Records one more failure at `now` and schedules the next try.
    pub fn record_failure(&mut self, now: i64)
        ensures
            final(self).attempts == (if old(self).attempts == u32::MAX {
                u32::MAX as int
            } else {
                old(self).attempts + 1
            }),
            final(self).due_ms == crate::pacing::clamp_i64(now + retry_delay_ms(final(self).attempts)),
    {
        if self.attempts < u32::MAX {
            self.attempts = self.attempts + 1;
        }
        let delay: i64 = if self.attempts <= 1 {
            60_000
        } else if self.attempts == 2 {
            900_000
        } else if self.attempts == 3 {
            21_600_000
        } else {
            86_400_000
        };
        let due = (now as i128) + (delay as i128);
        self.due_ms = if due > (i64::MAX as i128) {
            i64::MAX
        } else {
            due as i64
        };
    }
}

/// Whether an account with this retry record may be tried at `now`.
pub fn retry_ready(retry: Option<Retry>, now: i64) -> (r: bool)
    ensures
        r == spec_retry_ready(retry, now),
{
    match retry {
        None => true,
        Some(r) => r.attempts < MAX_ATTEMPTS && r.due_ms <= now,
    }
}

/// Law: after four failures an account is never tried again in this pass,
/// whatever the time.
pub proof fn law_four_failures_set_aside(r: Retry, now: i64)
    requires
        r.attempts >= MAX_ATTEMPTS,
    ensures
        !spec_retry_ready(Some(r), now),
{
}

/// Law: the waits between tries never shrink as failures add up.
pub proof fn law_retry_waits_grow(a: u32, b: u32)
    requires
        a <= b,
    ensures
        retry_delay_ms(a) <= retry_delay_ms(b),
{
}


/// An account from a collected page, merged with what is already known:
/// the Keep choice always survives; the list it came from fixes one side
/// of the relationship; once the following list is complete, a follower
/// not seen in it is known not to be followed back.
pub open spec fn spec_merge_page_account(
    old: Option<Account>,
    incoming: Account,
    following_list: bool,
    following_complete: bool,
) -> Account {
    let kept = match old {
        Some(o) => o.kept,
        None => incoming.kept,
    };
    let i_follow = if following_list {
        Some(true)
    } else if following_complete {
        match old {
            Some(o) => match o.i_follow {
                Some(v) => Some(v),
                None => Some(false),
            },
            None => Some(false),
        }
    } else {
        incoming.i_follow
    };
    let follows_me = if following_list {
        incoming.follows_me
    } else {
        Some(true)
    };
    Account { kept, i_follow, follows_me, ..incoming }
}

/// Merges one account of a collected page with its saved record.
pub fn merge_page_account(
    old: Option<&Account>,
    incoming: Account,
    following_list: bool,
    following_complete: bool,
) -> (r: Account)
    ensures
        r == spec_merge_page_account(
            match old {
                Some(o) => Some(*o),
                None => None,
            },
            incoming,
            following_list,
            following_complete,
        ),
{
    let mut a = incoming;
    match old {
        Some(o) => {
            a.kept = o.kept;
            if !following_list && following_complete {
                a.i_follow = match o.i_follow {
                    Some(v) => Some(v),
                    None => Some(false),
                };
            }
        },
        None => {
            if !following_list && following_complete {
                a.i_follow = Some(false);
            }
        },
    }
    if following_list {
        a.i_follow = Some(true);
    } else {
        a.follows_me = Some(true);
    }
    a
}

/// Law: a Keep choice survives every refresh of the follower list.
pub proof fn law_keep_survives_refresh(
    old: Account,
    incoming: Account,
    following_list: bool,
    following_complete: bool,
)
    ensures
        spec_merge_page_account(Some(old), incoming, following_list, following_complete).kept
            == old.kept,
{
}

/// Law: what is known of following an account is never lost by a page.
/// A following page marks the account as followed. Once the following list
/// is complete, a follower page keeps what was known of following the
/// account (so an account you follow stays protected) and marks as not
/// followed only an account of which nothing was known. Before that, a
/// follower page takes what the page says. A follower page marks the
/// account as following you; a following page keeps what it says of that.
pub proof fn law_follow_knowledge_is_kept(
    old: Option<Account>,
    incoming: Account,
    following_list: bool,
    following_complete: bool,
)
    ensures
        following_list ==> spec_merge_page_account(old, incoming, following_list, following_complete).i_follow
            == Some(true),
        !following_list && following_complete && (old matches Some(o) && o.i_follow is Some) ==> spec_merge_page_account(
            old,
            incoming,
            following_list,
            following_complete,
        ).i_follow == old->0.i_follow,
        !following_list && following_complete && !(old matches Some(o) && o.i_follow is Some) ==> spec_merge_page_account(
            old,
            incoming,
            following_list,
            following_complete,
        ).i_follow == Some(false),
        !following_list && !following_complete ==> spec_merge_page_account(
            old,
            incoming,
            following_list,
            following_complete,
        ).i_follow == incoming.i_follow,
        (old matches Some(o) && o.i_follow == Some(true)) && (following_list || following_complete)
            ==> spec_merge_page_account(old, incoming, following_list, following_complete).i_follow == Some(
            true,
        ),
        !following_list ==> spec_merge_page_account(old, incoming, following_list, following_complete).follows_me
            == Some(true),
        following_list ==> spec_merge_page_account(old, incoming, following_list, following_complete).follows_me
            == incoming.follows_me,
{
}

/// Whether `s` occurs in `items`.
pub open spec fn seq_has_text(items: Seq<String>, s: Seq<char>) -> bool {
    exists|i: int| 0 <= i < items.len() && #[trigger] items[i]@ == s
}

/// A page's next cursor repeats the one just read or one read earlier in
/// this pass, so following it could loop forever.
pub open spec fn spec_cursor_repeats(scan: Scan, requested: Option<Seq<char>>, next: Option<Seq<char>>) -> bool {
    match next {
        Some(c) => requested == Some(c) || seq_has_text(scan.cursors@, c),
        None => false,
    }
}

/// Why a collected page stops collection.
#[derive(Debug, PartialEq, Eq, Structural)]
pub enum PageError {
    /// The next cursor was already followed.
    RepeatedCursor,
    /// The page is neither the last nor gives a next cursor.
    NoProgress,
}

impl PageError {
    pub fn message(&self) -> (r: &'static str)
        ensures
            *self == PageError::RepeatedCursor ==> r@
                == "Repeated cursor; scan stopped without claiming completeness"@,
            *self == PageError::NoProgress ==> r@
                == "Page did not establish completion or a next cursor"@,
    {
        match self {
            PageError::RepeatedCursor => "Repeated cursor; scan stopped without claiming completeness",
            PageError::NoProgress => "Page did not establish completion or a next cursor",
        }
    }
}

/// Where collection stands after a page.
#[derive(Debug, PartialEq, Eq, Structural)]
pub enum PageProgress {
    /// Another page of the same list follows.
    MorePages,
    /// The following list is complete; followers are collected next.
    FollowingComplete,
    /// The follower list is complete.
    FollowersComplete,
}

/// Whether `items` holds the text `s`.
pub fn text_in(items: &Vec<String>, s: &str) -> (r: bool)
    ensures
        r == seq_has_text(items@, s@),
{
    let mut i: usize = 0;
    while i < items.len()
        invariant
            i <= items@.len(),
            forall|j: int| 0 <= j < i ==> items@[j]@ != s@,
        decreases items@.len() - i,
    {
        if same_text(items[i].as_str(), s) {
            return true;
        }
        i = i + 1;
    }
    false
}

fn option_text_eq(a: Option<&String>, b: &str) -> (r: bool)
    ensures
        r == (match a {
            Some(x) => Some(x@),
            None => None,
        } == Some(b@)),
{
    match a {
        Some(x) => same_text(x.as_str(), b),
        None => false,
    }
}

/// The view of an optional string.
pub open spec fn opt_view(o: Option<String>) -> Option<Seq<char>> {
    match o {
        Some(s) => Some(s@),
        None => None,
    }
}

/// No cursor is recorded twice.
pub open spec fn cursors_distinct(cursors: Seq<String>) -> bool {
    forall|i: int, j: int| 0 <= i < j < cursors.len() ==> cursors[i]@ != cursors[j]@
}

/// What recording a collected page does to the collection state.
pub open spec fn page_finished(
    o: Scan,
    n: Scan,
    following_list: bool,
    next_cursor: Option<String>,
    complete: bool,
    cleanup_running: bool,
    followers_found: usize,
    r: Result<PageProgress, PageError>,
) -> bool {
    &&& cursors_distinct(n.cursors@)
    &&& n.started_at == o.started_at
    &&& n.adapter_revision == o.adapter_revision
    &&& if complete {
        &&& n.cursor is None && n.cursors@.len() == 0
        &&& if following_list {
            &&& r == Ok::<PageProgress, PageError>(PageProgress::FollowingComplete)
            &&& n.following_complete && n.phase@ == "followers"@
            &&& n.collected_total == o.collected_total
        } else {
            &&& r == Ok::<PageProgress, PageError>(PageProgress::FollowersComplete)
            &&& n.collected_total == followers_found
            &&& n.phase@ == (if cleanup_running {
                "inspect"@
            } else {
                "review"@
            })
            &&& n.following_complete == o.following_complete
        }
    } else {
        &&& opt_view(n.cursor) == opt_view(next_cursor)
        &&& n.phase@ == o.phase@
        &&& n.following_complete == o.following_complete
        &&& n.collected_total == o.collected_total
        &&& match next_cursor {
            None => r == Err::<PageProgress, PageError>(PageError::NoProgress) && n.cursors@ == o.cursors@,
            Some(c) => r == Ok::<PageProgress, PageError>(PageProgress::MorePages) && n.cursors@ == o.cursors@.push(c),
        }
    }
}

impl Scan {
    /// Whether following `next` would revisit a page of this pass.
    pub fn cursor_repeats(&self, requested: Option<&String>, next: Option<&String>) -> (r: bool)
        ensures
            r == spec_cursor_repeats(
                *self,
                match requested {
                    Some(c) => Some(c@),
                    None => None,
                },
                match next {
                    Some(c) => Some(c@),
                    None => None,
                },
            ),
    {
        match next {
            Some(c) => option_text_eq(requested, c.as_str()) || text_in(&self.cursors, c.as_str()),
            None => false,
        }
    }

    /// Records a collected page whose cursor did not repeat: a complete
    /// following list moves on to followers; a complete follower list ends
    /// collection with the number of followers found, moving to activity
    /// checks for a running cleanup or to review otherwise; an incomplete
    /// page must give the next cursor.
    pub fn finish_page(
        &mut self,
        following_list: bool,
        next_cursor: Option<String>,
        complete: bool,
        cleanup_running: bool,
        followers_found: usize,
    ) -> (r: Result<PageProgress, PageError>)
        requires
            cursors_distinct(old(self).cursors@),
            !spec_cursor_repeats(*old(self), None, opt_view(next_cursor)),
        ensures
            page_finished(
                *old(self),
                *final(self),
                following_list,
                next_cursor,
                complete,
                cleanup_running,
                followers_found,
                r,
            ),
    {
        let next_is_some = next_cursor.is_some();
        match &next_cursor {
            Some(c) => {
                let ghost before = self.cursors@;
                self.cursors.push(c.clone());
                proof {
                    assert forall|i: int, j: int|
                        0 <= i < j < self.cursors@.len() implies self.cursors@[i]@
                        != self.cursors@[j]@ by {
                        if j == before.len() {
                            assert(!seq_has_text(before, c@));
                            assert(self.cursors@[i] == before[i]);
                        }
                    }
                }
            },
            None => {},
        }
        self.cursor = next_cursor;
        if complete {
            self.cursor = None;
            self.cursors = Vec::new();
            if following_list {
                self.following_complete = true;
                self.phase = "followers".to_owned();
                return Ok(PageProgress::FollowingComplete);
            } else {
                self.collected_total = followers_found;
                self.phase = if cleanup_running {
                    "inspect".to_owned()
                } else {
                    "review".to_owned()
                };
                return Ok(PageProgress::FollowersComplete);
            }
        }
        if !next_is_some {
            return Err(PageError::NoProgress);
        }
        Ok(PageProgress::MorePages)
    }
}


/// The outcome the browser reports for a removal.
#[derive(Clone, Copy, Debug, PartialEq, Eq, Structural)]
pub enum ActionStatus {
    VerifiedRemoved,
    AlreadyAbsent,
    Skipped,
    Failed,
    Uncertain,
}

/// The status named by a receipt, if it is one of the five known ones.
pub open spec fn spec_action_status(s: Seq<char>) -> Option<ActionStatus> {
    if s == "verified_removed"@ {
        Some(ActionStatus::VerifiedRemoved)
    } else if s == "already_absent"@ {
        Some(ActionStatus::AlreadyAbsent)
    } else if s == "skipped"@ {
        Some(ActionStatus::Skipped)
    } else if s == "failed"@ {
        Some(ActionStatus::Failed)
    } else if s == "uncertain"@ {
        Some(ActionStatus::Uncertain)
    } else {
        None
    }
}

/// Parses a receipt's status.
pub fn parse_action_status(status: &str) -> (r: Option<ActionStatus>)
    ensures
        r == spec_action_status(status@),
{
    if same_text(status, "verified_removed") {
        Some(ActionStatus::VerifiedRemoved)
    } else if same_text(status, "already_absent") {
        Some(ActionStatus::AlreadyAbsent)
    } else if same_text(status, "skipped") {
        Some(ActionStatus::Skipped)
    } else if same_text(status, "failed") {
        Some(ActionStatus::Failed)
    } else if same_text(status, "uncertain") {
        Some(ActionStatus::Uncertain)
    } else {
        None
    }
}

/// Why a removal receipt is refused.
#[derive(Debug, PartialEq, Eq, Structural)]
pub enum ReceiptError {
    /// The result is not a removal receipt.
    InvalidReceipt,
    /// The command was not a removal or a reconciliation.
    NotAnAction,
    /// The receipt names another account.
    TargetMismatch,
    /// The status is not one of the known ones.
    UnknownStatus,
}

impl ReceiptError {
    pub fn message(&self) -> (r: &'static str)
        ensures
            *self == ReceiptError::InvalidReceipt ==> r@ == "Invalid action receipt"@,
            *self == ReceiptError::NotAnAction ==> r@ == "Action response for non-action"@,
            *self == ReceiptError::TargetMismatch ==> r@ == "Action target mismatch"@,
            *self == ReceiptError::UnknownStatus ==> r@ == "Unknown action status"@,
    {
        match self {
            ReceiptError::InvalidReceipt => "Invalid action receipt",
            ReceiptError::NotAnAction => "Action response for non-action",
            ReceiptError::TargetMismatch => "Action target mismatch",
            ReceiptError::UnknownStatus => "Unknown action status",
        }
    }
}

/// The removal attempt a command settles and the account it concerns: a
/// removal settles itself; a reconciliation settles the removal it names.
pub open spec fn spec_settled_attempt(w: Work) -> Option<(Seq<char>, Seq<char>)> {
    match w.command {
        Command::Reconcile { original_command_id, target_id } => Some(
            (original_command_id@, target_id@),
        ),
        Command::RemoveFollower { target_id, .. } => Some((w.command_id@, target_id@)),
        _ => None,
    }
}

/// A receipt that settles the attempt of `w`: it must be a removal
/// receipt, for a removal or reconciliation, about the same account, with a
/// known status. Yields the attempt's command ID and the status.
pub fn check_receipt(w: &Work, result: &WorkResult) -> (r: Result<(String, ActionStatus), ReceiptError>)
    ensures
        !(result is Action) ==> r == Err::<(String, ActionStatus), ReceiptError>(
            ReceiptError::InvalidReceipt,
        ),
        result is Action && spec_settled_attempt(*w) is None ==> r == Err::<
            (String, ActionStatus),
            ReceiptError,
        >(ReceiptError::NotAnAction),
        result matches WorkResult::Action { target_id, status, .. } ==> match spec_settled_attempt(
            *w,
        ) {
            None => true,
            Some((id, target)) => if target != target_id@ {
                r == Err::<(String, ActionStatus), ReceiptError>(ReceiptError::TargetMismatch)
            } else {
                match spec_action_status(status@) {
                    None => r == Err::<(String, ActionStatus), ReceiptError>(
                        ReceiptError::UnknownStatus,
                    ),
                    Some(st) => r matches Ok((rid, rst)) && rid@ == id && rst == st,
                }
            },
        },
{
    let (target, status) = match result {
        WorkResult::Action { target_id, status, .. } => (target_id, status),
        _ => {
            return Err(ReceiptError::InvalidReceipt);
        },
    };
    let (id, expected) = match &w.command {
        Command::Reconcile { original_command_id, target_id } => (original_command_id, target_id),
        Command::RemoveFollower { target_id, .. } => (&w.command_id, target_id),
        _ => {
            return Err(ReceiptError::NotAnAction);
        },
    };
    if !same_text(expected.as_str(), target.as_str()) {
        return Err(ReceiptError::TargetMismatch);
    }
    match parse_action_status(status.as_str()) {
        Some(st) => Ok((id.clone(), st)),
        None => Err(ReceiptError::UnknownStatus),
    }
}

/// The failure codes that mean the browser can no longer act for this
/// account, so a cleanup must stop rather than retry.
pub open spec fn fatal_prefixes() -> Seq<Seq<char>> {
    seq![
        "login_required:"@,
        "access_denied:"@,
        "account_changed:"@,
        "identity_mismatch:"@,
        "signing_unavailable:"@,
    ]
}

/// A failed removal whose message begins with one of the fatal codes.
pub open spec fn spec_is_fatal_failure(status: ActionStatus, message: Seq<char>) -> bool {
    status == ActionStatus::Failed && exists|i: int|
        0 <= i < fatal_prefixes().len() && crate::text::spec_has_prefix(
            message,
            #[trigger] fatal_prefixes()[i],
        )
}

fn starts_with_text(message: &Vec<char>, prefix: &str) -> (r: bool)
    ensures
        r == crate::text::spec_has_prefix(message@, prefix@),
{
    let p = crate::text::chars_of(prefix);
    crate::text::has_prefix(message.as_slice(), p.as_slice())
}

/// Whether a removal failed for a reason that stops the cleanup.
pub fn is_fatal_failure(status: ActionStatus, message: &str) -> (r: bool)
    ensures
        r == spec_is_fatal_failure(status, message@),
{
    if status != ActionStatus::Failed {
        return false;
    }
    let m = crate::text::chars_of(message);
    let a = starts_with_text(&m, "login_required:");
    let b = starts_with_text(&m, "access_denied:");
    let c = starts_with_text(&m, "account_changed:");
    let d = starts_with_text(&m, "identity_mismatch:");
    let e = starts_with_text(&m, "signing_unavailable:");
    proof {
        let ps = fatal_prefixes();
        assert(ps[0] == "login_required:"@);
        assert(ps[1] == "access_denied:"@);
        assert(ps[2] == "account_changed:"@);
        assert(ps[3] == "identity_mismatch:"@);
        assert(ps[4] == "signing_unavailable:"@);
        if a || b || c || d || e {
            if a {
                assert(crate::text::spec_has_prefix(message@, ps[0]));
            } else if b {
                assert(crate::text::spec_has_prefix(message@, ps[1]));
            } else if c {
                assert(crate::text::spec_has_prefix(message@, ps[2]));
            } else if d {
                assert(crate::text::spec_has_prefix(message@, ps[3]));
            } else {
                assert(crate::text::spec_has_prefix(message@, ps[4]));
            }
        }
    }
    a || b || c || d || e
}

/// Error codes after which the controller waits on the cooldown.
pub open spec fn spec_is_backoff_code(code: Seq<char>) -> bool {
    code == "rate_limited"@ || code == "network_unavailable"@
}

/// Whether an error code asks the controller to wait and try again.
pub fn is_backoff_code(code: &str) -> (r: bool)
    ensures
        r == spec_is_backoff_code(code@),
{
    same_text(code, "rate_limited") || same_text(code, "network_unavailable")
}

/// A failed read that is retried automatically after the cooldown rather
/// than pausing work: never a removal or the identity check, a
/// reconciliation only during a cleanup, and only for rate limits and
/// network loss.
pub open spec fn spec_error_retries_read(command: Command, code: Seq<char>, cleanup_running: bool) -> bool {
    !(command is RemoveFollower || command is GetSession) && (!(command is Reconcile)
        || cleanup_running) && spec_is_backoff_code(code)
}

/// Whether a failed read is retried automatically.
pub fn error_retries_read(command: &Command, code: &str, cleanup_running: bool) -> (r: bool)
    ensures
        r == spec_error_retries_read(*command, code@, cleanup_running),
{
    let excluded = matches!(command, Command::RemoveFollower { .. } | Command::GetSession);
    let reconcile = matches!(command, Command::Reconcile { .. });
    !excluded && (!reconcile || cleanup_running) && is_backoff_code(code)
}

/// An identity check that failed without a server wait and for a reason
/// other than a rate limit, a denied access or an account change may be
/// repeated once when X reports a page load.
pub open spec fn spec_identity_can_repeat(result: WorkResult) -> bool {
    match result {
        WorkResult::Error { code, retry_at_ms, .. } => retry_at_ms is None && !(code@
            == "rate_limited"@ || code@ == "access_denied"@ || code@ == "account_changed"@),
        _ => false,
    }
}

/// Whether a failed identity check may be repeated.
pub fn identity_can_repeat(result: &WorkResult) -> (r: bool)
    ensures
        r == spec_identity_can_repeat(*result),
{
    match result {
        WorkResult::Error { code, retry_at_ms, .. } => retry_at_ms.is_none() && !(same_text(
            code.as_str(),
            "rate_limited",
        ) || same_text(code.as_str(), "access_denied") || same_text(
            code.as_str(),
            "account_changed",
        )),
        _ => false,
    }
}


/// Follower `i` is listed before follower `j`: by lowercased handle, then
/// by ID, then by position in the inventory.
pub open spec fn listed_before(accounts: Seq<Account>, i: int, j: int) -> bool {
    let hi = crate::text::lowercase(accounts[i].handle@);
    let hj = crate::text::lowercase(accounts[j].handle@);
    crate::order::seq_lt(hi, hj) || (hi == hj && (crate::order::seq_lt(
        accounts[i].id@,
        accounts[j].id@,
    ) || (accounts[i].id@ == accounts[j].id@ && i < j)))
}

/// An account known to follow you.
pub open spec fn is_follower(a: Account) -> bool {
    a.follows_me == Some(true)
}

/// The positions of the known followers in `accounts`, in listing order.
pub fn ordered_followers(accounts: &Vec<Account>) -> (r: Vec<usize>)
    ensures
        forall|x: usize| r@.contains(x) <==> (x < accounts@.len() && is_follower(accounts@[x as int])),
        forall|a: int, b: int|
            0 <= a < b < r@.len() ==> listed_before(accounts@, #[trigger] r@[a] as int, #[trigger] r@[b] as int),
{
    let n = accounts.len();
    let mut keys: Vec<Vec<char>> = Vec::new();
    let mut ids: Vec<Vec<char>> = Vec::new();
    let mut cands: Vec<usize> = Vec::new();
    let mut i: usize = 0;
    while i < n
        invariant
            n == accounts@.len(),
            i <= n,
            keys@.len() == i,
            ids@.len() == i,
            forall|k: int| 0 <= k < i ==> #[trigger] keys@[k]@ == crate::text::lowercase(accounts@[k].handle@),
            forall|k: int| 0 <= k < i ==> #[trigger] ids@[k]@ == accounts@[k].id@,
            crate::order::in_bounds(cands@, i as int),
            forall|a: int, b: int| 0 <= a < b < cands@.len() ==> cands@[a] < cands@[b],
            forall|x: usize| cands@.contains(x) <==> (x < i && is_follower(accounts@[x as int])),
        decreases n - i,
    {
        let lower = crate::text::to_lowercase(accounts[i].handle.as_str());
        keys.push(crate::text::chars_of(lower.as_str()));
        ids.push(crate::text::chars_of(accounts[i].id.as_str()));
        let ghost before = cands@;
        if accounts[i].follows_me == Some(true) {
            cands.push(i);
        }
        proof {
            assert forall|x: usize| cands@.contains(x) <==> (x < i + 1 && is_follower(accounts@[x as int])) by {
                if cands@.contains(x) {
                    let p = choose|p: int| 0 <= p < cands@.len() && cands@[p] == x;
                    if p < before.len() {
                        assert(before.contains(x));
                    }
                }
                if x < i && is_follower(accounts@[x as int]) {
                    assert(before.contains(x));
                    let p = choose|p: int| 0 <= p < before.len() && before[p] == x;
                    assert(cands@[p] == x);
                }
                if x == i && is_follower(accounts@[x as int]) {
                    assert(cands@[cands@.len() - 1] == x);
                }
            }
            assert forall|a: int, b: int| 0 <= a < b < cands@.len() implies cands@[a] < cands@[b] by {
                if b == cands@.len() - 1 && cands@.len() > before.len() {
                    assert(before.contains(before[a]));
                }
            }
        }
        i = i + 1;
    }
    let r = crate::order::sort_by_key(&cands, 0, cands.len(), &keys, &ids);
    proof {
        assert(cands@.subrange(0, cands@.len() as int) =~= cands@);
        assert forall|a: int, b: int|
            0 <= a < b < r@.len() implies listed_before(accounts@, #[trigger] r@[a] as int, #[trigger] r@[b] as int) by {
            assert(crate::order::key_before(keys@, ids@, r@[a] as int, r@[b] as int));
        }
    }
    r
}

/// The positions `cands` (distinct, in the inventory) in listing order.
pub fn sort_listing(accounts: &Vec<Account>, cands: &Vec<usize>) -> (r: Vec<usize>)
    requires
        crate::order::in_bounds(cands@, accounts@.len() as int),
        forall|a: int, b: int| 0 <= a < b < cands@.len() ==> cands@[a] != cands@[b],
    ensures
        r@.len() == cands@.len(),
        forall|x: usize| r@.contains(x) <==> cands@.contains(x),
        forall|a: int, b: int|
            0 <= a < b < r@.len() ==> listed_before(accounts@, #[trigger] r@[a] as int, #[trigger] r@[b] as int),
{
    let n = accounts.len();
    let mut keys: Vec<Vec<char>> = Vec::new();
    let mut ids: Vec<Vec<char>> = Vec::new();
    let mut i: usize = 0;
    while i < n
        invariant
            n == accounts@.len(),
            i <= n,
            keys@.len() == i,
            ids@.len() == i,
            forall|k: int| 0 <= k < i ==> #[trigger] keys@[k]@ == crate::text::lowercase(accounts@[k].handle@),
            forall|k: int| 0 <= k < i ==> #[trigger] ids@[k]@ == accounts@[k].id@,
        decreases n - i,
    {
        let lower = crate::text::to_lowercase(accounts[i].handle.as_str());
        keys.push(crate::text::chars_of(lower.as_str()));
        ids.push(crate::text::chars_of(accounts[i].id.as_str()));
        i = i + 1;
    }
    let r = crate::order::sort_by_key(cands, 0, cands.len(), &keys, &ids);
    proof {
        assert(cands@.subrange(0, cands@.len() as int) =~= cands@);
        assert forall|a: int, b: int|
            0 <= a < b < r@.len() implies listed_before(accounts@, #[trigger] r@[a] as int, #[trigger] r@[b] as int) by {
            assert(crate::order::key_before(keys@, ids@, r@[a] as int, r@[b] as int));
        }
    }
    r
}

/// The account matches the search: the lowercased query occurs in its
/// lowercased handle or name, or the query is empty.
pub open spec fn matches_search(a: Account, query: Seq<char>) -> bool {
    let q = crate::text::lowercase(query);
    q.len() == 0 || crate::text::spec_contains(crate::text::lowercase(a.handle@), q)
        || crate::text::spec_contains(crate::text::lowercase(a.name@), q)
}

/// The account is shown: it matches the search, and, where only matching
/// accounts are shown, it is eligible for removal at `now`.
pub open spec fn shown(a: Account, query: Seq<char>, only_matching: bool, p: Policy, now: i64) -> bool {
    matches_search(a, query) && (!only_matching || a.spec_reason(p, now as int) is Ok)
}

/// The positions of `order` that are shown, in the same order.
pub open spec fn spec_visible(
    accounts: Seq<Account>,
    order: Seq<usize>,
    query: Seq<char>,
    only_matching: bool,
    p: Policy,
    now: i64,
) -> Seq<usize>
    decreases order.len(),
{
    if order.len() == 0 {
        Seq::empty()
    } else {
        let rest = spec_visible(accounts, order.drop_last(), query, only_matching, p, now);
        if shown(accounts[order.last() as int], query, only_matching, p, now) {
            rest.push(order.last())
        } else {
            rest
        }
    }
}

/// The accounts of `order` shown for a search and filter, in list order.
pub fn visible(
    accounts: &Vec<Account>,
    order: &Vec<usize>,
    query: &str,
    only_matching: bool,
    p: &Policy,
    now: i64,
) -> (r: Vec<usize>)
    requires
        crate::order::in_bounds(order@, accounts@.len() as int),
    ensures
        r@ == spec_visible(accounts@, order@, query@, only_matching, *p, now),
{
    let lower_query = crate::text::to_lowercase(query);
    let q = crate::text::chars_of(lower_query.as_str());
    let mut out: Vec<usize> = Vec::new();
    let mut i: usize = 0;
    while i < order.len()
        invariant
            i <= order@.len(),
            crate::order::in_bounds(order@, accounts@.len() as int),
            q@ == crate::text::lowercase(query@),
            out@ == spec_visible(accounts@, order@.take(i as int), query@, only_matching, *p, now),
        decreases order@.len() - i,
    {
        let idx = order[i];
        let a = &accounts[idx];
        let mut hit = q.len() == 0;
        if !hit {
            let h = crate::text::to_lowercase(a.handle.as_str());
            hit = crate::text::contains_text(&crate::text::chars_of(h.as_str()), &q);
        }
        if !hit {
            let nm = crate::text::to_lowercase(a.name.as_str());
            hit = crate::text::contains_text(&crate::text::chars_of(nm.as_str()), &q);
        }
        let show = hit && (!only_matching || a.reason(p, now).is_ok());
        proof {
            assert(order@.take(i + 1).drop_last() =~= order@.take(i as int));
        }
        if show {
            out.push(idx);
        }
        i = i + 1;
    }
    proof {
        assert(order@.take(order@.len() as int) =~= order@);
    }
    out
}

/// The row the highlight rests on: the focus, clamped to the last row;
/// none when nothing is shown.
pub fn focused(rows: usize, focus: usize) -> (r: Option<usize>)
    ensures
        rows == 0 ==> r is None,
        rows > 0 ==> r == Some(if focus < rows {
            focus
        } else {
            (rows - 1) as usize
        }),
{
    if rows == 0 {
        None
    } else if focus < rows {
        Some(focus)
    } else {
        Some(rows - 1)
    }
}


/// The retry record kept for account `id`, if any (the first one listed).
pub open spec fn retry_for(retries: Seq<(String, Retry)>, id: Seq<char>) -> Option<Retry>
    decreases retries.len(),
{
    if retries.len() == 0 {
        None
    } else if retries[0].0@ == id {
        Some(retries[0].1)
    } else {
        retry_for(retries.drop_first(), id)
    }
}

/// Looks up the retry record of account `id`.
pub fn find_retry(retries: &Vec<(String, Retry)>, id: &str) -> (r: Option<Retry>)
    ensures
        r == retry_for(retries@, id@),
{
    let mut i: usize = 0;
    assert(retries@.skip(0) =~= retries@);
    while i < retries.len()
        invariant
            i <= retries@.len(),
            retry_for(retries@, id@) == retry_for(retries@.skip(i as int), id@),
        decreases retries@.len() - i,
    {
        proof {
            assert(retries@.skip(i as int).drop_first() =~= retries@.skip(i + 1));
        }
        if same_text(retries[i].0.as_str(), id) {
            return Some(retries[i].1);
        }
        i = i + 1;
    }
    None
}

/// The account is due for an activity check in this pass: it passes the
/// quick protections, has no unresolved removal, was not checked since the
/// pass started (or is being retried), and its retry wait is over.
pub open spec fn due_for_check(
    a: Account,
    p: Policy,
    unresolved: Seq<String>,
    retries: Seq<(String, Retry)>,
    started_at: i64,
    now: i64,
) -> bool {
    &&& a.spec_basic_candidate(p)
    &&& !seq_has_text(unresolved, a.id@)
    &&& ((match a.checked_at_ms {
        Some(t) => t,
        None => 0,
    }) < started_at || retry_for(retries, a.id@) is Some)
    &&& spec_retry_ready(retry_for(retries, a.id@), now)
}

/// The next account to check: the first in list order that is due.
pub fn next_inspect_target(
    accounts: &Vec<Account>,
    order: &Vec<usize>,
    p: &Policy,
    unresolved: &Vec<String>,
    retries: &Vec<(String, Retry)>,
    started_at: i64,
    now: i64,
) -> (r: Option<usize>)
    requires
        crate::order::in_bounds(order@, accounts@.len() as int),
    ensures
        match r {
            Some(k) => k < order@.len() && due_for_check(
                accounts@[order@[k as int] as int],
                *p,
                unresolved@,
                retries@,
                started_at,
                now,
            ) && forall|j: int|
                0 <= j < k ==> !due_for_check(
                    #[trigger] accounts@[order@[j] as int],
                    *p,
                    unresolved@,
                    retries@,
                    started_at,
                    now,
                ),
            None => forall|j: int|
                0 <= j < order@.len() ==> !due_for_check(
                    #[trigger] accounts@[order@[j] as int],
                    *p,
                    unresolved@,
                    retries@,
                    started_at,
                    now,
                ),
        },
{
    let mut k: usize = 0;
    while k < order.len()
        invariant
            k <= order@.len(),
            crate::order::in_bounds(order@, accounts@.len() as int),
            forall|j: int|
                0 <= j < k ==> !due_for_check(
                    #[trigger] accounts@[order@[j] as int],
                    *p,
                    unresolved@,
                    retries@,
                    started_at,
                    now,
                ),
        decreases order@.len() - k,
    {
        let a = &accounts[order[k]];
        let retry = find_retry(retries, a.id.as_str());
        let checked = match a.checked_at_ms {
            Some(t) => t,
            None => 0,
        };
        let due = a.basic_candidate(p) && !text_in(unresolved, a.id.as_str()) && (checked
            < started_at || retry.is_some()) && retry_ready(retry, now);
        if due {
            return Some(k);
        }
        k = k + 1;
    }
    None
}

/// The position of the first account with ID `id`.
pub open spec fn spec_find_account(accounts: Seq<Account>, id: Seq<char>) -> Option<int>
    decreases accounts.len(),
{
    if accounts.len() == 0 {
        None
    } else if accounts[0].id@ == id {
        Some(0)
    } else {
        match spec_find_account(accounts.drop_first(), id) {
            Some(i) => Some(i + 1),
            None => None,
        }
    }
}

/// The first account with ID `id` has that ID, and when there is none,
/// no account has it.
pub proof fn lemma_find_account(accounts: Seq<Account>, id: Seq<char>)
    ensures
        match spec_find_account(accounts, id) {
            Some(i) => 0 <= i < accounts.len() && accounts[i].id@ == id,
            None => forall|k: int| 0 <= k < accounts.len() ==> (#[trigger] accounts[k]).id@ != id,
        },
    decreases accounts.len(),
{
    if accounts.len() > 0 {
        lemma_find_account(accounts.drop_first(), id);
        assert forall|k: int| 1 <= k < accounts.len() implies accounts[k] == accounts.drop_first()[k - 1] by {}
    }
}

/// Finds the account with ID `id`.
pub fn find_account(accounts: &Vec<Account>, id: &str) -> (r: Option<usize>)
    ensures
        match r {
            Some(i) => spec_find_account(accounts@, id@) == Some(i as int) && i < accounts@.len(),
            None => spec_find_account(accounts@, id@) is None,
        },
{
    let mut i: usize = 0;
    assert(accounts@.skip(0) =~= accounts@);
    while i < accounts.len()
        invariant
            i <= accounts@.len(),
            spec_find_account(accounts@, id@) == match spec_find_account(accounts@.skip(i as int), id@) {
                Some(j) => Some(j + i),
                None => None,
            },
        decreases accounts@.len() - i,
    {
        proof {
            assert(accounts@.skip(i as int).drop_first() =~= accounts@.skip(i + 1));
        }
        if same_text(accounts[i].id.as_str(), id) {
            return Some(i);
        }
        i = i + 1;
    }
    None
}

/// A queued account may still be removed: it is known, not kept, and not
/// known to have stopped following.
pub open spec fn still_removable(accounts: Seq<Account>, id: Seq<char>) -> bool {
    match spec_find_account(accounts, id) {
        Some(i) => !accounts[i].kept && accounts[i].follows_me != Some(false),
        None => false,
    }
}

/// The queue without the accounts whose removal already finished, and
/// without the leading accounts that can no longer be removed.
pub open spec fn spec_trim_queue(ids: Seq<String>, finished: Seq<String>, accounts: Seq<Account>) -> Seq<String> {
    let pending = ids.filter(|id: String| !seq_has_text(finished, id@));
    drop_unremovable(pending, accounts)
}

/// `ids` without its leading entries that can no longer be removed.
pub open spec fn drop_unremovable(ids: Seq<String>, accounts: Seq<Account>) -> Seq<String>
    decreases ids.len(),
{
    if ids.len() == 0 {
        ids
    } else if still_removable(accounts, ids[0]@) {
        ids
    } else {
        drop_unremovable(ids.drop_first(), accounts)
    }
}

/// Drops finished removals from the queue, then the accounts at its front
/// that can no longer be removed, so that the front is the next target.
pub fn trim_queue(ids: &mut VecDeque<String>, finished: &Vec<String>, accounts: &Vec<Account>)
    ensures
        final(ids)@ == spec_trim_queue(old(ids)@, finished@, accounts@),
{
    broadcast use vstd::std_specs::vecdeque::axiom_spec_len;

    let ghost all = ids@;
    let n = ids.len();
    let mut kept: VecDeque<String> = VecDeque::new();
    let mut i: usize = 0;
    while i < n
        invariant
            n == all.len(),
            i <= n,
            ids@ == all.skip(i as int),
            kept@ == all.take(i as int).filter(|id: String| !seq_has_text(finished@, id@)),
        decreases n - i,
    {
        match ids.pop_front() {
            Some(id) => {
                proof {
                    assert(all.skip(i as int)[0] == all[i as int]);
                    assert(all.skip(i as int).subrange(1, all.skip(i as int).len() as int) =~= all.skip(i + 1));
                    assert(all.take(i + 1).drop_last() =~= all.take(i as int));
                    assert(all.take(i + 1).last() == id);
                    reveal(Seq::filter);
                }
                if !text_in(finished, id.as_str()) {
                    kept.push_back(id);
                }
            },
            None => {},
        }
        i = i + 1;
    }
    proof {
        assert(all.take(n as int) =~= all);
    }
    let ghost pending = kept@;
    loop
        invariant
            drop_unremovable(pending, accounts@) == drop_unremovable(kept@, accounts@),
        ensures
            drop_unremovable(pending, accounts@) == kept@,
        decreases kept@.len(),
    {
        let front_ok = if kept.len() == 0 {
            true
        } else {
            match find_account(accounts, kept[0].as_str()) {
                Some(k) => !accounts[k].kept && accounts[k].follows_me != Some(false),
                None => false,
            }
        };
        if front_ok {
            break;
        }
        let ghost before = kept@;
        let _ = kept.pop_front();
        proof {
            assert(kept@ =~= before.drop_first());
        }
    }
    *ids = kept;
}


/// A movement of the list highlight.
#[derive(Clone, Copy, Debug, PartialEq, Eq, Structural)]
pub enum Nav {
    Down,
    Up,
    PageDown,
    PageUp,
}

/// Rows skipped by a page movement.
pub const PAGE_STEP: usize = 15;

/// The highlight after a movement over `rows` rows: down and page down stop
/// at the last row, up and page up at the first.
pub open spec fn spec_move_focus(focus: usize, rows: usize, nav: Nav) -> int {
    let last = if rows == 0 {
        0
    } else {
        rows - 1
    };
    match nav {
        Nav::Down => if focus + 1 < last {
            focus + 1
        } else {
            last
        },
        Nav::PageDown => if focus + PAGE_STEP < last {
            focus + PAGE_STEP
        } else {
            last
        },
        Nav::Up => if focus >= 1 {
            focus - 1
        } else {
            0
        },
        Nav::PageUp => if focus >= PAGE_STEP {
            focus - PAGE_STEP
        } else {
            0
        },
    }
}

/// Moves the list highlight.
pub fn move_focus(focus: usize, rows: usize, nav: Nav) -> (r: usize)
    ensures
        r == spec_move_focus(focus, rows, nav),
{
    let last = if rows == 0 {
        0
    } else {
        rows - 1
    };
    match nav {
        Nav::Down => if focus < last && last - focus > 1 {
            focus + 1
        } else {
            last
        },
        Nav::PageDown => if focus < last && last - focus > PAGE_STEP {
            focus + PAGE_STEP
        } else {
            last
        },
        Nav::Up => if focus >= 1 {
            focus - 1
        } else {
            0
        },
        Nav::PageUp => if focus >= PAGE_STEP {
            focus - PAGE_STEP
        } else {
            0
        },
    }
}

/// The next or previous row of a settings list of `count` rows, wrapping.
pub fn cycle_row(row: usize, count: usize, forward: bool) -> (r: usize)
    requires
        count > 0,
    ensures
        r == (if forward {
            (row + 1) % (count as int)
        } else {
            (row + count - 1) % (count as int)
        }),
        r < count,
{
    let base = row % count;
    proof {
        let c = count as int;
        vstd::arithmetic::div_mod::lemma_add_mod_noop(row as int, 1, c);
        vstd::arithmetic::div_mod::lemma_add_mod_noop(row as int, c - 1, c);
        vstd::arithmetic::div_mod::lemma_mod_bound(row as int, c);
        if base + 1 < c {
            vstd::arithmetic::div_mod::lemma_small_mod((base + 1) as nat, c as nat);
        } else {
            vstd::arithmetic::div_mod::lemma_mod_self_0(c);
        }
        if c > 1 {
            vstd::arithmetic::div_mod::lemma_small_mod(1, c as nat);
            vstd::arithmetic::div_mod::lemma_small_mod((c - 1) as nat, c as nat);
        } else {
            vstd::arithmetic::div_mod::lemma_mod_self_0(c);
        }
        if base >= 1 {
            vstd::arithmetic::div_mod::lemma_mod_adds(base - 1, c, c);
            vstd::arithmetic::div_mod::lemma_small_mod((base - 1) as nat, c as nat);
            vstd::arithmetic::div_mod::lemma_mod_self_0(c);
        } else {
            vstd::arithmetic::div_mod::lemma_small_mod((c - 1) as nat, c as nat);
        }
    }
    if forward {
        if base + 1 == count {
            0
        } else {
            base + 1
        }
    } else {
        if base == 0 {
            count - 1
        } else {
            base - 1
        }
    }
}

/// A modal's scroll position after moving by `delta` rows, saturating at
/// 0 and `u16::MAX`.
pub fn scroll_by(scroll: u16, delta: i32) -> (r: u16)
    ensures
        r == crate::model::clamp(scroll + delta, 0, u16::MAX as int),
{
    let moved = (scroll as i64) + (delta as i64);
    if moved < 0 {
        0
    } else if moved > 65535 {
        u16::MAX
    } else {
        moved as u16
    }
}


/// The positions of `rows` whose account passes `pred`, in order.
pub open spec fn keep_rows(accounts: Seq<Account>, rows: Seq<usize>, pred: spec_fn(Account) -> bool) -> Seq<usize>
    decreases rows.len(),
{
    if rows.len() == 0 {
        Seq::empty()
    } else {
        let rest = keep_rows(accounts, rows.drop_last(), pred);
        if pred(accounts[rows.last() as int]) {
            rest.push(rows.last())
        } else {
            rest
        }
    }
}

/// Eligible for removal at `now`.
pub open spec fn eligible(p: Policy, now: i64) -> spec_fn(Account) -> bool {
    |a: Account| a.spec_reason(p, now as int) is Ok
}

/// Passes the relationship rules.
pub open spec fn passes_basic(p: Policy) -> spec_fn(Account) -> bool {
    |a: Account| a.spec_basic_reason(p) is Ok
}

/// Selected and eligible at `now`.
pub open spec fn selected_and_eligible(selected: Seq<String>, p: Policy, now: i64) -> spec_fn(Account) -> bool {
    |a: Account| seq_has_text(selected, a.id@) && a.spec_reason(p, now as int) is Ok
}

/// The shown rows that are eligible for removal (selecting candidates).
pub fn select_candidates(accounts: &Vec<Account>, rows: &Vec<usize>, p: &Policy, now: i64) -> (r: Vec<usize>)
    requires
        crate::order::in_bounds(rows@, accounts@.len() as int),
    ensures
        r@ == keep_rows(accounts@, rows@, eligible(*p, now)),
{
    let mut out: Vec<usize> = Vec::new();
    let mut i: usize = 0;
    while i < rows.len()
        invariant
            i <= rows@.len(),
            crate::order::in_bounds(rows@, accounts@.len() as int),
            out@ == keep_rows(accounts@, rows@.take(i as int), eligible(*p, now)),
        decreases rows@.len() - i,
    {
        proof {
            assert(rows@.take(i + 1).drop_last() =~= rows@.take(i as int));
        }
        if accounts[rows[i]].reason(p, now).is_ok() {
            out.push(rows[i]);
        }
        i = i + 1;
    }
    proof {
        assert(rows@.take(rows@.len() as int) =~= rows@);
    }
    out
}

/// The shown rows that pass the relationship rules (selecting by the basic
/// rules, before activity is checked).
pub fn select_basic(accounts: &Vec<Account>, rows: &Vec<usize>, p: &Policy) -> (r: Vec<usize>)
    requires
        crate::order::in_bounds(rows@, accounts@.len() as int),
    ensures
        r@ == keep_rows(accounts@, rows@, passes_basic(*p)),
{
    let mut out: Vec<usize> = Vec::new();
    let mut i: usize = 0;
    while i < rows.len()
        invariant
            i <= rows@.len(),
            crate::order::in_bounds(rows@, accounts@.len() as int),
            out@ == keep_rows(accounts@, rows@.take(i as int), passes_basic(*p)),
        decreases rows@.len() - i,
    {
        proof {
            assert(rows@.take(i + 1).drop_last() =~= rows@.take(i as int));
        }
        if accounts[rows[i]].basic_reason(p).is_ok() {
            out.push(rows[i]);
        }
        i = i + 1;
    }
    proof {
        assert(rows@.take(rows@.len() as int) =~= rows@);
    }
    out
}

/// The removal queue offered for review: the selected followers that are
/// eligible at `now`, in list order.
pub fn review_queue(
    accounts: &Vec<Account>,
    order: &Vec<usize>,
    selected: &Vec<String>,
    p: &Policy,
    now: i64,
) -> (r: Vec<usize>)
    requires
        crate::order::in_bounds(order@, accounts@.len() as int),
    ensures
        r@ == keep_rows(accounts@, order@, selected_and_eligible(selected@, *p, now)),
{
    let mut out: Vec<usize> = Vec::new();
    let mut i: usize = 0;
    while i < order.len()
        invariant
            i <= order@.len(),
            crate::order::in_bounds(order@, accounts@.len() as int),
            out@ == keep_rows(accounts@, order@.take(i as int), selected_and_eligible(selected@, *p, now)),
        decreases order@.len() - i,
    {
        proof {
            assert(order@.take(i + 1).drop_last() =~= order@.take(i as int));
        }
        let a = &accounts[order[i]];
        if text_in(selected, a.id.as_str()) && a.reason(p, now).is_ok() {
            out.push(order[i]);
        }
        i = i + 1;
    }
    proof {
        assert(order@.take(order@.len() as int) =~= order@);
    }
    out
}

/// The IDs of `ids` that name a known account eligible at `now`, in order.
pub open spec fn spec_approved(ids: Seq<String>, accounts: Seq<Account>, p: Policy, now: i64) -> Seq<String>
    decreases ids.len(),
{
    if ids.len() == 0 {
        Seq::empty()
    } else {
        let rest = spec_approved(ids.drop_last(), accounts, p, now);
        let ok = match spec_find_account(accounts, ids.last()@) {
            Some(k) => accounts[k].spec_reason(p, now as int) is Ok,
            None => false,
        };
        if ok {
            rest.push(ids.last())
        } else {
            rest
        }
    }
}

/// The queue approved from a confirmed review: the confirmed IDs whose
/// account is still eligible at `now`.
pub fn approve_queue(confirmation: &Vec<String>, accounts: &Vec<Account>, p: &Policy, now: i64) -> (r: VecDeque<String>)
    ensures
        r@ == spec_approved(confirmation@, accounts@, *p, now),
{
    let mut out: VecDeque<String> = VecDeque::new();
    let mut i: usize = 0;
    while i < confirmation.len()
        invariant
            i <= confirmation@.len(),
            out@ == spec_approved(confirmation@.take(i as int), accounts@, *p, now),
        decreases confirmation@.len() - i,
    {
        proof {
            assert(confirmation@.take(i + 1).drop_last() =~= confirmation@.take(i as int));
        }
        let ok = match find_account(accounts, confirmation[i].as_str()) {
            Some(k) => accounts[k].reason(p, now).is_ok(),
            None => false,
        };
        if ok {
            out.push_back(confirmation[i].clone());
        }
        i = i + 1;
    }
    proof {
        assert(confirmation@.take(confirmation@.len() as int) =~= confirmation@);
    }
    out
}

/// Every ID in an approved queue names an account that was eligible when
/// the queue was approved.
pub proof fn law_approved_queue_holds_only_eligible_accounts(
    ids: Seq<String>,
    accounts: Seq<Account>,
    p: Policy,
    now: i64,
)
    ensures
        forall|j: int|
            0 <= j < spec_approved(ids, accounts, p, now).len() ==> match spec_find_account(
                accounts,
                #[trigger] spec_approved(ids, accounts, p, now)[j]@,
            ) {
                Some(k) => accounts[k].spec_reason(p, now as int) is Ok,
                None => false,
            },
    decreases ids.len(),
{
    if ids.len() > 0 {
        law_approved_queue_holds_only_eligible_accounts(ids.drop_last(), accounts, p, now);
        let rest = spec_approved(ids.drop_last(), accounts, p, now);
        let all = spec_approved(ids, accounts, p, now);
        assert forall|j: int| 0 <= j < all.len() implies match spec_find_account(
            accounts,
            #[trigger] all[j]@,
        ) {
            Some(k) => accounts[k].spec_reason(p, now as int) is Ok,
            None => false,
        } by {
            if j < rest.len() {
                assert(all[j] == rest[j]);
            }
        }
    }
}

/// Law: selected rows are a subset of the rows given, in the same order,
/// and all pass the predicate.
pub proof fn law_kept_rows_pass(accounts: Seq<Account>, rows: Seq<usize>, pred: spec_fn(Account) -> bool)
    ensures
        forall|j: int|
            0 <= j < keep_rows(accounts, rows, pred).len() ==> pred(
                accounts[#[trigger] keep_rows(accounts, rows, pred)[j] as int],
            ) && rows.contains(keep_rows(accounts, rows, pred)[j]),
        keep_rows(accounts, rows, pred).len() <= rows.len(),
    decreases rows.len(),
{
    if rows.len() > 0 {
        law_kept_rows_pass(accounts, rows.drop_last(), pred);
        let rest = keep_rows(accounts, rows.drop_last(), pred);
        let all = keep_rows(accounts, rows, pred);
        assert forall|j: int| 0 <= j < all.len() implies pred(accounts[#[trigger] all[j] as int])
            && rows.contains(all[j]) by {
            if j < rest.len() {
                assert(all[j] == rest[j]);
                assert(rows.drop_last().contains(rest[j]));
                let q = choose|q: int| 0 <= q < rows.drop_last().len() && rows.drop_last()[q] == rest[j];
                assert(rows[q] == rest[j]);
            } else {
                assert(rows[rows.len() - 1] == all[j]);
            }
        }
    }
}

/// Law: approval keeps every eligible confirmed account, however small the
/// hourly attempt budget: the budget paces attempts and never truncates an
/// approved queue.
pub proof fn law_approval_ignores_hourly_budget(
    ids: Seq<String>,
    accounts: Seq<Account>,
    p: Policy,
    budget: usize,
    now: i64,
)
    ensures
        spec_approved(ids, accounts, Policy { batch_limit: budget, ..p }, now) == spec_approved(
            ids,
            accounts,
            p,
            now,
        ),
    decreases ids.len(),
{
    if ids.len() > 0 {
        law_approval_ignores_hourly_budget(ids.drop_last(), accounts, p, budget, now);
    }
}

/// The account a command in flight works on, and what it does to it:
/// checking activity or removing.
pub fn active_target(command: &Command) -> (r: Option<(&String, &'static str)>)
    ensures
        match *command {
            Command::InspectAccount { target_id, .. } => r matches Some((t, label)) && *t == target_id
                && label@ == "Checking activity"@,
            Command::RemoveFollower { target_id, .. } => r matches Some((t, label)) && *t == target_id
                && label@ == "Removing"@,
            _ => r is None,
        },
{
    match command {
        Command::InspectAccount { target_id, .. } => Some((target_id, "Checking activity")),
        Command::RemoveFollower { target_id, .. } => Some((target_id, "Removing")),
        _ => None,
    }
}

/// The first row showing the account with ID `id`, where the highlight
/// moves to follow the work.
pub fn follow_position(accounts: &Vec<Account>, rows: &Vec<usize>, id: &str) -> (r: Option<usize>)
    requires
        crate::order::in_bounds(rows@, accounts@.len() as int),
    ensures
        match r {
            Some(k) => k < rows@.len() && accounts@[rows@[k as int] as int].id@ == id@ && forall|j: int|
                0 <= j < k ==> (#[trigger] accounts@[rows@[j] as int]).id@ != id@,
            None => forall|j: int| 0 <= j < rows@.len() ==> (#[trigger] accounts@[rows@[j] as int]).id@ != id@,
        },
{
    let mut k: usize = 0;
    while k < rows.len()
        invariant
            k <= rows@.len(),
            crate::order::in_bounds(rows@, accounts@.len() as int),
            forall|j: int| 0 <= j < k ==> (#[trigger] accounts@[rows@[j] as int]).id@ != id@,
        decreases rows@.len() - k,
    {
        if same_text(accounts[rows[k]].id.as_str(), id) {
            return Some(k);
        }
        k = k + 1;
    }
    None
}

/// The notice shown when the highlight follows an account.
pub fn follow_notice(action: &str, handle: &str) -> (r: String)
    ensures
        r@ == action@ + ": @"@ + handle@ + ". The highlight follows each account from the top."@,
{
    let mut s = action.to_owned();
    s.append(": @");
    s.append(handle);
    s.append(". The highlight follows each account from the top.");
    s
}

/// How many accounts are eligible for removal at `now`.
pub fn count_eligible(accounts: &Vec<Account>, p: &Policy, now: i64) -> (r: usize)
    ensures
        r == crate::background::count_where(accounts@, eligible(*p, now)),
{
    let mut n: usize = 0;
    let mut i: usize = 0;
    while i < accounts.len()
        invariant
            i <= accounts@.len(),
            n == crate::background::count_where(accounts@.take(i as int), eligible(*p, now)),
            n <= i,
        decreases accounts@.len() - i,
    {
        proof {
            assert(accounts@.take(i + 1).drop_last() =~= accounts@.take(i as int));
        }
        if accounts[i].reason(p, now).is_ok() {
            n = n + 1;
        }
        i = i + 1;
    }
    proof {
        assert(accounts@.take(accounts@.len() as int) =~= accounts@);
    }
    n
}

} // verus!
