//! Controls of the detached worker and the status it reports.
use crate::model::{Account, Policy, DAY_MS};
use vstd::prelude::*;

verus! {

/// A command sent to the background worker over its private socket.
pub enum Control {
    Status,
    Start,
    Pause,
    Resume,
    Cancel,
    Stop,
    Settings { policy: Policy },
}

/// The worker's answer to every control.
pub struct Status {
    pub handle: String,
    pub state: String,
    pub remaining: usize,
    pub removed: usize,
    pub uncertain: usize,
    pub wait_seconds: i64,
    pub message: String,
    pub collected: usize,
    pub checked: usize,
    pub kept: usize,
    pub retry_later: usize,
    pub policy: Policy,
    pub rows: Vec<(String, String, String)>,
    pub estimate_seconds: Option<i64>,
}

/// What the worker is doing, as the status line names it, in order of
/// precedence: waiting for Chrome, checking the account, blocked on
/// uncertain removals (outside a single-rule cleanup), idle, paused,
/// cooling down, running a cleanup, or running a queue.
pub open spec fn spec_worker_state(
    connected: bool,
    identified: bool,
    uncertain: usize,
    single_rule_cleanup: bool,
    has_work: bool,
    paused: bool,
    cooling_down: bool,
    full_auto: bool,
) -> Seq<char> {
    if !connected {
        "Waiting for Chrome"@
    } else if !identified {
        "Checking account"@
    } else if uncertain > 0 && !single_rule_cleanup {
        "Needs reconciliation"@
    } else if !has_work {
        "No queued work"@
    } else if paused {
        "Paused"@
    } else if cooling_down {
        "Cooling down"@
    } else if full_auto {
        "Full Auto"@
    } else {
        "Running"@
    }
}

/// Names what the worker is doing.
pub fn worker_state(
    connected: bool,
    identified: bool,
    uncertain: usize,
    single_rule_cleanup: bool,
    has_work: bool,
    paused: bool,
    cooling_down: bool,
    full_auto: bool,
) -> (r: &'static str)
    ensures
        r@ == spec_worker_state(
            connected,
            identified,
            uncertain,
            single_rule_cleanup,
            has_work,
            paused,
            cooling_down,
            full_auto,
        ),
{
    if !connected {
        "Waiting for Chrome"
    } else if !identified {
        "Checking account"
    } else if uncertain > 0 && !single_rule_cleanup {
        "Needs reconciliation"
    } else if !has_work {
        "No queued work"
    } else if paused {
        "Paused"
    } else if cooling_down {
        "Cooling down"
    } else if full_auto {
        "Full Auto"
    } else {
        "Running"
    }
}

/// The estimated seconds left for activity checks: the pace so far (whole
/// seconds since the pass started per account checked) times the accounts
/// still to check, once at least 20 have been checked; capped at `i64::MAX`.
pub open spec fn spec_estimate_seconds(now: i64, started_at: i64, checked: usize, unchecked: usize) -> Option<
    int,
> {
    if checked >= 20 && started_at > 0 && unchecked > 0 {
        let elapsed = if now - started_at > 0 {
            (now - started_at) / 1000
        } else {
            0
        };
        let e = elapsed * unchecked / checked as int;
        Some(
            if e > i64::MAX {
                i64::MAX as int
            } else {
                e
            },
        )
    } else {
        None
    }
}

/// Estimates the time left for activity checks.
pub fn estimate_seconds(now: i64, started_at: i64, checked: usize, unchecked: usize) -> (r: Option<i64>)
    ensures
        match r {
            Some(v) => spec_estimate_seconds(now, started_at, checked, unchecked) == Some(v as int),
            None => spec_estimate_seconds(now, started_at, checked, unchecked) is None,
        },
{
    if checked >= 20 && started_at > 0 && unchecked > 0 {
        let diff = (now as i128) - (started_at as i128);
        let elapsed: i128 = if diff > 0 {
            diff / 1000
        } else {
            0
        };
        assert(0 <= elapsed <= 0x80_0000_0000_0000);
        assert(elapsed * (unchecked as i128) <= 0x80_0000_0000_0000 * 0x1_0000_0000_0000_0000)
            by (nonlinear_arith)
            requires
                0 <= elapsed <= 0x80_0000_0000_0000,
                0 <= unchecked <= 0x1_0000_0000_0000_0000,
        ;
        assert(elapsed * (unchecked as i128) >= 0) by (nonlinear_arith)
            requires
                0 <= elapsed,
                0 <= unchecked,
        ;
        let product = elapsed * (unchecked as i128);
        let e = product / (checked as i128);
        if e > (i64::MAX as i128) {
            Some(i64::MAX)
        } else {
            Some(e as i64)
        }
    } else {
        None
    }
}


/// How many accounts of `s` satisfy `pred`.
pub open spec fn count_where(s: Seq<Account>, pred: spec_fn(Account) -> bool) -> nat
    decreases s.len(),
{
    if s.len() == 0 {
        0
    } else {
        count_where(s.drop_last(), pred) + if pred(s.last()) {
            1nat
        } else {
            0nat
        }
    }
}

/// Checked in this pass.
pub open spec fn checked_in_pass(started_at: i64) -> spec_fn(Account) -> bool {
    |a: Account| a.checked_at_ms matches Some(t) && t >= started_at
}

/// Still to be checked in this pass.
pub open spec fn unchecked_in_pass(p: Policy, started_at: i64) -> spec_fn(Account) -> bool {
    |a: Account|
        a.spec_basic_candidate(p) && (a.checked_at_ms is None || a.checked_at_ms->0 < started_at)
}

/// A known follower.
pub open spec fn follower() -> spec_fn(Account) -> bool {
    |a: Account| a.follows_me == Some(true)
}

/// A follower the status counts as kept: verified, followed back, marked
/// Keep, or active within the last 30 days.
pub open spec fn kept_follower(now: i64) -> spec_fn(Account) -> bool {
    |a: Account|
        a.follows_me == Some(true) && (a.verified == Some(true) || a.i_follow == Some(true)
            || a.kept || (a.last_activity_ms matches Some(t) && t > now - 30 * DAY_MS))
}

/// The counts the worker status reports.
pub struct Tally {
    pub collected: usize,
    pub checked: usize,
    pub kept: usize,
    pub unchecked: usize,
}

/// Counts the inventory for the status: followers collected (never fewer
/// than the last completed collection found), accounts checked in this
/// pass, followers kept, and accounts still to check.
pub fn tally(accounts: &Vec<Account>, p: &Policy, started_at: i64, collected_total: usize, now: i64) -> (r: Tally)
    ensures
        r.collected == (if count_where(accounts@, follower()) > collected_total {
            count_where(accounts@, follower())
        } else {
            collected_total as nat
        }),
        r.checked == count_where(accounts@, checked_in_pass(started_at)),
        r.kept == count_where(accounts@, kept_follower(now)),
        r.unchecked == count_where(accounts@, unchecked_in_pass(*p, started_at)),
{
    let mut followers: usize = 0;
    let mut checked: usize = 0;
    let mut kept: usize = 0;
    let mut unchecked: usize = 0;
    let mut i: usize = 0;
    let cutoff = (now as i128) - 30 * 86_400_000;
    while i < accounts.len()
        invariant
            i <= accounts@.len(),
            cutoff == now - 30 * DAY_MS,
            followers == count_where(accounts@.take(i as int), follower()),
            checked == count_where(accounts@.take(i as int), checked_in_pass(started_at)),
            kept == count_where(accounts@.take(i as int), kept_follower(now)),
            unchecked == count_where(accounts@.take(i as int), unchecked_in_pass(*p, started_at)),
            followers <= i && checked <= i && kept <= i && unchecked <= i,
        decreases accounts@.len() - i,
    {
        let a = &accounts[i];
        proof {
            assert(accounts@.take(i + 1).drop_last() =~= accounts@.take(i as int));
            assert(accounts@.take(i + 1).last() == *a);
        }
        if a.follows_me == Some(true) {
            followers = followers + 1;
        }
        let recent = match a.last_activity_ms {
            Some(t) => (t as i128) > cutoff,
            None => false,
        };
        if a.follows_me == Some(true) && (a.verified == Some(true) || a.i_follow == Some(true)
            || a.kept || recent) {
            kept = kept + 1;
        }
        match a.checked_at_ms {
            Some(t) => {
                if t >= started_at {
                    checked = checked + 1;
                }
            },
            None => {},
        }
        let stale = match a.checked_at_ms {
            Some(t) => t < started_at,
            None => true,
        };
        if a.basic_candidate(p) && stale {
            unchecked = unchecked + 1;
        }
        i = i + 1;
    }
    proof {
        assert(accounts@.take(accounts@.len() as int) =~= accounts@);
    }
    Tally {
        collected: if followers > collected_total {
            followers
        } else {
            collected_total
        },
        checked,
        kept,
        unchecked,
    }
}

/// The activity column of a status row: days since the last post, or
/// whether the account has no posts or was not checked.
pub open spec fn spec_row_date(a: Account, now: i64) -> Seq<char> {
    match a.last_activity_ms {
        Some(t) => crate::text::spec_decimal(
            (if now - t > 0 {
                (now - t) / (DAY_MS as int)
            } else {
                0
            }) as nat,
        ) + "d ago"@,
        None => if a.posts == Some(0u64) {
            "No posts"@
        } else {
            "Not checked"@
        },
    }
}

/// Writes the activity column of a status row.
pub fn row_date(a: &Account, now: i64) -> (r: String)
    ensures
        r@ == spec_row_date(*a, now),
{
    match a.last_activity_ms {
        Some(t) => {
            let gap: i128 = (now as i128) - (t as i128);
            let days: i128 = if gap > 0 {
                gap / 86_400_000
            } else {
                0
            };
            assert(days <= u64::MAX);
            let mut s = crate::text::decimal(days as u64);
            s.append("d ago");
            s
        },
        None => if a.posts == Some(0u64) {
            "No posts".to_owned()
        } else {
            "Not checked".to_owned()
        },
    }
}

/// The state column of a status row, in order of precedence: the account
/// being worked on, one waiting for a retry, one cleared for removal, a
/// verified account, one you follow, one checked in this pass that stays,
/// and the rest, which wait for their check.
pub open spec fn spec_row_state(a: Account, working: bool, retrying: bool, p: Policy, now: i64, started_at: i64) -> Seq<char> {
    if working {
        "Working"@
    } else if retrying {
        "Retry later"@
    } else if a.spec_reason(p, now as int) is Ok {
        "Queued"@
    } else if a.verified == Some(true) {
        "Keep: verified"@
    } else if a.i_follow == Some(true) {
        "Keep: you follow"@
    } else if a.checked_at_ms matches Some(t) && t >= started_at {
        "Keep / unavailable"@
    } else {
        "Waiting"@
    }
}

/// Names the state of a status row.
pub fn row_state(a: &Account, working: bool, retrying: bool, p: &Policy, now: i64, started_at: i64) -> (r: &'static str)
    ensures
        r@ == spec_row_state(*a, working, retrying, *p, now, started_at),
{
    if working {
        "Working"
    } else if retrying {
        "Retry later"
    } else if a.reason(p, now).is_ok() {
        "Queued"
    } else if a.verified == Some(true) {
        "Keep: verified"
    } else if a.i_follow == Some(true) {
        "Keep: you follow"
    } else if match a.checked_at_ms {
        Some(t) => t >= started_at,
        None => false,
    } {
        "Keep / unavailable"
    } else {
        "Waiting"
    }
}

/// The first at most `n` characters of `s`.
pub fn take_chars(s: &str, n: usize) -> (r: String)
    ensures
        r@ == s@.take(if n < s@.len() {
            n as int
        } else {
            s@.len() as int
        }),
{
    let cs = crate::text::chars_of(s);
    let end = if n < cs.len() {
        n
    } else {
        cs.len()
    };
    let mut out = String::new();
    let mut k: usize = 0;
    while k < end
        invariant
            k <= end <= cs@.len(),
            cs@ == s@,
            out@ == cs@.take(k as int),
        decreases end - k,
    {
        out.push(cs[k]);
        proof {
            assert(cs@.take(k + 1) =~= cs@.take(k as int).push(cs@[k as int]));
        }
        k = k + 1;
    }
    out
}

} // verus!
