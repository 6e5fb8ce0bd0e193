//! Removal pacing: a rolling hourly attempt budget and server cooldowns.
use crate::model::now_ms;
use vstd::prelude::*;

verus! {

/// One hour in milliseconds: the window of the attempt budget.
pub const HOUR_MS: i64 = 3_600_000;

/// The pacing state that survives restarts.
#[derive(Clone, Debug, Default)]
pub struct Pacing {
    /// Start times of recent removal attempts, oldest first.
    pub attempts: Vec<i64>,
    /// No removal is attempted before this time.
    pub until_ms: i64,
    /// Consecutive failures, which lengthen the fallback cooldown.
    pub failures: u32,
    /// Why the current cooldown was set.
    pub reason: String,
}

/// `x` clamped into the range of `i64`.
pub open spec fn clamp_i64(x: int) -> int {
    if x > i64::MAX {
        i64::MAX as int
    } else if x < i64::MIN {
        i64::MIN as int
    } else {
        x
    }
}

pub open spec fn max_int(a: int, b: int) -> int {
    if a >= b {
        a
    } else {
        b
    }
}

/// `2^n`.
pub open spec fn doubling(n: nat) -> int
    decreases n,
{
    if n == 0 {
        1
    } else {
        2 * doubling((n - 1) as nat)
    }
}

/// The fallback cooldown after `failures` consecutive failures (1..=8):
/// 30 s doubled for each failure after the first.
pub open spec fn backoff_ms(failures: u32) -> int {
    30_000 * doubling((failures - 1) as nat)
}

/// Failures counted after one more, capped at 8.
pub open spec fn next_failures(failures: u32) -> u32 {
    if failures >= 8 {
        8
    } else {
        (failures + 1) as u32
    }
}

/// The cooldown end after a failure at `now`: never earlier than before, at
/// least the fallback (capped at one hour) after `now`, and at least the
/// server's own retry time.
pub open spec fn retry_until(until: i64, failures: u32, now: i64, server_ms: Option<i64>) -> int {
    let fallback = backoff_ms(next_failures(failures));
    let capped = if fallback < HOUR_MS {
        fallback
    } else {
        HOUR_MS as int
    };
    let server = match server_ms {
        Some(t) => t as int,
        None => 0,
    };
    max_int(max_int(until as int, clamp_i64(now + capped)), server)
}

/// The attempts that still count at `now`: those within the last hour.
pub open spec fn recent(attempts: Seq<i64>, now: i64) -> Seq<i64>
    decreases attempts.len(),
{
    if attempts.len() == 0 {
        Seq::empty()
    } else if attempts.last() > now - HOUR_MS {
        recent(attempts.drop_last(), now).push(attempts.last())
    } else {
        recent(attempts.drop_last(), now)
    }
}

/// The hourly limit, where 0 counts as 1.
pub open spec fn effective_limit(limit: usize) -> int {
    if limit == 0 {
        1
    } else {
        limit as int
    }
}

/// Seconds left on the cooldown at `now`, rounded up; 0 once it has passed.
pub open spec fn spec_remaining_seconds(until: i64, now: i64) -> int {
    (max_int(until - now, 0) + 999) / 1000
}

/// `a + b`, clamped into the range of `i64`.
fn add_clamped(a: i64, b: i64) -> (r: i64)
    ensures
        r == clamp_i64(a + b),
{
    let sum = (a as i128) + (b as i128);
    if sum > (i64::MAX as i128) {
        i64::MAX
    } else if sum < (i64::MIN as i128) {
        i64::MIN
    } else {
        sum as i64
    }
}

fn backoff(failures: u32) -> (r: i64)
    requires
        1 <= failures <= 8,
    ensures
        r == backoff_ms(failures),
{
    proof {
        reveal_with_fuel(doubling, 8);
    }
    match failures {
        1 => 30_000,
        2 => 60_000,
        3 => 120_000,
        4 => 240_000,
        5 => 480_000,
        6 => 960_000,
        7 => 1_920_000,
        _ => 3_840_000,
    }
}

impl Pacing {
    /// Records a failure at `now`: counts it (up to 8), and pushes the
    /// cooldown to at least the doubling fallback (at most one hour) and the
    /// server's retry time, never earlier than it was.
    pub fn retry_at(&mut self, now: i64, server_ms: Option<i64>, reason: &str)
        ensures
            final(self).failures == next_failures(old(self).failures),
            final(self).until_ms == retry_until(
                old(self).until_ms,
                old(self).failures,
                now,
                server_ms,
            ),
            final(self).reason@ == reason@,
            final(self).attempts@ == old(self).attempts@,
    {
        self.failures = if self.failures >= 8 {
            8
        } else {
            self.failures + 1
        };
        let fallback = backoff(self.failures);
        let capped = if fallback < HOUR_MS {
            fallback
        } else {
            HOUR_MS
        };
        let step = add_clamped(now, capped);
        let mut until = self.until_ms;
        if step > until {
            until = step;
        }
        let server = match server_ms {
            Some(t) => t,
            None => 0,
        };
        if server > until {
            until = server;
        }
        self.until_ms = until;
        self.reason = reason.to_owned();
    }

    /// Records a failure now; see `retry_at`.
    pub fn retry(&mut self, server_ms: Option<i64>, reason: &str)
        ensures
            exists|now: i64|
                final(self).until_ms == retry_until(
                    old(self).until_ms,
                    old(self).failures,
                    now,
                    server_ms,
                ),
            final(self).failures == next_failures(old(self).failures),
            final(self).reason@ == reason@,
            final(self).attempts@ == old(self).attempts@,
    {
        let now = now_ms();
        self.retry_at(now, server_ms, reason);
    }

    /// Takes one attempt from the hourly budget at `now`. Attempts older than
    /// an hour are dropped. Where `limit` (at least 1) attempts remain, the
    /// cooldown is extended to an hour after the oldest of them and `false`
    /// is returned; otherwise the attempt is recorded and `true` returned.
    pub fn reserve_at(&mut self, now: i64, limit: usize) -> (r: bool)
        ensures
            r <==> recent(old(self).attempts@, now).len() < effective_limit(limit),
            r ==> final(self).attempts@ == recent(old(self).attempts@, now).push(now),
            r ==> final(self).until_ms == old(self).until_ms,
            r ==> final(self).reason == old(self).reason,
            !r ==> final(self).attempts@ == recent(old(self).attempts@, now),
            !r ==> final(self).until_ms == max_int(
                old(self).until_ms as int,
                clamp_i64(recent(old(self).attempts@, now)[0] + HOUR_MS),
            ),
            !r ==> final(self).reason@ == "Hourly attempt budget"@,
            final(self).failures == old(self).failures,
    {
        let mut kept: Vec<i64> = Vec::new();
        let mut i: usize = 0;
        while i < self.attempts.len()
            invariant
                i <= self.attempts@.len(),
                self == old(self),
                kept@ == recent(self.attempts@.take(i as int), now),
            decreases self.attempts@.len() - i,
        {
            let t = self.attempts[i];
            proof {
                assert(self.attempts@.take(i + 1).drop_last() =~= self.attempts@.take(i as int));
            }
            if (t as i128) > (now as i128) - (HOUR_MS as i128) {
                kept.push(t);
            }
            i = i + 1;
        }
        proof {
            assert(self.attempts@.take(self.attempts@.len() as int) =~= self.attempts@);
        }
        let effective = if limit == 0 {
            1
        } else {
            limit
        };
        if kept.len() >= effective {
            let end = add_clamped(kept[0], HOUR_MS);
            if end > self.until_ms {
                self.until_ms = end;
            }
            self.attempts = kept;
            self.reason = "Hourly attempt budget".to_owned();
            return false;
        }
        kept.push(now);
        self.attempts = kept;
        true
    }

    /// Takes one attempt from the hourly budget now; see `reserve_at`.
    pub fn reserve(&mut self, limit: usize) -> (r: bool)
        ensures
            exists|now: i64|
                {
                    &&& r <==> recent(old(self).attempts@, now).len() < effective_limit(limit)
                    &&& r ==> final(self).attempts@ == recent(old(self).attempts@, now).push(now)
                    &&& r ==> final(self).until_ms == old(self).until_ms
                    &&& !r ==> final(self).attempts@ == recent(old(self).attempts@, now)
                    &&& !r ==> final(self).until_ms == max_int(
                        old(self).until_ms as int,
                        clamp_i64(recent(old(self).attempts@, now)[0] + HOUR_MS),
                    )
                },
            r ==> final(self).reason == old(self).reason,
            !r ==> final(self).reason@ == "Hourly attempt budget"@,
            final(self).failures == old(self).failures,
    {
        let now = now_ms();
        self.reserve_at(now, limit)
    }

    /// Seconds left on the cooldown at `now`, rounded up.
    pub fn remaining_seconds_at(&self, now: i64) -> (r: i64)
        ensures
            r == spec_remaining_seconds(self.until_ms, now),
    {
        let diff = (self.until_ms as i128) - (now as i128);
        let positive = if diff > 0 {
            diff
        } else {
            0
        };
        ((positive + 999) / 1000) as i64
    }

    /// Seconds left on the cooldown now, rounded up.
    pub fn remaining_seconds(&self) -> (r: i64)
        ensures
            exists|now: i64| r == spec_remaining_seconds(self.until_ms, now),
            r >= 0,
    {
        let now = now_ms();
        self.remaining_seconds_at(now)
    }
}


/// The attempts kept by `recent` lie within the hour before `now` and are
/// never more than the attempts given.
pub proof fn lemma_recent_window(attempts: Seq<i64>, now: i64)
    ensures
        recent(attempts, now).len() <= attempts.len(),
        forall|i: int|
            0 <= i < recent(attempts, now).len() ==> #[trigger] recent(attempts, now)[i] > now
                - HOUR_MS,
    decreases attempts.len(),
{
    if attempts.len() > 0 {
        lemma_recent_window(attempts.drop_last(), now);
    }
}

/// Law: a failure never shortens the cooldown, and the cooldown reaches the
/// server's retry time and at least the fallback wait after `now`.
pub proof fn law_retry_never_shortens_cooldown(
    until: i64,
    failures: u32,
    now: i64,
    server_ms: Option<i64>,
)
    ensures
        retry_until(until, failures, now, server_ms) >= until,
        server_ms matches Some(t) ==> retry_until(until, failures, now, server_ms) >= t,
        retry_until(until, failures, now, server_ms) >= clamp_i64(now + 30_000),
{
    reveal_with_fuel(doubling, 8);
    let f = next_failures(failures);
    assert(1 <= f <= 8);
    assert(backoff_ms(f) >= 30_000) by {
        assert(doubling((f - 1) as nat) >= 1);
    }
}

/// Law: the rolling hourly budget holds. When an attempt is granted at
/// `now`, the recorded attempts, the new one included, all fall within the
/// last hour and are no more than the limit.
pub proof fn law_granted_attempts_fit_the_hourly_budget(attempts: Seq<i64>, now: i64, limit: usize)
    requires
        recent(attempts, now).len() < effective_limit(limit),
    ensures
        recent(attempts, now).push(now).len() <= effective_limit(limit),
        forall|i: int|
            0 <= i < recent(attempts, now).push(now).len() ==> #[trigger] recent(
                attempts,
                now,
            ).push(now)[i] > now - HOUR_MS,
{
    lemma_recent_window(attempts, now);
    let r = recent(attempts, now);
    assert forall|i: int| 0 <= i < r.push(now).len() implies #[trigger] r.push(now)[i] > now
        - HOUR_MS by {
        if i < r.len() {
            assert(r.push(now)[i] == r[i]);
        }
    }
}

/// Law: a refused attempt leaves a cooldown that has not yet passed, ending
/// no earlier than an hour after the oldest attempt still counted.
pub proof fn law_refused_attempt_waits(attempts: Seq<i64>, until: i64, now: i64, limit: usize)
    requires
        recent(attempts, now).len() >= effective_limit(limit),
        now < i64::MAX,
    ensures
        spec_remaining_seconds(
            max_int(until as int, clamp_i64(recent(attempts, now)[0] + HOUR_MS)) as i64,
            now,
        ) >= 1,
        max_int(until as int, clamp_i64(recent(attempts, now)[0] + HOUR_MS)) >= until,
{
    lemma_recent_window(attempts, now);
    assert(recent(attempts, now)[0] > now - HOUR_MS);
}

} // verus!
