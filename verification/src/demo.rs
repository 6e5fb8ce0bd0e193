//! The demonstration inventory and the simulated browser that answers its
//! commands. No X request is ever made in demo mode.
use crate::app::{find_account, spec_find_account};
use crate::model::{Account, DAY_MS};
use crate::protocol::{Command, WorkResult};
use crate::text::same_text;
use vstd::prelude::*;
use vstd::string::*;

verus! {

/// One fictional account: handle, verified, followed back, posts, and days
/// since its last post.
struct DemoSpec {
    handle: &'static str,
    name: &'static str,
    verified: Option<bool>,
    i_follow: Option<bool>,
    posts: Option<u64>,
    days: Option<i64>,
}

/// The fictional accounts: handle, verified, followed back, posts, and days
/// since the last post.
pub open spec fn demo_rows() -> Seq<(Seq<char>, Option<bool>, Option<bool>, Option<u64>, Option<i64>)> {
    seq![
        ("quiet_orbit"@, Some(false), Some(false), Some(8u64), Some(240i64)),
        ("empty_echo"@, Some(false), Some(false), Some(0u64), None),
        ("actual_friend"@, Some(false), Some(true), Some(42u64), Some(300i64)),
        ("blue_example"@, Some(true), Some(false), Some(22u64), Some(500i64)),
        ("active_reader"@, Some(false), Some(false), Some(20u64), Some(2i64)),
        ("unknown_activity"@, Some(false), Some(false), Some(3u64), None),
    ]
}

/// The demonstration account at position `i` (0..6), observed at `now`.
pub open spec fn demo_account_ok(a: Account, i: int, now: i64) -> bool {
    let row = demo_rows()[i];
    &&& a.handle@ == row.0
    &&& a.verified == row.1
    &&& a.i_follow == row.2
    &&& a.posts == row.3
    &&& a.last_activity_ms == (match row.4 {
        Some(d) => Some((now - d * DAY_MS) as i64),
        None => None,
    })
    &&& a.coverage_since_ms == (match row.4 {
        Some(d) => Some((now - 365 * DAY_MS) as i64),
        None => None,
    })
    &&& a.id@ == crate::text::spec_decimal((1000 + i) as nat)
    &&& a.follows_me == Some(true)
    &&& a.protected == Some(false)
    &&& a.checked_at_ms == Some(now)
    &&& a.observed_at_ms == now
    &&& !a.kept
    &&& a.followers == Some((12 + i) as u64)
    &&& a.following_count == Some(1400u64)
}

fn demo_specs() -> (r: Vec<DemoSpec>)
    ensures
        r@.len() == 6,
        forall|k: int|
            0 <= k < 6 ==> {
                let row = demo_rows()[k];
                &&& (#[trigger] r@[k]).handle@ == row.0
                &&& r@[k].verified == row.1
                &&& r@[k].i_follow == row.2
                &&& r@[k].posts == row.3
                &&& r@[k].days == row.4
            },
{
    proof {
        reveal_strlit("quiet_orbit");
        reveal_strlit("empty_echo");
        reveal_strlit("actual_friend");
        reveal_strlit("blue_example");
        reveal_strlit("active_reader");
        reveal_strlit("unknown_activity");
    }
    let mut v: Vec<DemoSpec> = Vec::new();
    v.push(DemoSpec { handle: "quiet_orbit", name: "quiet orbit", verified: Some(false), i_follow: Some(false), posts: Some(8), days: Some(240) });
    v.push(DemoSpec { handle: "empty_echo", name: "empty echo", verified: Some(false), i_follow: Some(false), posts: Some(0), days: None });
    v.push(DemoSpec { handle: "actual_friend", name: "actual friend", verified: Some(false), i_follow: Some(true), posts: Some(42), days: Some(300) });
    v.push(DemoSpec { handle: "blue_example", name: "blue example", verified: Some(true), i_follow: Some(false), posts: Some(22), days: Some(500) });
    v.push(DemoSpec { handle: "active_reader", name: "active reader", verified: Some(false), i_follow: Some(false), posts: Some(20), days: Some(2) });
    v.push(DemoSpec { handle: "unknown_activity", name: "unknown activity", verified: Some(false), i_follow: Some(false), posts: Some(3), days: None });
    v
}

/// The six fictional accounts of demo mode, all known followers whose
/// activity was just checked, with IDs 1000 to 1005.
pub fn demo_accounts(now: i64) -> (r: Vec<Account>)
    requires
        now >= i64::MIN + 500 * DAY_MS,
    ensures
        r@.len() == 6,
        forall|i: int| 0 <= i < 6 ==> demo_account_ok(#[trigger] r@[i], i, now),
{
    let specs = demo_specs();
    let mut out: Vec<Account> = Vec::new();
    let mut i: usize = 0;
    while i < 6
        invariant
            i <= 6,
            specs@.len() == 6,
            forall|k: int|
                0 <= k < 6 ==> {
                    let row = demo_rows()[k];
                    &&& (#[trigger] specs@[k]).handle@ == row.0
                    &&& specs@[k].verified == row.1
                    &&& specs@[k].i_follow == row.2
                    &&& specs@[k].posts == row.3
                    &&& specs@[k].days == row.4
                },
            now >= i64::MIN + 500 * DAY_MS,
            out@.len() == i,
            forall|k: int| 0 <= k < i ==> demo_account_ok(#[trigger] out@[k], k, now),
        decreases 6 - i,
    {
        let s = &specs[i];
        proof {
            let row = demo_rows()[i as int];
            assert(s.days == row.4);
            assert(s.days matches Some(d) ==> 0 <= d <= 500);
        }
        let id = crate::text::decimal((1000 + i) as u64);
        let last_activity = match s.days {
            Some(d) => Some(now - d * 86_400_000),
            None => None,
        };
        let coverage = match s.days {
            Some(_) => Some(now - 365 * 86_400_000),
            None => None,
        };
        let unknown = s.days.is_none() && s.posts != Some(0u64);
        let note = if unknown {
            "Lookup failed; kept unknown.".to_owned()
        } else {
            "Simulated posting evidence".to_owned()
        };
        out.push(
            Account {
                id,
                handle: s.handle.to_owned(),
                name: s.name.to_owned(),
                bio: "Demonstration account. No real X account is represented.".to_owned(),
                followers: Some(12 + i as u64),
                following_count: Some(1400),
                posts: s.posts,
                verified: s.verified,
                protected: Some(false),
                follows_me: Some(true),
                i_follow: s.i_follow,
                last_activity_ms: last_activity,
                coverage_since_ms: coverage,
                checked_at_ms: Some(now),
                observed_at_ms: now,
                activity_note: note,
                kept: false,
            },
        );
        i = i + 1;
    }
    out
}

/// Whether demo mode lists `a` on the followers list, or on the following
/// list when `following` holds.
pub open spec fn demo_listed(a: Account, following: bool) -> bool {
    if following {
        a.i_follow == Some(true)
    } else {
        a.follows_me == Some(true)
    }
}

/// The commands whose target the simulated browser looks up must name an
/// account of the inventory.
pub open spec fn demo_command_ok(accounts: Seq<Account>, command: Command) -> bool {
    match command {
        Command::InspectAccount { target_id, .. } => spec_find_account(accounts, target_id@) is Some,
        Command::RemoveFollower { target_id, .. } => spec_find_account(accounts, target_id@) is Some,
        _ => true,
    }
}

/// The simulated browser's answer to `command` over the demo inventory at
/// `now`: a fixed session, every listed account in one complete page, the
/// inspected account as last checked now, and removals and reconciliations
/// that always succeed. A removal marks the account as no longer following.
pub fn demo_response(accounts: &mut Vec<Account>, command: &Command, now: i64) -> (r: WorkResult)
    requires
        demo_command_ok(old(accounts)@, *command),
    ensures
        match *command {
            Command::GetSession => {
                &&& final(accounts)@ == old(accounts)@
                &&& r matches WorkResult::Session { owner_id, handle, capabilities }
                &&& owner_id@ == "demo"@
                &&& handle@ == "demo_account"@
                &&& capabilities@.len() == 1
                &&& capabilities@[0]@ == "remove_follower"@
            },
            Command::ScanPage { list, .. } => {
                &&& final(accounts)@ == old(accounts)@
                &&& r matches WorkResult::Page { list: l, accounts: page, next_cursor, complete }
                &&& l@ == list@
                &&& page@ == old(accounts)@.filter(|a: Account| demo_listed(a, list@ == "following"@))
                &&& next_cursor is None
                &&& complete
            },
            Command::InspectAccount { target_id, .. } => {
                let i = spec_find_account(old(accounts)@, target_id@)->0;
                &&& final(accounts)@ == old(accounts)@
                &&& r == WorkResult::Account {
                    account: Account { checked_at_ms: Some(now), ..old(accounts)@[i] },
                }
            },
            Command::RemoveFollower { target_id, .. } => {
                let i = spec_find_account(old(accounts)@, target_id@)->0;
                &&& final(accounts)@ == old(accounts)@.update(
                    i,
                    Account { follows_me: Some(false), ..old(accounts)@[i] },
                )
                &&& r matches WorkResult::Action { target_id: t, status, message }
                &&& t@ == target_id@
                &&& status@ == "verified_removed"@
                &&& message@ == "Simulated removal \u{2014} no X request was sent"@
            },
            Command::Reconcile { target_id, .. } => {
                &&& final(accounts)@ == old(accounts)@
                &&& r matches WorkResult::Action { target_id: t, status, message }
                &&& t@ == target_id@
                &&& status@ == "already_absent"@
                &&& message@ == "Simulated reconciliation"@
            },
            Command::OpenProfile { .. } => {
                &&& final(accounts)@ == old(accounts)@
                &&& r is Opened
            },
        },
{
    match command {
        Command::GetSession => {
            let mut capabilities: Vec<String> = Vec::new();
            capabilities.push("remove_follower".to_owned());
            WorkResult::Session {
                owner_id: "demo".to_owned(),
                handle: "demo_account".to_owned(),
                capabilities,
            }
        },
        Command::ScanPage { list, .. } => {
            let following = same_text(list.as_str(), "following");
            let ghost all = accounts@;
            let ghost pred = |a: Account| demo_listed(a, following);
            let mut page: Vec<Account> = Vec::new();
            let mut i: usize = 0;
            while i < accounts.len()
                invariant
                    accounts@ == all,
                    i <= all.len(),
                    pred == (|a: Account| demo_listed(a, following)),
                    page@ == all.take(i as int).filter(pred),
                decreases all.len() - i,
            {
                proof {
                    assert(all.take(i + 1).drop_last() =~= all.take(i as int));
                    assert(all.take(i + 1).last() == all[i as int]);
                    reveal(Seq::filter);
                }
                let listed = if following {
                    accounts[i].i_follow == Some(true)
                } else {
                    accounts[i].follows_me == Some(true)
                };
                if listed {
                    page.push(accounts[i].clone());
                }
                i = i + 1;
            }
            proof {
                assert(all.take(all.len() as int) =~= all);
            }
            WorkResult::Page { list: list.clone(), accounts: page, next_cursor: None, complete: true }
        },
        Command::InspectAccount { target_id, .. } => {
            let i = match find_account(accounts, target_id.as_str()) {
                Some(i) => i,
                None => {
                    proof {
                        assert(false);
                    }
                    0
                },
            };
            let mut a = accounts[i].clone();
            a.checked_at_ms = Some(now);
            WorkResult::Account { account: a }
        },
        Command::RemoveFollower { target_id, .. } => {
            let i = match find_account(accounts, target_id.as_str()) {
                Some(i) => i,
                None => {
                    proof {
                        assert(false);
                    }
                    0
                },
            };
            let mut a = accounts[i].clone();
            a.follows_me = Some(false);
            accounts.set(i, a);
            WorkResult::Action {
                target_id: target_id.clone(),
                status: "verified_removed".to_owned(),
                message: "Simulated removal \u{2014} no X request was sent".to_owned(),
            }
        },
        Command::Reconcile { target_id, .. } => WorkResult::Action {
            target_id: target_id.clone(),
            status: "already_absent".to_owned(),
            message: "Simulated reconciliation".to_owned(),
        },
        Command::OpenProfile { .. } => WorkResult::Opened,
    }
}

} // verus!
