//! Text shown in the account list and the evidence panel.
use crate::model::{Account, Policy, DAY_MS};
use crate::text::same_text;
use crate::text::{decimal, spec_decimal};
use vstd::prelude::*;
use vstd::string::*;

verus! {

/// Renders a tri-state flag.
pub fn yes_no(value: Option<bool>) -> (r: &'static str)
    ensures
        r@ == match value {
            Some(true) => "Yes"@,
            Some(false) => "No"@,
            None => "Unknown"@,
        },
{
    match value {
        Some(true) => "Yes",
        Some(false) => "No",
        None => "Unknown",
    }
}

/// Renders a setting switch.
pub fn on(b: bool) -> (r: &'static str)
    ensures
        r@ == (if b {
            "on"@
        } else {
            "off"@
        }),
{
    if b {
        "on"
    } else {
        "off"
    }
}

/// The first `i` digits of `d`, with a comma before each digit that
/// begins a group of three counted from the right.
pub open spec fn grouped_prefix(d: Seq<char>, i: nat) -> Seq<char>
    decreases i,
{
    if i == 0 {
        Seq::empty()
    } else {
        let k = (i - 1) as nat;
        let before = grouped_prefix(d, k);
        let with_sep = if k > 0 && (d.len() - k) % 3 == 0 {
            before.push(',')
        } else {
            before
        };
        with_sep.push(d[k as int])
    }
}

/// `n` in decimal with thousands separated by commas.
pub open spec fn spec_number(n: nat) -> Seq<char> {
    grouped_prefix(spec_decimal(n), spec_decimal(n).len())
}

/// Renders a count with thousands separators, as `1,234,567`.
pub fn number(n: u64) -> (r: String)
    ensures
        r@ == spec_number(n as nat),
{
    let s = decimal(n);
    let digits = crate::text::chars_of(s.as_str());
    let len = digits.len();
    let mut out = String::new();
    let mut i: usize = 0;
    while i < len
        invariant
            i <= len == digits@.len(),
            digits@ == spec_decimal(n as nat),
            out@ == grouped_prefix(digits@, i as nat),
        decreases len - i,
    {
        if i > 0 && (len - i) % 3 == 0 {
            out.push(',');
        }
        out.push(digits[i]);
        i = i + 1;
    }
    out
}

/// Renders an optional count; `?` where it is not known.
pub fn count(n: Option<u64>) -> (r: String)
    ensures
        r@ == match n {
            Some(v) => spec_number(v as nat),
            None => seq!['?'],
        },
{
    match n {
        Some(v) => number(v),
        None => {
            let mut s = String::new();
            s.push('?');
            s
        },
    }
}

/// Whole days from `t` to `now`; 0 for a time in the future.
pub open spec fn days_since(t: i64, now: i64) -> nat {
    if now - t < 0 {
        0
    } else {
        ((now - t) / DAY_MS as int) as nat
    }
}

/// The activity column: unchecked, zero posts, days since the last
/// activity, or unknown.
pub open spec fn spec_activity(a: Account, now: i64) -> Seq<char> {
    if a.checked_at_ms is None {
        "Not checked"@
    } else if a.posts == Some(0u64) {
        "Zero posts"@
    } else if a.last_activity_ms is Some {
        "Seen "@ + spec_decimal(days_since(a.last_activity_ms->0, now)) + seq!['d']
    } else {
        "Unknown"@
    }
}

/// Renders the activity column.
pub fn activity(a: &Account, now: i64) -> (r: String)
    ensures
        r@ == spec_activity(*a, now),
{
    if a.checked_at_ms.is_none() {
        "Not checked".to_owned()
    } else if a.posts == Some(0u64) {
        "Zero posts".to_owned()
    } else {
        match a.last_activity_ms {
            Some(t) => {
                let diff = (now as i128) - (t as i128);
                let days: u64 = if diff < 0 {
                    0
                } else {
                    (diff / 86_400_000) as u64
                };
                let mut s = "Seen ".to_owned();
                let digits = decimal(days);
                s.append(digits.as_str());
                s.push('d');
                s
            },
            None => "Unknown".to_owned(),
        }
    }
}


/// The header's status badge, in order of precedence.
pub open spec fn spec_status_label(
    connected: bool,
    identified: bool,
    uncertain: usize,
    paused: bool,
    removing: bool,
    phase: Seq<char>,
) -> Seq<char> {
    if !connected {
        "OFFLINE"@
    } else if !identified {
        "CONNECTING"@
    } else if uncertain > 0 {
        "NEEDS REVIEW"@
    } else if paused {
        "PAUSED"@
    } else if removing {
        "REMOVING"@
    } else if phase == "following"@ || phase == "followers"@ || phase == "inspect"@ {
        "SCANNING"@
    } else {
        "READY"@
    }
}

/// Chooses the header's status badge.
pub fn status_label(
    connected: bool,
    identified: bool,
    uncertain: usize,
    paused: bool,
    removing: bool,
    phase: &str,
) -> (r: &'static str)
    ensures
        r@ == spec_status_label(connected, identified, uncertain, paused, removing, phase@),
{
    if !connected {
        "OFFLINE"
    } else if !identified {
        "CONNECTING"
    } else if uncertain > 0 {
        "NEEDS REVIEW"
    } else if paused {
        "PAUSED"
    } else if removing {
        "REMOVING"
    } else if same_text(phase, "following") || same_text(phase, "followers") || same_text(
        phase,
        "inspect",
    ) {
        "SCANNING"
    } else {
        "READY"
    }
}

/// The workflow step shown under the header.
pub open spec fn spec_progress_label(has_queue: bool, phase: Seq<char>) -> Seq<char> {
    if has_queue {
        "4 / REMOVAL QUEUE"@
    } else if phase == "following"@ {
        "1 / COLLECT: people you follow"@
    } else if phase == "followers"@ {
        "1 / COLLECT: your followers"@
    } else if phase == "review"@ {
        "2 / READY TO CHECK ACTIVITY: press i"@
    } else if phase == "inspect"@ {
        "2 / CHECKING ACTIVITY"@
    } else if phase == "done"@ {
        "3 / REVIEW CANDIDATES: a selects, d starts review"@
    } else {
        "1 / COLLECT FOLLOWERS: press s"@
    }
}

/// Names the workflow step.
pub fn progress_label(has_queue: bool, phase: &str) -> (r: &'static str)
    ensures
        r@ == spec_progress_label(has_queue, phase@),
{
    if has_queue {
        "4 / REMOVAL QUEUE"
    } else if same_text(phase, "following") {
        "1 / COLLECT: people you follow"
    } else if same_text(phase, "followers") {
        "1 / COLLECT: your followers"
    } else if same_text(phase, "review") {
        "2 / READY TO CHECK ACTIVITY: press i"
    } else if same_text(phase, "inspect") {
        "2 / CHECKING ACTIVITY"
    } else if same_text(phase, "done") {
        "3 / REVIEW CANDIDATES: a selects, d starts review"
    } else {
        "1 / COLLECT FOLLOWERS: press s"
    }
}

/// The one-line summary of the removal rules.
pub open spec fn spec_rule_summary(p: Policy) -> Seq<char> {
    " REMOVE candidates: inactive "@ + spec_decimal(p.inactive_days as nat) + seq!['d'] + (
    if p.include_zero_posts {
        " OR zero posts"@
    } else {
        ""@
    }) + " · "@ + (if p.skip_verified {
        "unverified only"@
    } else {
        "any verification"@
    }) + " · "@ + (if p.skip_following {
        "you don't follow"@
    } else {
        "any following"@
    })
}

/// Summarizes the removal rules.
pub fn rule_summary(p: &Policy) -> (r: String)
    ensures
        r@ == spec_rule_summary(*p),
{
    let mut s = " REMOVE candidates: inactive ".to_owned();
    let days = decimal(p.inactive_days as u64);
    s.append(days.as_str());
    s.push('d');
    s.append(
        if p.include_zero_posts {
            " OR zero posts"
        } else {
            ""
        },
    );
    s.append(" · ");
    s.append(
        if p.skip_verified {
            "unverified only"
        } else {
            "any verification"
        },
    );
    s.append(" · ");
    s.append(
        if p.skip_following {
            "you don't follow"
        } else {
            "any following"
        },
    );
    s
}

/// The verdict of the decision column.
#[derive(Clone, Copy, Debug, PartialEq, Eq, Structural)]
pub enum Verdict {
    /// Selected by the relationship rules but not yet cleared by activity.
    CheckFirst,
    Remove,
    /// Passes the relationship rules; activity is missing or incomplete.
    Review,
    Keep,
}

/// The verdict for an account: eligible accounts are removed; a selected
/// account that passes the relationship rules must be checked first;
/// otherwise one passing the relationship rules and not recently active is
/// for review, and the rest are kept.
pub open spec fn spec_verdict(a: Account, p: Policy, now: i64, selected: bool) -> Verdict {
    let decision = a.spec_reason(p, now as int);
    let basic_ok = a.spec_basic_reason(p) is Ok;
    if selected && basic_ok && decision is Err {
        Verdict::CheckFirst
    } else if decision is Ok {
        Verdict::Remove
    } else if basic_ok && decision != Err::<Seq<char>, Seq<char>>("Recently active"@) {
        Verdict::Review
    } else {
        Verdict::Keep
    }
}

impl Verdict {
    pub fn label(self) -> (r: &'static str)
        ensures
            r@ == match self {
                Verdict::CheckFirst => "CHECK FIRST"@,
                Verdict::Remove => "REMOVE"@,
                Verdict::Review => "REVIEW"@,
                Verdict::Keep => "KEEP"@,
            },
    {
        match self {
            Verdict::CheckFirst => "CHECK FIRST",
            Verdict::Remove => "REMOVE",
            Verdict::Review => "REVIEW",
            Verdict::Keep => "KEEP",
        }
    }
}

/// The decision column for an account: its verdict and the rule's reason.
pub fn verdict(a: &Account, p: &Policy, now: i64, selected: bool) -> (r: (Verdict, &'static str))
    ensures
        r.0 == spec_verdict(*a, *p, now, selected),
        r.1@ == match a.spec_reason(*p, now as int) {
            Ok(s) => s,
            Err(e) => e,
        },
{
    let decision = a.reason(p, now);
    let basic_ok = a.basic_reason(p).is_ok();
    let (ok, text) = match decision {
        Ok(s) => (true, s),
        Err(e) => (false, e),
    };
    let recent = !ok && same_text(text, "Recently active");
    let v = if selected && basic_ok && !ok {
        Verdict::CheckFirst
    } else if ok {
        Verdict::Remove
    } else if basic_ok && !recent {
        Verdict::Review
    } else {
        Verdict::Keep
    };
    (v, text)
}

/// The first row shown in a list window of `capacity` rows that keeps the
/// focused row visible at its bottom.
pub fn list_offset(focused: usize, capacity: usize) -> (r: usize)
    requires
        capacity >= 1,
    ensures
        r == (if focused >= capacity - 1 {
            focused - (capacity - 1)
        } else {
            0
        }),
{
    if focused >= capacity - 1 {
        focused - (capacity - 1)
    } else {
        0
    }
}

/// What an empty inventory says: a search or filter with no result, no
/// Chrome connection, collection in progress, or a fresh start.
pub open spec fn spec_empty_view(
    searching: bool,
    connected: bool,
    paused: bool,
    phase: Seq<char>,
) -> (Seq<char>, Seq<char>) {
    if searching {
        ("No accounts in this view"@, "Use / to edit search or m to show all followers."@)
    } else if !connected {
        ("Your next chapter starts here"@, "Press Shift+P to pair Chrome, then s to scan."@)
    } else if !paused && phase == "following"@ {
        ("Learning who you follow"@, "Followers appear in the next scan stage."@)
    } else if !paused && phase == "followers"@ {
        ("Collecting your followers"@, "Results appear as Chrome finishes each page."@)
    } else {
        (
            "A little room for a fresh start"@,
            "Press s to collect followers, then i to check activity."@,
        )
    }
}

/// The title and hint of an empty inventory. `searching` is true where a
/// query is typed or only candidates are shown.
pub fn empty_view(searching: bool, connected: bool, paused: bool, phase: &str) -> (r: (
    &'static str,
    &'static str,
))
    ensures
        (r.0@, r.1@) == spec_empty_view(searching, connected, paused, phase@),
{
    if searching {
        ("No accounts in this view", "Use / to edit search or m to show all followers.")
    } else if !connected {
        ("Your next chapter starts here", "Press Shift+P to pair Chrome, then s to scan.")
    } else if !paused && same_text(phase, "following") {
        ("Learning who you follow", "Followers appear in the next scan stage.")
    } else if !paused && same_text(phase, "followers") {
        ("Collecting your followers", "Results appear as Chrome finishes each page.")
    } else {
        ("A little room for a fresh start", "Press s to collect followers, then i to check activity.")
    }
}

/// The label of each removal rule row, in the order of the rules view.
pub open spec fn filter_label(row: int) -> Seq<char> {
    if row == 0 {
        "REMOVE: inactive at least"@
    } else if row == 1 {
        "PROTECT: verified accounts"@
    } else if row == 2 {
        "PROTECT: people you follow"@
    } else if row == 3 {
        "REMOVE: zero posts too"@
    } else if row == 4 {
        "Minimum removal interval"@
    } else {
        "Hourly attempt budget"@
    }
}

/// The value shown on each removal rule row.
pub open spec fn filter_value(p: Policy, row: int) -> Seq<char> {
    if row == 0 {
        spec_decimal(p.inactive_days as nat) + " days"@
    } else if row == 1 {
        if p.skip_verified { "on"@ } else { "off"@ }
    } else if row == 2 {
        if p.skip_following { "on"@ } else { "off"@ }
    } else if row == 3 {
        if p.include_zero_posts { "on"@ } else { "off"@ }
    } else if row == 4 {
        spec_decimal(p.delay_seconds as nat) + " seconds"@
    } else {
        spec_decimal(p.batch_limit as nat) + " / hour"@
    }
}

/// The rows of the removal rules view: each rule's label and its value.
pub fn filter_rows(p: &Policy) -> (r: Vec<(&'static str, String)>)
    ensures
        r@.len() == 6,
        forall|i: int| 0 <= i < 6 ==> (#[trigger] r@[i]).0@ == filter_label(i) && r@[i].1@ == filter_value(*p, i),
{
    let mut rows: Vec<(&'static str, String)> = Vec::new();
    let mut days = decimal(p.inactive_days as u64);
    days.append(" days");
    rows.push(("REMOVE: inactive at least", days));
    rows.push(("PROTECT: verified accounts", on(p.skip_verified).to_owned()));
    rows.push(("PROTECT: people you follow", on(p.skip_following).to_owned()));
    rows.push(("REMOVE: zero posts too", on(p.include_zero_posts).to_owned()));
    let mut delay = decimal(p.delay_seconds as u64);
    delay.append(" seconds");
    rows.push(("Minimum removal interval", delay));
    let mut budget = decimal(p.batch_limit as u64);
    budget.append(" / hour");
    rows.push(("Hourly attempt budget", budget));
    rows
}

/// The approval dialog is compact on screens under 20 rows, so that its
/// warning and its default-cancel keys stay visible.
pub fn confirm_compact(height: u16) -> (r: bool)
    ensures
        r == (height < 20),
{
    height < 20
}

/// The approval dialog's width and height.
pub fn confirm_size(compact: bool) -> (r: (u16, u16))
    ensures
        r == (68u16, if compact {
            10u16
        } else {
            17u16
        }),
{
    (68, if compact {
        10
    } else {
        17
    })
}

/// The approval dialog's footer: every key but `y` cancels.
pub open spec fn confirm_footer() -> Seq<char> {
    "Enter / n / Esc cancels  ·  y confirms"@
}

/// The first line: how many cleared followers leave which account.
pub open spec fn confirm_title(count: usize, handle: Seq<char>) -> Seq<char> {
    "Remove "@ + spec_decimal(count as nat) + " cleared followers from @"@ + crate::model::spec_clean(handle)
        + "?"@
}

/// The pacing line: one removal at a time, at least `delay` seconds apart.
pub open spec fn confirm_pacing(delay: u32) -> Seq<char> {
    "One at a time · at least "@ + spec_decimal(delay as nat) + "s · automatic cooldowns"@
}

/// The number of preview handles shown: at most four.
pub open spec fn preview_count(n: nat) -> nat {
    if n < 4 {
        n
    } else {
        4
    }
}

/// The approval dialog's lines. The title, the note that saved activity
/// is used, the warning that there is no restore-followers action and the
/// pacing line always show; a full-size dialog adds that protections are
/// still checked and how to move the queue to the background, up to four
/// handles of the queue, and how many more are selected.
pub open spec fn spec_confirm_lines(
    count: usize,
    handle: Seq<char>,
    delay: u32,
    compact: bool,
    preview: Seq<Seq<char>>,
) -> Seq<Seq<char>> {
    let head = seq![
        confirm_title(count, handle),
        "Uses saved activity results. No activity rescan."@,
        "There is no restore-followers action."@,
        confirm_pacing(delay),
    ];
    if compact {
        head
    } else {
        let notes = seq![
            "Identity and relationship protections are still checked."@,
            "b sends the approved queue to background; p pauses."@,
        ];
        let shown = preview.take(preview_count(preview.len()) as int).map_values(
            |h: Seq<char>| "  @"@ + crate::model::spec_clean(h),
        );
        let more = if count > 4 {
            seq!["  + "@ + spec_decimal((count - 4) as nat) + " more selected"@]
        } else {
            Seq::<Seq<char>>::empty()
        };
        head + notes + shown + more
    }
}

/// Composes the approval dialog: its lines and its footer. `preview` are
/// the handles of the queue's first accounts.
pub fn confirm_lines(count: usize, handle: &str, delay_seconds: u32, compact: bool, preview: &Vec<String>) -> (r: (
    Vec<String>,
    String,
))
    ensures
        r.0@.map_values(|l: String| l@) == spec_confirm_lines(
            count,
            handle@,
            delay_seconds,
            compact,
            preview@.map_values(|h: String| h@),
        ),
        r.1@ == confirm_footer(),
{
    let ghost target = spec_confirm_lines(
        count,
        handle@,
        delay_seconds,
        compact,
        preview@.map_values(|h: String| h@),
    );
    let mut title = "Remove ".to_owned();
    title.append(decimal(count as u64).as_str());
    title.append(" cleared followers from @");
    title.append(crate::model::clean(handle).as_str());
    title.append("?");
    let mut pacing = "One at a time · at least ".to_owned();
    pacing.append(decimal(delay_seconds as u64).as_str());
    pacing.append("s · automatic cooldowns");
    let mut lines: Vec<String> = Vec::new();
    lines.push(title);
    lines.push("Uses saved activity results. No activity rescan.".to_owned());
    lines.push("There is no restore-followers action.".to_owned());
    lines.push(pacing);
    if !compact {
        lines.push("Identity and relationship protections are still checked.".to_owned());
        lines.push("b sends the approved queue to background; p pauses.".to_owned());
        let shown = if preview.len() < 4 {
            preview.len()
        } else {
            4
        };
        let mut i: usize = 0;
        while i < shown
            invariant
                !compact,
                shown as nat == preview_count(preview@.len()),
                i <= shown,
                lines@.len() == 6 + i,
                target == spec_confirm_lines(
                    count,
                    handle@,
                    delay_seconds,
                    compact,
                    preview@.map_values(|h: String| h@),
                ),
                forall|j: int| 0 <= j < lines@.len() ==> (#[trigger] lines@[j])@ == target[j],
            decreases shown - i,
        {
            let mut line = "  @".to_owned();
            line.append(crate::model::clean(preview[i].as_str()).as_str());
            lines.push(line);
            i = i + 1;
        }
        if count > 4 {
            let mut more = "  + ".to_owned();
            more.append(decimal((count - 4) as u64).as_str());
            more.append(" more selected");
            lines.push(more);
        }
    }
    proof {
        assert(lines@.map_values(|l: String| l@) =~= target);
    }
    (lines, "Enter / n / Esc cancels  ·  y confirms".to_owned())
}

/// The handles of the known accounts among `ids`, in order.
pub open spec fn spec_known_handles(ids: Seq<String>, accounts: Seq<Account>) -> Seq<Seq<char>>
    decreases ids.len(),
{
    if ids.len() == 0 {
        Seq::empty()
    } else {
        let rest = spec_known_handles(ids.drop_last(), accounts);
        match crate::app::spec_find_account(accounts, ids.last()@) {
            Some(i) => rest.push(accounts[i].handle@),
            None => rest,
        }
    }
}

/// The preview of an approval: the handles of the known accounts among the
/// first four confirmed IDs.
pub fn confirm_preview(confirmation: &Vec<String>, accounts: &Vec<Account>) -> (r: Vec<String>)
    ensures
        r@.map_values(|h: String| h@) == spec_known_handles(
            confirmation@.take(preview_count(confirmation@.len()) as int),
            accounts@,
        ),
{
    let n = if confirmation.len() < 4 {
        confirmation.len()
    } else {
        4
    };
    let mut out: Vec<String> = Vec::new();
    let mut i: usize = 0;
    while i < n
        invariant
            n as nat == preview_count(confirmation@.len()),
            i <= n,
            out@.map_values(|h: String| h@) == spec_known_handles(confirmation@.take(i as int), accounts@),
        decreases n - i,
    {
        proof {
            assert(confirmation@.take(i + 1).drop_last() =~= confirmation@.take(i as int));
        }
        match crate::app::find_account(accounts, confirmation[i].as_str()) {
            Some(k) => {
                let ghost before = out@;
                out.push(accounts[k].handle.clone());
                proof {
                    assert(out@.map_values(|h: String| h@) =~= before.map_values(|h: String| h@).push(
                        accounts@[k as int].handle@,
                    ));
                }
            },
            None => {},
        }
        i = i + 1;
    }
    out
}

} // verus!
