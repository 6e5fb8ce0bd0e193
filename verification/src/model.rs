//! Accounts, the removal policy, and the eligibility rules.
use vstd::prelude::*;
use vstd::string::*;

verus! {

/// One day in milliseconds.
pub const DAY_MS: i64 = 86_400_000;

/// How long an activity check stays usable, in milliseconds.
pub const EVIDENCE_MAX_AGE_MS: i64 = 86_400_000;

/// Clock skew tolerated for an activity check stamped in the future.
pub const EVIDENCE_SKEW_MS: i64 = 60_000;

/// The rules that decide which followers may be removed.
#[derive(Debug, PartialEq, Eq, Structural)]
pub struct Policy {
    pub inactive_days: u32,
    pub skip_verified: bool,
    pub skip_following: bool,
    pub include_zero_posts: bool,
    pub delay_seconds: u32,
    pub batch_limit: usize,
}

impl Clone for Policy {
    fn clone(&self) -> (r: Self)
        ensures
            r == *self,
    {
        Policy {
            inactive_days: self.inactive_days,
            skip_verified: self.skip_verified,
            skip_following: self.skip_following,
            include_zero_posts: self.include_zero_posts,
            delay_seconds: self.delay_seconds,
            batch_limit: self.batch_limit,
        }
    }
}

impl Policy {
    /// The starting rules: 90 inactive days, verified accounts and people you
    /// follow protected, zero-post accounts included, 60 s between removals,
    /// 50 attempts per rolling hour.
    pub open spec fn spec_default() -> Policy {
        Policy {
            inactive_days: 90,
            skip_verified: true,
            skip_following: true,
            include_zero_posts: true,
            delay_seconds: 60,
            batch_limit: 50,
        }
    }
}

impl Default for Policy {
    fn default() -> (p: Self)
        ensures
            p == Policy::spec_default(),
    {
        Policy {
            inactive_days: 90,
            skip_verified: true,
            skip_following: true,
            include_zero_posts: true,
            delay_seconds: 60,
            batch_limit: 50,
        }
    }
}

/// Everything known about one account, as collected from X.
#[derive(Debug, Default)]
pub struct Account {
    pub id: String,
    pub handle: String,
    pub name: String,
    pub bio: String,
    pub followers: Option<u64>,
    pub following_count: Option<u64>,
    pub posts: Option<u64>,
    pub verified: Option<bool>,
    pub protected: Option<bool>,
    pub follows_me: Option<bool>,
    pub i_follow: Option<bool>,
    pub last_activity_ms: Option<i64>,
    pub coverage_since_ms: Option<i64>,
    pub checked_at_ms: Option<i64>,
    pub observed_at_ms: i64,
    pub activity_note: String,
    pub kept: bool,
}

impl Clone for Account {
    fn clone(&self) -> (r: Self)
        ensures
            r == *self,
    {
        Account {
            id: self.id.clone(),
            handle: self.handle.clone(),
            name: self.name.clone(),
            bio: self.bio.clone(),
            followers: self.followers,
            following_count: self.following_count,
            posts: self.posts,
            verified: self.verified,
            protected: self.protected,
            follows_me: self.follows_me,
            i_follow: self.i_follow,
            last_activity_ms: self.last_activity_ms,
            coverage_since_ms: self.coverage_since_ms,
            checked_at_ms: self.checked_at_ms,
            observed_at_ms: self.observed_at_ms,
            activity_note: self.activity_note.clone(),
            kept: self.kept,
        }
    }
}

/// A rule outcome with its message taken by view.
pub open spec fn unit_view(r: Result<(), &str>) -> Result<(), Seq<char>> {
    match r {
        Ok(()) => Ok(()),
        Err(e) => Err(e@),
    }
}

/// A rule outcome with both messages taken by view.
pub open spec fn text_view(r: Result<&str, &str>) -> Result<Seq<char>, Seq<char>> {
    match r {
        Ok(s) => Ok(s@),
        Err(e) => Err(e@),
    }
}

impl Account {
    /// The protections that a quick filter applies: not kept, a known
    /// follower, and neither verified nor followed back where the policy
    /// protects those.
    pub open spec fn spec_basic_candidate(&self, p: Policy) -> bool {
        &&& !self.kept
        &&& self.follows_me == Some(true)
        &&& (!p.skip_verified || self.verified != Some(true))
        &&& (!p.skip_following || self.i_follow != Some(true))
    }

    /// The relationship rules, in the order they are reported. Unknown
    /// verification, following or visibility protects the account.
    pub open spec fn spec_basic_reason(&self, p: Policy) -> Result<(), Seq<char>> {
        if self.kept {
            Err("Kept"@)
        } else if self.follows_me != Some(true) {
            Err("Follower relationship unknown / absent"@)
        } else if p.skip_verified && self.verified != Some(false) {
            if self.verified == Some(true) {
                Err("Verified"@)
            } else {
                Err("Verification not checked"@)
            }
        } else if p.skip_following && self.i_follow != Some(false) {
            if self.i_follow == Some(true) {
                Err("You follow this account"@)
            } else {
                Err("Following relationship unknown"@)
            }
        } else if self.protected != Some(false) {
            Err("Protected / visibility unknown"@)
        } else {
            Ok(())
        }
    }

    /// The activity cutoff: `now` minus the policy's inactive days.
    pub open spec fn spec_cutoff(p: Policy, now: int) -> int {
        now - p.inactive_days * DAY_MS
    }

    /// The activity check is missing, stamped too far in the future, or
    /// older than a day.
    pub open spec fn spec_evidence_expired(checked: int, now: int) -> bool {
        checked > now + EVIDENCE_SKEW_MS || now - checked > EVIDENCE_MAX_AGE_MS
    }

    /// The full eligibility rule: the relationship rules, then fresh activity
    /// evidence, then recent activity, which protects whatever the post
    /// count, then zero posts or no activity since the cutoff with coverage
    /// reaching back to it.
    pub open spec fn spec_reason(&self, p: Policy, now: int) -> Result<Seq<char>, Seq<char>> {
        match self.spec_basic_reason(p) {
            Err(e) => Err(e),
            Ok(()) => match self.checked_at_ms {
                None => Err("Needs activity check"@),
                Some(checked) => if Self::spec_evidence_expired(checked as int, now) {
                    Err("Activity evidence expired"@)
                } else if self.last_activity_ms matches Some(t) && t > Self::spec_cutoff(p, now) {
                    Err("Recently active"@)
                } else if p.include_zero_posts && self.posts == Some(0u64) {
                    Ok("Zero current posts"@)
                } else if self.coverage_since_ms matches Some(t) && t <= Self::spec_cutoff(p, now) {
                    Ok("Inactive"@)
                } else {
                    Err("Activity unknown"@)
                },
            },
        }
    }

    /// Whether the quick protections let this account through.
    pub fn basic_candidate(&self, p: &Policy) -> (r: bool)
        ensures
            r == self.spec_basic_candidate(*p),
    {
        !self.kept && self.follows_me == Some(true) && (!p.skip_verified || self.verified
            != Some(true)) && (!p.skip_following || self.i_follow != Some(true))
    }

    /// The first relationship rule that protects this account, if any.
    pub fn basic_reason(&self, p: &Policy) -> (r: Result<(), &'static str>)
        ensures
            unit_view(r) == self.spec_basic_reason(*p),
    {
        if self.kept {
            return Err("Kept");
        }
        if self.follows_me != Some(true) {
            return Err("Follower relationship unknown / absent");
        }
        if p.skip_verified && self.verified != Some(false) {
            return Err(
                if self.verified == Some(true) {
                    "Verified"
                } else {
                    "Verification not checked"
                },
            );
        }
        if p.skip_following && self.i_follow != Some(false) {
            return Err(
                if self.i_follow == Some(true) {
                    "You follow this account"
                } else {
                    "Following relationship unknown"
                },
            );
        }
        if self.protected != Some(false) {
            return Err("Protected / visibility unknown");
        }
        Ok(())
    }

    /// Why this account is eligible for removal at time `now`, or why not.
    pub fn reason(&self, p: &Policy, now: i64) -> (r: Result<&'static str, &'static str>)
        ensures
            text_view(r) == self.spec_reason(*p, now as int),
    {
        match self.basic_reason(p) {
            Err(e) => {
                return Err(e);
            },
            Ok(()) => {},
        }
        let checked = match self.checked_at_ms {
            None => {
                return Err("Needs activity check");
            },
            Some(checked) => checked,
        };
        let now_w = now as i128;
        let checked_w = checked as i128;
        if checked_w > now_w + 60_000 || now_w - checked_w > 86_400_000 {
            return Err("Activity evidence expired");
        }
        let cutoff = now_w - (p.inactive_days as i128) * 86_400_000;
        match self.last_activity_ms {
            Some(t) => {
                if (t as i128) > cutoff {
                    return Err("Recently active");
                }
            },
            None => {},
        }
        if p.include_zero_posts && self.posts == Some(0u64) {
            return Ok("Zero current posts");
        }
        match self.coverage_since_ms {
            Some(t) => {
                if (t as i128) <= cutoff {
                    return Ok("Inactive");
                }
            },
            None => {},
        }
        Err("Activity unknown")
    }
}


/// Longest text, in characters, that `clean` keeps.
pub const CLEAN_LIMIT: usize = 4000;

/// A Unicode control character: general category Cc, which is exactly
/// U+0000..=U+001F and U+007F..=U+009F.
pub open spec fn is_control(c: char) -> bool {
    (c as u32) <= 0x1f || (0x7f <= (c as u32) && (c as u32) <= 0x9f)
}

/// An explicit bidirectional embedding, override or isolate character
/// (U+202A..=U+202E, U+2066..=U+2069), which can disguise displayed text.
pub open spec fn is_bidi_control(c: char) -> bool {
    (0x202a <= (c as u32) && (c as u32) <= 0x202e) || (0x2066 <= (c as u32) && (c as u32)
        <= 0x2069)
}

/// A character that is safe to show in the terminal.
pub open spec fn is_displayable(c: char) -> bool {
    !is_control(c) && !is_bidi_control(c)
}

/// The displayable characters of `s`, in order.
pub open spec fn displayable(s: Seq<char>) -> Seq<char>
    decreases s.len(),
{
    if s.len() == 0 {
        Seq::empty()
    } else if is_displayable(s.last()) {
        displayable(s.drop_last()).push(s.last())
    } else {
        displayable(s.drop_last())
    }
}

/// At most the first `CLEAN_LIMIT` displayable characters of `s`.
pub open spec fn spec_clean(s: Seq<char>) -> Seq<char> {
    let d = displayable(s);
    if d.len() <= CLEAN_LIMIT {
        d
    } else {
        d.take(CLEAN_LIMIT as int)
    }
}

fn displayable_char(c: char) -> (r: bool)
    ensures
        r == is_displayable(c),
{
    let code = c as u32;
    !(code <= 0x1f || (0x7f <= code && code <= 0x9f) || (0x202a <= code && code <= 0x202e) || (
    0x2066 <= code && code <= 0x2069))
}

/// Removes control and bidirectional formatting characters, and keeps at
/// most 4000 characters, so that text from X cannot drive the terminal.
pub fn clean(text: &str) -> (r: String)
    ensures
        r@ == spec_clean(text@),
{
    let mut out = String::new();
    let mut kept: usize = 0;
    for c in it: text.chars()
        invariant
            kept == out@.len(),
            it.seq() == text@,
            out@ == spec_clean(text@.take(it.index() as int)),
    {
        let ghost prefix = text@.take(it.index() as int);
        let ghost next = text@.take(it.index() + 1);
        proof {
            assert(next.drop_last() =~= prefix);
            assert(next.last() == c);
        }
        if displayable_char(c) && kept < CLEAN_LIMIT {
            out.push(c);
            kept = kept + 1;
        }
    }
    proof {
        assert(text@.take(text@.len() as int) =~= text@);
    }
    out
}


/// Every character that `displayable` keeps is displayable, and it never
/// lengthens the text.
pub proof fn lemma_displayable_chars(s: Seq<char>)
    ensures
        displayable(s).len() <= s.len(),
        forall|i: int| 0 <= i < displayable(s).len() ==> is_displayable(#[trigger] displayable(s)[i]),
    decreases s.len(),
{
    if s.len() > 0 {
        lemma_displayable_chars(s.drop_last());
    }
}

/// Text made only of displayable characters passes through unchanged.
pub proof fn lemma_displayable_fixed(s: Seq<char>)
    requires
        forall|i: int| 0 <= i < s.len() ==> is_displayable(#[trigger] s[i]),
    ensures
        displayable(s) == s,
    decreases s.len(),
{
    if s.len() > 0 {
        lemma_displayable_fixed(s.drop_last());
        assert(s.drop_last().push(s.last()) =~= s);
    }
}

/// Law: cleaned text holds no control or bidirectional formatting character,
/// is at most 4000 characters long, and cleaning it again changes nothing.
pub proof fn law_clean_is_safe_and_idempotent(s: Seq<char>)
    ensures
        spec_clean(s).len() <= CLEAN_LIMIT,
        forall|i: int| 0 <= i < spec_clean(s).len() ==> is_displayable(#[trigger] spec_clean(s)[i]),
        spec_clean(spec_clean(s)) == spec_clean(s),
{
    lemma_displayable_chars(s);
    let d = displayable(s);
    let c = spec_clean(s);
    assert forall|i: int| 0 <= i < c.len() implies is_displayable(#[trigger] c[i]) by {
        assert(c[i] == d[i]);
    }
    lemma_displayable_fixed(c);
}

/// Law: an account is eligible only when every protection lets it through:
/// it is not kept, it follows you, it is not verified and you do not follow it
/// where the policy protects those, its visibility is known to be public, and
/// a fresh activity check exists.
pub proof fn law_eligible_accounts_pass_every_protection(a: Account, p: Policy, now: int)
    requires
        a.spec_reason(p, now) is Ok,
    ensures
        a.spec_basic_reason(p) is Ok,
        a.spec_basic_candidate(p),
        !a.kept,
        a.follows_me == Some(true),
        p.skip_verified ==> a.verified == Some(false),
        p.skip_following ==> a.i_follow == Some(false),
        a.protected == Some(false),
        a.checked_at_ms is Some,
        !Account::spec_evidence_expired(a.checked_at_ms->0 as int, now),
{
}

/// Law: an account passing the relationship rules also passes the quick
/// candidate filter.
pub proof fn law_basic_reason_implies_candidate(a: Account, p: Policy)
    requires
        a.spec_basic_reason(p) is Ok,
    ensures
        a.spec_basic_candidate(p),
{
}

/// Law: a kept account is never eligible, whatever its activity.
pub proof fn law_kept_is_never_eligible(a: Account, p: Policy, now: int)
    requires
        a.kept,
    ensures
        a.spec_reason(p, now) == Err::<Seq<char>, Seq<char>>("Kept"@),
{
}

/// Law: activity after the cutoff protects an account, even one that shows
/// zero posts: recent observed activity overrides the zero-post rule.
pub proof fn law_recent_activity_protects(a: Account, p: Policy, now: int)
    requires
        a.last_activity_ms matches Some(t) && t > Account::spec_cutoff(p, now),
    ensures
        a.spec_reason(p, now) is Err,
{
}

/// Law: the zero-post rule removes only where the policy turns it on. With
/// it off, an account whose observed coverage does not reach back to the
/// cutoff is never eligible, whatever its post count; and an account is
/// ever removed for having zero posts only when the rule is on and it
/// shows zero posts.
pub proof fn law_zero_posts_only_when_enabled(a: Account, p: Policy, now: int)
    ensures
        !p.include_zero_posts && !(a.coverage_since_ms matches Some(t) && t <= now - p.inactive_days * DAY_MS)
            ==> a.spec_reason(p, now) is Err,
        a.spec_reason(p, now) == Ok::<Seq<char>, Seq<char>>("Zero current posts"@) ==> p.include_zero_posts
            && a.posts == Some(0u64),
        a.spec_reason(p, now) is Ok ==> p.include_zero_posts && a.posts == Some(0u64) || (
        a.coverage_since_ms matches Some(t) && t <= now - p.inactive_days * DAY_MS),
{
    reveal_strlit("Zero current posts");
    reveal_strlit("Inactive");
    assert("Zero current posts"@.len() != "Inactive"@.len());
}

/// Law: without a fresh activity check no account is eligible.
pub proof fn law_missing_or_stale_evidence_never_qualifies(a: Account, p: Policy, now: int)
    requires
        a.checked_at_ms is None || Account::spec_evidence_expired(a.checked_at_ms->0 as int, now),
    ensures
        a.spec_reason(p, now) is Err,
{
}


/// `getrandom`'s error, carried through unopened.
#[verifier::external_type_specification]
#[verifier::external_body]
pub struct ExRandomError(getrandom::Error);

/// Fills `dest` with bytes from the operating system's random source through
/// `getrandom::fill`. Nothing is claimed of the bytes; the call may fail.
#[verifier::external_body]
fn fill_random(dest: &mut [u8; 32]) -> (r: Result<(), getrandom::Error>) {
    getrandom::fill(dest)
}

/// Milliseconds since the Unix epoch from `SystemTime::now`, or 0 where the
/// clock reads before the epoch. Nothing is claimed of the value.
#[verifier::external_body]
fn wall_clock_ms() -> (r: u128) {
    std::time::SystemTime::now().duration_since(std::time::UNIX_EPOCH).unwrap_or_default().as_millis()
}

/// The current time in milliseconds since the Unix epoch.
pub fn now_ms() -> i64 {
    #[verifier::truncate]
    (wall_clock_ms() as i64)
}

/// The lowercase hexadecimal digit for `n` (0..16).
pub open spec fn hex_digit(n: u8) -> char {
    if n < 10 {
        (48 + n) as char
    } else {
        (87 + n) as char
    }
}

/// `bytes` in lowercase hexadecimal, two digits per byte, high nibble first.
pub open spec fn spec_hex(bytes: Seq<u8>) -> Seq<char> {
    Seq::new(
        2 * bytes.len(),
        |i: int|
            if i % 2 == 0 {
                hex_digit(bytes[i / 2] / 16)
            } else {
                hex_digit(bytes[i / 2] % 16)
            },
    )
}

/// A random identifier: 64 lowercase hexadecimal digits.
pub open spec fn is_hex_id(s: Seq<char>) -> bool {
    &&& s.len() == 64
    &&& forall|i: int|
        0 <= i < s.len() ==> ('0' <= #[trigger] s[i] <= '9' || 'a' <= s[i] <= 'f')
}

fn hex_char(n: u8) -> (c: char)
    requires
        n < 16,
    ensures
        c == hex_digit(n),
{
    if n < 10 {
        (48 + n) as char
    } else {
        (87 + n) as char
    }
}

/// Encodes `bytes` as lowercase hexadecimal.
pub fn hex(bytes: &[u8]) -> (r: String)
    requires
        bytes@.len() * 2 <= usize::MAX,
    ensures
        r@ == spec_hex(bytes@),
{
    let mut out = String::new();
    let mut i: usize = 0;
    while i < bytes.len()
        invariant
            i <= bytes@.len(),
            out@ =~= spec_hex(bytes@.take(i as int)),
        decreases bytes@.len() - i,
    {
        let b = bytes[i];
        out.push(hex_char(b / 16));
        out.push(hex_char(b % 16));
        proof {
            assert(bytes@.take(i as int) =~= bytes@.take(i + 1).take(i as int));
        }
        i = i + 1;
    }
    proof {
        assert(bytes@.take(bytes@.len() as int) =~= bytes@);
    }
    out
}

/// A new random 256-bit identifier in lowercase hexadecimal, or `None`
/// where the operating system's random source fails.
pub fn new_id() -> (r: Option<String>)
    ensures
        r matches Some(s) ==> is_hex_id(s@),
{
    let mut bytes = [0u8; 32];
    match fill_random(&mut bytes) {
        Ok(()) => {
            let s = hex(&bytes);
            proof {
                assert forall|i: int| 0 <= i < s@.len() implies ('0' <= #[trigger] s@[i] <= '9' || 'a'
                    <= s@[i] <= 'f') by {
                    let b = bytes@[i / 2];
                    assert(b / 16 < 16 && b % 16 < 16);
                }
            }
            Some(s)
        },
        Err(_) => None,
    }
}


/// `x` clamped into `lo..=hi`.
pub open spec fn clamp(x: int, lo: int, hi: int) -> int {
    if x < lo {
        lo
    } else if x > hi {
        hi
    } else {
        x
    }
}

fn clamp_i64(x: i64, lo: i64, hi: i64) -> (r: i64)
    requires
        lo <= hi,
    ensures
        r == clamp(x as int, lo as int, hi as int),
{
    if x < lo {
        lo
    } else if x > hi {
        hi
    } else {
        x
    }
}

impl Policy {
    /// The rules after moving the setting on `row` one step in direction
    /// `d`: inactive days by 10 within 1..=3650, the three protections
    /// toggled, the removal interval by 1 s within 5..=300, and the hourly
    /// attempt limit by 10 within 1..=500. Values are first read as `i32`,
    /// as the settings screen does.
    pub open spec fn spec_adjust(self, row: usize, d: i32) -> Policy {
        if row == 0 {
            Policy {
                inactive_days: clamp((self.inactive_days as i32) + d * 10, 1, 3650) as u32,
                ..self
            }
        } else if row == 1 {
            Policy { skip_verified: !self.skip_verified, ..self }
        } else if row == 2 {
            Policy { skip_following: !self.skip_following, ..self }
        } else if row == 3 {
            Policy { include_zero_posts: !self.include_zero_posts, ..self }
        } else if row == 4 {
            Policy { delay_seconds: clamp((self.delay_seconds as i32) + d, 5, 300) as u32, ..self }
        } else if row == 5 {
            Policy { batch_limit: clamp((self.batch_limit as i32) + d * 10, 1, 500) as usize, ..self }
        } else {
            self
        }
    }

    /// Moves the setting on `row` one step in direction `d`.
    pub fn adjust(&mut self, row: usize, d: i32)
        ensures
            *final(self) == old(self).spec_adjust(row, d),
    {
        let step = d as i64;
        if row == 0 {
            #[verifier::truncate]
            let base = self.inactive_days as i32;
            self.inactive_days = clamp_i64(base as i64 + step * 10, 1, 3650) as u32;
        } else if row == 1 {
            self.skip_verified = !self.skip_verified;
        } else if row == 2 {
            self.skip_following = !self.skip_following;
        } else if row == 3 {
            self.include_zero_posts = !self.include_zero_posts;
        } else if row == 4 {
            #[verifier::truncate]
            let base = self.delay_seconds as i32;
            self.delay_seconds = clamp_i64(base as i64 + step, 5, 300) as u32;
        } else if row == 5 {
            #[verifier::truncate]
            let base = self.batch_limit as i32;
            self.batch_limit = clamp_i64(base as i64 + step * 10, 1, 500) as usize;
        }
    }
}

} // verus!
