//! The display-only clock of the cleanup animation and its receipt tags.
//! This clock never advances browser work.
use crate::app::{find_account, spec_find_account, Mode};
use crate::insect::Motion;
use crate::model::{clean, spec_clean, Account, Policy};
use crate::text::{decimal, spec_decimal};
use std::collections::VecDeque;
use vstd::prelude::*;

verus! {

broadcast use vstd::std_specs::vecdeque::axiom_spec_len;

/// How long a receipt tag stays on screen, in milliseconds.
pub const TAG_LIFETIME_MS: u64 = 8000;

/// How many receipt tags are shown at once.
pub const MAX_TAGS: usize = 8;

/// A confirmed removal shown as a tag.
pub struct Departure {
    pub handle: String,
    pub at_ms: u64,
}

/// The animation clock and the tags of recent confirmed removals.
#[derive(Default)]
pub struct Animation {
    pub clock_ms: u64,
    pub departures: VecDeque<Departure>,
}

/// `a + b`, capped at `u64::MAX`.
pub open spec fn sat_add(a: u64, b: u64) -> u64 {
    if a + b > u64::MAX {
        u64::MAX
    } else {
        (a + b) as u64
    }
}

/// `a - b`, floored at 0.
pub open spec fn sat_sub(a: u64, b: u64) -> u64 {
    if a >= b {
        (a - b) as u64
    } else {
        0
    }
}

/// The tags still shown at `clock`: those younger than their lifetime.
pub open spec fn live_tags(ds: Seq<Departure>, clock: u64) -> Seq<Departure>
    decreases ds.len(),
{
    if ds.len() == 0 {
        Seq::empty()
    } else if sat_sub(clock, ds.last().at_ms) < TAG_LIFETIME_MS {
        live_tags(ds.drop_last(), clock).push(ds.last())
    } else {
        live_tags(ds.drop_last(), clock)
    }
}

/// One frame's step of the clock: the elapsed time, capped at one second.
pub open spec fn frame_step(elapsed_ms: u128) -> u64 {
    if elapsed_ms > 1000 {
        1000
    } else {
        elapsed_ms as u64
    }
}

proof fn lemma_live_tags_len(ds: Seq<Departure>, clock: u64)
    ensures
        live_tags(ds, clock).len() <= ds.len(),
    decreases ds.len(),
{
    if ds.len() > 0 {
        lemma_live_tags_len(ds.drop_last(), clock);
    }
}

impl Animation {
    /// At most eight tags are kept.
    pub open spec fn well_formed(&self) -> bool {
        self.departures@.len() <= MAX_TAGS
    }

    /// Advances the clock by the elapsed time (at most one second per frame,
    /// never wrapping) and drops the tags that have been shown for their
    /// lifetime.
    pub fn advance(&mut self, elapsed_ms: u128)
        ensures
            final(self).clock_ms == sat_add(old(self).clock_ms, frame_step(elapsed_ms)),
            final(self).departures@ == live_tags(old(self).departures@, final(self).clock_ms),
            final(self).departures@.len() <= old(self).departures@.len(),
            final(self).clock_ms >= old(self).clock_ms,
            old(self).well_formed() ==> final(self).well_formed(),
    {
        let step: u64 = if elapsed_ms > 1000 {
            1000
        } else {
            elapsed_ms as u64
        };
        self.clock_ms = if self.clock_ms > u64::MAX - step {
            u64::MAX
        } else {
            self.clock_ms + step
        };
        let clock = self.clock_ms;
        let ghost all = self.departures@;
        let mut kept: VecDeque<Departure> = VecDeque::new();
        let mut i: usize = 0;
        let n = self.departures.len();
        while i < n
            invariant
                n == all.len(),
                i <= n,
                all == old(self).departures@,
                self.clock_ms == clock,
                clock == sat_add(old(self).clock_ms, frame_step(elapsed_ms)),
                self.departures@ == all.skip(i as int),
                kept@ == live_tags(all.take(i as int), clock),
            decreases n - i,
        {
            let d = self.departures.pop_front();
            match d {
                Some(d) => {
                    proof {
                        assert(all.take(i + 1).drop_last() =~= all.take(i as int));
                        assert(all.skip(i as int)[0] == all[i as int]);
                        assert(all.skip(i as int).subrange(1, all.skip(i as int).len() as int)
                            =~= all.skip(i + 1));
                    }
                    let age = if clock >= d.at_ms {
                        clock - d.at_ms
                    } else {
                        0
                    };
                    if age < TAG_LIFETIME_MS {
                        kept.push_back(d);
                    }
                },
                None => {},
            }
            i = i + 1;
        }
        proof {
            assert(all.take(n as int) =~= all);
            lemma_live_tags_len(all, clock);
        }
        self.departures = kept;
    }

    /// Shows a tag for a confirmed removal, with its handle cleaned, dropping
    /// the oldest tag when eight are shown.
    pub fn removed(&mut self, handle: String)
        requires
            old(self).well_formed(),
        ensures
            final(self).well_formed(),
            final(self).clock_ms == old(self).clock_ms,
            final(self).departures@.len() > 0,
            final(self).departures@.last().handle@ == spec_clean(handle@),
            final(self).departures@.last().at_ms == old(self).clock_ms,
            final(self).departures@.drop_last() == (if old(self).departures@.len() == MAX_TAGS {
                old(self).departures@.drop_first()
            } else {
                old(self).departures@
            }),
    {
        if self.departures.len() == MAX_TAGS {
            let _ = self.departures.pop_front();
        }
        let tag = Departure { handle: clean(handle.as_str()), at_ms: self.clock_ms };
        self.departures.push_back(tag);
        proof {
            assert(self.departures@.drop_last() =~= (if old(self).departures@.len() == MAX_TAGS {
                old(self).departures@.drop_first()
            } else {
                old(self).departures@
            }));
        }
    }
}

/// What the cleanup scene shows.
pub struct Scene<'a> {
    pub handle: &'a str,
    pub removed: usize,
    pub active: bool,
    pub motion: Motion,
    pub state: String,
    pub target_label: String,
    pub removing: Option<String>,
    pub policy: &'a Policy,
    pub remaining: usize,
    pub animation: &'a Animation,
}

/// The scene is shown while a queue or Full Auto runs, the queue list is
/// closed, and the browse or settings view is open.
pub open spec fn spec_visible(busy: bool, show_queue_list: bool, mode: Mode) -> bool {
    busy && !show_queue_list && (mode is Browse || mode is Settings)
}

/// Whether the cleanup scene is shown.
pub fn visible(busy: bool, show_queue_list: bool, mode: Mode) -> (r: bool)
    ensures
        r == spec_visible(busy, show_queue_list, mode),
{
    busy && !show_queue_list && match mode {
        Mode::Browse | Mode::Settings => true,
        _ => false,
    }
}

/// The water's frame and clock: a moving scene follows the tick (50 ms a
/// tick, saturating); a still one holds frame 0 at the animation clock.
pub open spec fn spec_water_clock(active: bool, tick: u64, clock_ms: u64) -> (u64, u64) {
    if active {
        (tick, if tick * 50 <= u64::MAX {
            (tick * 50) as u64
        } else {
            u64::MAX
        })
    } else {
        (0, clock_ms)
    }
}

/// Chooses the water's frame and clock.
pub fn water_clock(active: bool, tick: u64, clock_ms: u64) -> (r: (u64, u64))
    ensures
        r == spec_water_clock(active, tick, clock_ms),
{
    if active {
        let now = match tick.checked_mul(50) {
            Some(t) => t,
            None => u64::MAX,
        };
        (tick, now)
    } else {
        (0, clock_ms)
    }
}

/// Law: pausing stops the water. While work is paused the scene does not
/// move, so the frame drawn is the same at every tick.
pub proof fn law_water_still_while_paused(
    shown: bool,
    paused: bool,
    connected: bool,
    clock_ms: u64,
    t1: u64,
    t2: u64,
)
    requires
        paused,
    ensures
        spec_water_clock(shown && !paused && connected, t1, clock_ms) == spec_water_clock(
            shown && !paused && connected,
            t2,
            clock_ms,
        ),
        spec_water_clock(shown && !paused && connected, t1, clock_ms) == (0u64, clock_ms),
{
}

/// Whether the scene moves: it is shown, the work is not paused, and the
/// extension is connected.
pub fn animating(shown: bool, paused: bool, connected: bool) -> (r: bool)
    ensures
        r == (shown && !paused && connected),
{
    shown && !paused && connected
}

/// The line under the counter: disconnection first, then pause, then the
/// cooldown, then the running queue.
pub open spec fn spec_scene_state(connected: bool, paused: bool, wait_seconds: u64) -> Seq<char> {
    if !connected {
        "Disconnected \u{b7} work stopped"@
    } else if paused {
        "Paused \u{b7} water stopped"@
    } else if wait_seconds > 0 {
        "Next attempt in "@ + spec_decimal(wait_seconds as nat) + "s \u{b7} water keeps flowing"@
    } else {
        "Queue running \u{b7} removals confirmed by X"@
    }
}

/// The state line of the scene.
pub fn scene_state(connected: bool, paused: bool, wait_seconds: u64) -> (r: String)
    ensures
        r@ == spec_scene_state(connected, paused, wait_seconds),
{
    if !connected {
        "Disconnected \u{b7} work stopped".to_owned()
    } else if paused {
        "Paused \u{b7} water stopped".to_owned()
    } else if wait_seconds > 0 {
        let mut s = "Next attempt in ".to_owned();
        let n = decimal(wait_seconds);
        s.append(n.as_str());
        s.append("s \u{b7} water keeps flowing");
        s
    } else {
        "Queue running \u{b7} removals confirmed by X".to_owned()
    }
}

/// What the scene names as its target.
#[derive(Clone, Copy, Debug, PartialEq, Eq, Structural)]
pub enum TargetKind {
    Removing,
    Checking,
    Next,
}

/// The word in front of the target's handle.
pub open spec fn target_word(kind: TargetKind) -> Seq<char> {
    match kind {
        TargetKind::Removing => "Removing"@,
        TargetKind::Checking => "Checking"@,
        TargetKind::Next => "Next"@,
    }
}

/// The handle shown for the account with ID `id`: its cleaned handle when
/// the account is known and that handle is not empty, else the ID itself.
pub open spec fn spec_display_handle(accounts: Seq<Account>, id: Seq<char>) -> Seq<char> {
    match spec_find_account(accounts, id) {
        Some(i) => if spec_clean(accounts[i].handle@).len() > 0 {
            spec_clean(accounts[i].handle@)
        } else {
            id
        },
        None => id,
    }
}

/// The handle to show for the account with ID `id`.
pub fn display_handle(accounts: &Vec<Account>, id: &str) -> (r: String)
    ensures
        r@ == spec_display_handle(accounts@, id@),
{
    match find_account(accounts, id) {
        Some(i) => {
            let h = clean(accounts[i].handle.as_str());
            if h.as_str().unicode_len() > 0 {
                h
            } else {
                id.to_owned()
            }
        },
        None => id.to_owned(),
    }
}

/// The scene's target line: the target with its handle, else Full Auto
/// with its phase, else the end of the queue.
pub open spec fn spec_target_label(
    target: Option<(TargetKind, Seq<char>)>,
    full_auto: bool,
    phase: Seq<char>,
) -> Seq<char> {
    match target {
        Some((kind, handle)) => target_word(kind) + ": @"@ + handle,
        None => if full_auto {
            "Full Auto: "@ + phase
        } else {
            "Queue complete"@
        },
    }
}

/// The target line of the scene.
pub fn target_label(target: Option<(TargetKind, &str)>, full_auto: bool, phase: &str) -> (r: String)
    ensures
        r@ == spec_target_label(
            match target {
                Some((k, h)) => Some((k, h@)),
                None => None,
            },
            full_auto,
            phase@,
        ),
{
    match target {
        Some((kind, handle)) => {
            let mut s = match kind {
                TargetKind::Removing => "Removing".to_owned(),
                TargetKind::Checking => "Checking".to_owned(),
                TargetKind::Next => "Next".to_owned(),
            };
            s.append(": @");
            s.append(handle);
            s
        },
        None => if full_auto {
            let mut s = "Full Auto: ".to_owned();
            s.append(phase);
            s
        } else {
            "Queue complete".to_owned()
        },
    }
}

/// Where the pouring scene draws its parts, by the height of its art area:
/// the first row of the stream (under the ladle), the first row and height
/// of the logo, and the row of the splash.
#[derive(Clone, Copy, Debug, PartialEq, Eq, Structural)]
pub struct WaterLayout {
    pub stream_start: u16,
    pub logo_y: u16,
    pub logo_rows: u16,
    pub splash_y: u16,
}

/// The layout for an art area `height` rows tall: the full composition from
/// 24 rows, a shorter one from 17, and a compact one below.
pub open spec fn spec_water_layout(height: u16) -> WaterLayout {
    if height >= 24 {
        WaterLayout { stream_start: 6, logo_y: 12, logo_rows: 9, splash_y: 22 }
    } else if height >= 17 {
        WaterLayout { stream_start: 4, logo_y: 7, logo_rows: 7, splash_y: 14 }
    } else {
        WaterLayout { stream_start: 3, logo_y: 4, logo_rows: 5, splash_y: 10 }
    }
}

/// Chooses the layout of the pouring scene.
pub fn water_layout(height: u16) -> (r: WaterLayout)
    ensures
        r == spec_water_layout(height),
        r.splash_y == r.logo_y + r.logo_rows + (if height >= 24 || height < 17 {
            1int
        } else {
            0int
        }),
        r.stream_start < r.splash_y,
{
    let tall = height >= 24;
    let medium = height >= 17;
    let stream_start: u16 = if tall {
        6
    } else if medium {
        4
    } else {
        3
    };
    let logo_y: u16 = if tall {
        12
    } else if medium {
        7
    } else {
        4
    };
    let logo_rows: u16 = if tall {
        9
    } else if medium {
        7
    } else {
        5
    };
    let extra: u16 = if tall || !medium {
        1
    } else {
        0
    };
    WaterLayout { stream_start, logo_y, logo_rows, splash_y: logo_y + logo_rows + extra }
}

/// The row of a confirmed tag of age `age`: it starts at the top of the
/// stream and falls towards the splash over the tag's lifetime.
pub open spec fn spec_tag_row(layout: WaterLayout, age: u64) -> int {
    layout.stream_start + (age * (layout.splash_y - layout.stream_start - 1)) / (TAG_LIFETIME_MS as int)
}

/// The row of a confirmed tag.
pub fn tag_row(layout: WaterLayout, age: u64) -> (r: u16)
    requires
        layout.stream_start < layout.splash_y,
        age < TAG_LIFETIME_MS,
    ensures
        r == spec_tag_row(layout, age),
        layout.stream_start <= r < layout.splash_y,
{
    let span: u64 = (layout.splash_y - layout.stream_start - 1) as u64;
    assert(age * span <= 8000 * 65535) by (nonlinear_arith)
        requires
            age < 8000,
            span <= 65535,
    ;
    assert((age * span) / 8000 < span + 1) by (nonlinear_arith)
        requires
            age < 8000,
    ;
    let offset: u64 = age * span / TAG_LIFETIME_MS;
    layout.stream_start + offset as u16
}

/// Law: a confirmed tag never rises as it ages, and stays within the
/// stream.
pub proof fn law_tags_move_downward(layout: WaterLayout, a: u64, b: u64)
    requires
        layout.stream_start < layout.splash_y,
        a <= b < TAG_LIFETIME_MS,
    ensures
        spec_tag_row(layout, a) <= spec_tag_row(layout, b),
        layout.stream_start <= spec_tag_row(layout, a) < layout.splash_y,
{
    let span: int = layout.splash_y - layout.stream_start - 1;
    assert(a * span <= b * span) by (nonlinear_arith)
        requires
            a <= b,
            span >= 0,
    ;
    vstd::arithmetic::div_mod::lemma_div_is_ordered(a * span, b * span, 8000);
    assert((a * span) / 8000 <= span) by (nonlinear_arith)
        requires
            a < 8000,
            span >= 0,
    ;
    assert(0 <= (a * span) / 8000) by (nonlinear_arith)
        requires
            a >= 0,
            span >= 0,
    ;
}

} // verus!
