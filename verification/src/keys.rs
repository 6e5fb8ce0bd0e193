//! What each key asks of the controller, in each view. Mouse wheels only
//! ever navigate; no key outside the confirmation views approves work.
use crate::app::Mode;
use crate::setup::Step;
use vstd::prelude::*;

verus! {

/// A key press, as the controller distinguishes them.
#[derive(Clone, Copy, Debug, PartialEq, Eq, Structural)]
pub enum Key {
    Char(char),
    /// Control and C together.
    Interrupt,
    Enter,
    Esc,
    Backspace,
    Up,
    Down,
    Left,
    Right,
    PageUp,
    PageDown,
    Home,
    Other,
}

/// A mouse wheel turn.
#[derive(Clone, Copy, Debug, PartialEq, Eq, Structural)]
pub enum Wheel {
    Down,
    Up,
}

/// A wheel turn moves the highlight as an arrow key would.
pub fn wheel_key(w: Wheel) -> (r: Key)
    ensures
        r == (match w {
            Wheel::Down => Key::Down,
            Wheel::Up => Key::Up,
        }),
{
    match w {
        Wheel::Down => Key::Down,
        Wheel::Up => Key::Up,
    }
}

/// What the controller knows when a key arrives.
#[derive(Clone, Copy, Debug, PartialEq, Eq, Structural)]
pub struct KeyContext {
    pub mode: Mode,
    /// The current rules are those of the simple cleanup.
    pub simple_cleanup: bool,
    pub demo: bool,
    pub connected: bool,
    /// The signed-in account is known.
    pub identified: bool,
    /// The pairing guide is available.
    pub has_setup: bool,
    /// Full Auto or a cleanup runs.
    pub auto: bool,
    pub has_batch: bool,
}

/// What a key asks for.
#[derive(Clone, Copy, Debug, PartialEq, Eq, Structural)]
pub enum Request {
    Nothing,
    /// Pause and leave.
    Quit,
    /// Pause running work, or resume paused work.
    TogglePause,
    /// Cancel Full Auto and the queue.
    CancelWork,
    /// The simple cleanup needs a live, identified account first; the
    /// pairing guide opens where it exists.
    ConnectFirst,
    /// The simple cleanup runs these steps itself.
    CleanupIsAutomatic,
    /// Open the confirmation of the cleanup or of Full Auto.
    ConfirmAuto,
    CloseSearch,
    SearchBackspace,
    SearchType(char),
    ApproveQueue,
    BackToList,
    SaveRulesAndClose,
    /// Move to another rule row, cycling through this many rows.
    NextRow(usize),
    PreviousRow(usize),
    AdjustRule(i32),
    BeginCleanup,
    StartFullAuto,
    ResetPacing,
    AdjustPacing(i32),
    SaveProcessingAndClose,
    ScrollBy(i32),
    ScrollHome,
    OpenPairingGuide,
    MoveFocus(crate::app::Nav),
    OpenSearch,
    OpenHelp,
    OpenDetails,
    OpenSettings,
    ReviewCleanupRule,
    OpenFullAuto,
    OpenFilters,
    ToggleOnlyMatching,
    Scan,
    CheckActivity,
    RunInBackground,
    ToggleSelection,
    SelectCandidates,
    SelectByBasicRules,
    ToggleQueueList,
    ToggleKeep,
    ReviewRemovals,
    OpenProfile,
    ReconcileFirstUncertain,
}

/// Law: on the removal-rules screen and the processing-settings screen the
/// decrease keys (Left, `-`) and the increase keys (Right, `+`) step in
/// opposite directions, one step each: on the rules screen a decrease
/// moves the inactivity setting ten days down and an increase ten days up.
pub proof fn law_adjust_keys_step_in_opposite_directions(ctx: KeyContext, p: crate::model::Policy)
    ensures
        ctx.mode == Mode::Filters ==> {
            &&& spec_key_request(ctx, Key::Left) == Request::AdjustRule(-1i32)
            &&& spec_key_request(ctx, Key::Char('-')) == Request::AdjustRule(-1i32)
            &&& spec_key_request(ctx, Key::Right) == Request::AdjustRule(1)
            &&& spec_key_request(ctx, Key::Char('+')) == Request::AdjustRule(1)
        },
        ctx.mode == Mode::Filters && 10 < p.inactive_days < 3640 ==> {
            &&& spec_key_request(ctx, Key::Left) matches Request::AdjustRule(d) && p.spec_adjust(0, d).inactive_days
                == p.inactive_days - 10
            &&& spec_key_request(ctx, Key::Char('+')) matches Request::AdjustRule(u) && p.spec_adjust(
                0,
                u,
            ).inactive_days == p.inactive_days + 10
        },
        ctx.mode == Mode::Settings ==> {
            &&& spec_key_request(ctx, Key::Left) == Request::AdjustPacing(-1i32)
            &&& spec_key_request(ctx, Key::Char('-')) == Request::AdjustPacing(-1i32)
            &&& spec_key_request(ctx, Key::Right) == Request::AdjustPacing(1)
            &&& spec_key_request(ctx, Key::Char('+')) == Request::AdjustPacing(1)
        },
{
}

/// The rule rows of the filters view and of the settings view.
pub const FILTER_ROWS: usize = 7;

/// The rows of the processing settings view.
pub const SETTING_ROWS: usize = 5;

/// The request of a key in the browse view when the simple cleanup is
/// set: without a live account only quitting, the settings and the
/// pairing guide pass; starting keys open the confirmation while nothing
/// runs; the space bar otherwise pauses or resumes; manual steps are
/// refused. `None` lets the key through to the general handling.
pub open spec fn spec_simple_browse(ctx: KeyContext, key: Key) -> Option<Request> {
    let idle = !ctx.auto && !ctx.has_batch;
    if !ctx.demo && (!ctx.connected || !ctx.identified) && !(key == Key::Char('q') || key
        == Key::Char(',') || key == Key::Char('P')) {
        Some(Request::ConnectFirst)
    } else if idle && (key == Key::Enter || key == Key::Char('s') || key == Key::Char('F') || key
        == Key::Char(' ')) {
        Some(Request::ConfirmAuto)
    } else if key == Key::Char(' ') {
        Some(Request::TogglePause)
    } else if key == Key::Char('i') || key == Key::Char('f') || key == Key::Char('a') || key
        == Key::Char('A') || key == Key::Char('d') {
        Some(Request::CleanupIsAutomatic)
    } else {
        None
    }
}

/// The request of a key in one of the modal views.
pub open spec fn spec_modal(ctx: KeyContext, key: Key) -> Option<Request> {
    match ctx.mode {
        Mode::Search => Some(
            match key {
                Key::Esc | Key::Enter => Request::CloseSearch,
                Key::Backspace => Request::SearchBackspace,
                Key::Char(c) => Request::SearchType(c),
                _ => Request::Nothing,
            },
        ),
        Mode::Confirm => Some(
            match key {
                Key::Char('y') => Request::ApproveQueue,
                Key::Esc | Key::Char('n') | Key::Enter => Request::BackToList,
                _ => Request::Nothing,
            },
        ),
        Mode::Filters => Some(
            match key {
                Key::Esc | Key::Enter => Request::SaveRulesAndClose,
                Key::Down | Key::Char('j') => Request::NextRow(FILTER_ROWS),
                Key::Up | Key::Char('k') => Request::PreviousRow(FILTER_ROWS),
                Key::Left | Key::Char('-') => Request::AdjustRule(-1i32),
                Key::Right | Key::Char('+') | Key::Char(' ') => Request::AdjustRule(1),
                _ => Request::Nothing,
            },
        ),
        Mode::AutoConfirm => Some(
            if key == Key::Char('y') {
                if ctx.simple_cleanup {
                    Request::BeginCleanup
                } else {
                    Request::StartFullAuto
                }
            } else if key == Key::Enter || key == Key::Esc || key == Key::Char('n') {
                Request::BackToList
            } else {
                Request::Nothing
            },
        ),
        Mode::Settings => Some(
            match key {
                Key::Down | Key::Char('j') => Request::NextRow(SETTING_ROWS),
                Key::Up | Key::Char('k') => Request::PreviousRow(SETTING_ROWS),
                Key::Char('R') => Request::ResetPacing,
                Key::Left | Key::Char('-') => Request::AdjustPacing(-1i32),
                Key::Right | Key::Char('+') => Request::AdjustPacing(1),
                Key::Esc | Key::Enter | Key::Char(',') => Request::SaveProcessingAndClose,
                _ => Request::Nothing,
            },
        ),
        Mode::Details | Mode::Help => Some(
            match key {
                Key::Esc | Key::Enter | Key::Char('q') | Key::Char('?') => Request::BackToList,
                Key::Down | Key::Char('j') => Request::ScrollBy(1),
                Key::Up | Key::Char('k') => Request::ScrollBy(-1i32),
                Key::PageDown => Request::ScrollBy(10),
                Key::PageUp => Request::ScrollBy(-10i32),
                Key::Home => Request::ScrollHome,
                _ => Request::Nothing,
            },
        ),
        _ => None,
    }
}

/// The request of a key in the list view.
pub open spec fn spec_browse(ctx: KeyContext, key: Key) -> Request {
    match key {
        Key::Char('P') => if ctx.has_setup {
            Request::OpenPairingGuide
        } else {
            Request::Nothing
        },
        Key::Char('q') => Request::Quit,
        Key::Down | Key::Char('j') => Request::MoveFocus(crate::app::Nav::Down),
        Key::Up | Key::Char('k') => Request::MoveFocus(crate::app::Nav::Up),
        Key::PageDown => Request::MoveFocus(crate::app::Nav::PageDown),
        Key::PageUp => Request::MoveFocus(crate::app::Nav::PageUp),
        Key::Char('/') => Request::OpenSearch,
        Key::Char('?') => Request::OpenHelp,
        Key::Enter => Request::OpenDetails,
        Key::Char(',') => Request::OpenSettings,
        Key::Char('S') => Request::ReviewCleanupRule,
        Key::Char('F') => Request::OpenFullAuto,
        Key::Char('f') => Request::OpenFilters,
        Key::Char('m') => Request::ToggleOnlyMatching,
        Key::Char('s') => Request::Scan,
        Key::Char('i') => Request::CheckActivity,
        Key::Char('b') => Request::RunInBackground,
        Key::Char(' ') => Request::ToggleSelection,
        Key::Char('a') => Request::SelectCandidates,
        Key::Char('A') => Request::SelectByBasicRules,
        Key::Char('v') => Request::ToggleQueueList,
        Key::Char('K') => Request::ToggleKeep,
        Key::Char('d') => Request::ReviewRemovals,
        Key::Char('o') => Request::OpenProfile,
        Key::Char('r') => Request::ReconcileFirstUncertain,
        _ => Request::Nothing,
    }
}

/// The request of a key outside the pairing guide, in order: the interrupt
/// quits; the simple cleanup's list view first; pause and cancel work in
/// every view; then the open modal view; then the list view.
pub open spec fn spec_key_request(ctx: KeyContext, key: Key) -> Request {
    if key == Key::Interrupt {
        Request::Quit
    } else if ctx.mode == Mode::Browse && ctx.simple_cleanup && spec_simple_browse(ctx, key) is Some {
        spec_simple_browse(ctx, key)->0
    } else if key == Key::Char('p') {
        Request::TogglePause
    } else if key == Key::Char('c') {
        Request::CancelWork
    } else {
        match spec_modal(ctx, key) {
            Some(r) => r,
            None => spec_browse(ctx, key),
        }
    }
}

fn is_char(key: Key, c: char) -> (r: bool)
    ensures
        r == (key == Key::Char(c)),
{
    match key {
        Key::Char(k) => k == c,
        _ => false,
    }
}

fn simple_browse(ctx: &KeyContext, key: Key) -> (r: Option<Request>)
    ensures
        r == spec_simple_browse(*ctx, key),
{
    let idle = !ctx.auto && !ctx.has_batch;
    if !ctx.demo && (!ctx.connected || !ctx.identified) && !(is_char(key, 'q') || is_char(key, ',')
        || is_char(key, 'P')) {
        return Some(Request::ConnectFirst);
    }
    if idle && (key == Key::Enter || is_char(key, 's') || is_char(key, 'F') || is_char(key, ' ')) {
        return Some(Request::ConfirmAuto);
    }
    if is_char(key, ' ') {
        return Some(Request::TogglePause);
    }
    if is_char(key, 'i') || is_char(key, 'f') || is_char(key, 'a') || is_char(key, 'A') || is_char(
        key,
        'd',
    ) {
        return Some(Request::CleanupIsAutomatic);
    }
    None
}

fn modal(ctx: &KeyContext, key: Key) -> (r: Option<Request>)
    ensures
        r == spec_modal(*ctx, key),
{
    match ctx.mode {
        Mode::Search => Some(
            match key {
                Key::Esc | Key::Enter => Request::CloseSearch,
                Key::Backspace => Request::SearchBackspace,
                Key::Char(c) => Request::SearchType(c),
                _ => Request::Nothing,
            },
        ),
        Mode::Confirm => Some(
            match key {
                Key::Char('y') => Request::ApproveQueue,
                Key::Esc | Key::Char('n') | Key::Enter => Request::BackToList,
                _ => Request::Nothing,
            },
        ),
        Mode::Filters => Some(
            match key {
                Key::Esc | Key::Enter => Request::SaveRulesAndClose,
                Key::Down | Key::Char('j') => Request::NextRow(FILTER_ROWS),
                Key::Up | Key::Char('k') => Request::PreviousRow(FILTER_ROWS),
                Key::Left | Key::Char('-') => Request::AdjustRule(-1i32),
                Key::Right | Key::Char('+') | Key::Char(' ') => Request::AdjustRule(1),
                _ => Request::Nothing,
            },
        ),
        Mode::AutoConfirm => Some(
            if is_char(key, 'y') {
                if ctx.simple_cleanup {
                    Request::BeginCleanup
                } else {
                    Request::StartFullAuto
                }
            } else if key == Key::Enter || key == Key::Esc || is_char(key, 'n') {
                Request::BackToList
            } else {
                Request::Nothing
            },
        ),
        Mode::Settings => Some(
            match key {
                Key::Down | Key::Char('j') => Request::NextRow(SETTING_ROWS),
                Key::Up | Key::Char('k') => Request::PreviousRow(SETTING_ROWS),
                Key::Char('R') => Request::ResetPacing,
                Key::Left | Key::Char('-') => Request::AdjustPacing(-1i32),
                Key::Right | Key::Char('+') => Request::AdjustPacing(1),
                Key::Esc | Key::Enter | Key::Char(',') => Request::SaveProcessingAndClose,
                _ => Request::Nothing,
            },
        ),
        Mode::Details | Mode::Help => Some(
            match key {
                Key::Esc | Key::Enter | Key::Char('q') | Key::Char('?') => Request::BackToList,
                Key::Down | Key::Char('j') => Request::ScrollBy(1),
                Key::Up | Key::Char('k') => Request::ScrollBy(-1i32),
                Key::PageDown => Request::ScrollBy(10),
                Key::PageUp => Request::ScrollBy(-10i32),
                Key::Home => Request::ScrollHome,
                _ => Request::Nothing,
            },
        ),
        _ => None,
    }
}

fn browse(ctx: &KeyContext, key: Key) -> (r: Request)
    ensures
        r == spec_browse(*ctx, key),
{
    match key {
        Key::Char('P') => if ctx.has_setup {
            Request::OpenPairingGuide
        } else {
            Request::Nothing
        },
        Key::Char('q') => Request::Quit,
        Key::Down | Key::Char('j') => Request::MoveFocus(crate::app::Nav::Down),
        Key::Up | Key::Char('k') => Request::MoveFocus(crate::app::Nav::Up),
        Key::PageDown => Request::MoveFocus(crate::app::Nav::PageDown),
        Key::PageUp => Request::MoveFocus(crate::app::Nav::PageUp),
        Key::Char('/') => Request::OpenSearch,
        Key::Char('?') => Request::OpenHelp,
        Key::Enter => Request::OpenDetails,
        Key::Char(',') => Request::OpenSettings,
        Key::Char('S') => Request::ReviewCleanupRule,
        Key::Char('F') => Request::OpenFullAuto,
        Key::Char('f') => Request::OpenFilters,
        Key::Char('m') => Request::ToggleOnlyMatching,
        Key::Char('s') => Request::Scan,
        Key::Char('i') => Request::CheckActivity,
        Key::Char('b') => Request::RunInBackground,
        Key::Char(' ') => Request::ToggleSelection,
        Key::Char('a') => Request::SelectCandidates,
        Key::Char('A') => Request::SelectByBasicRules,
        Key::Char('v') => Request::ToggleQueueList,
        Key::Char('K') => Request::ToggleKeep,
        Key::Char('d') => Request::ReviewRemovals,
        Key::Char('o') => Request::OpenProfile,
        Key::Char('r') => Request::ReconcileFirstUncertain,
        _ => Request::Nothing,
    }
}

/// Decides what a key asks for outside the pairing guide.
pub fn key_request(ctx: &KeyContext, key: Key) -> (r: Request)
    ensures
        r == spec_key_request(*ctx, key),
{
    if key == Key::Interrupt {
        return Request::Quit;
    }
    if ctx.mode == Mode::Browse && ctx.simple_cleanup {
        match simple_browse(ctx, key) {
            Some(r) => {
                return r;
            },
            None => {},
        }
    }
    if is_char(key, 'p') {
        return Request::TogglePause;
    }
    if is_char(key, 'c') {
        return Request::CancelWork;
    }
    match modal(ctx, key) {
        Some(r) => r,
        None => browse(ctx, key),
    }
}

/// Law: a mouse wheel never approves, selects, starts or removes anything:
/// in every view it only moves the highlight, scrolls, or does nothing.
pub proof fn law_wheel_only_navigates(ctx: KeyContext, w: Wheel)
    requires
        !(ctx.mode == Mode::Browse && ctx.simple_cleanup && !ctx.demo && (!ctx.connected
            || !ctx.identified)),
    ensures
        ({
            let r = spec_key_request(ctx, if w == Wheel::Down { Key::Down } else { Key::Up });
            r matches Request::MoveFocus(_) || r matches Request::ScrollBy(_) || r matches Request::NextRow(_)
                || r matches Request::PreviousRow(_) || r == Request::Nothing
        }),
{
}

/// Law: only the `y` key approves a removal queue, starts Full Auto or
/// begins a cleanup, and only in a confirmation view.
pub proof fn law_only_confirmation_approves(ctx: KeyContext, key: Key)
    ensures
        (spec_key_request(ctx, key) == Request::ApproveQueue || spec_key_request(ctx, key)
            == Request::StartFullAuto || spec_key_request(ctx, key) == Request::BeginCleanup) ==> (
        key == Key::Char('y') && (ctx.mode == Mode::Confirm || ctx.mode == Mode::AutoConfirm)),
{
}

/// What a key asks of the pairing guide.
#[derive(Clone, Copy, Debug, PartialEq, Eq, Structural)]
pub enum SetupRequest {
    Nothing,
    Quit,
    ToggleReveal,
    ToggleManual,
    OpenInstall,
    OpenOptions,
    /// Copy the secret in manual pairing, else the extension folder.
    CopyValue,
    CopySecret,
    ConfirmAccount,
    CheckAccount,
    OpenX,
    GoBack,
    ScrollDown,
    ScrollUp,
    RefreshInstallation,
}

/// What the pairing guide knows when a key arrives.
#[derive(Clone, Copy, Debug, PartialEq, Eq, Structural)]
pub struct SetupContext {
    pub step: Step,
    pub manual: bool,
    pub connected: bool,
    pub identified: bool,
    pub account_error: bool,
    pub pending: bool,
}

/// The request of a key in the pairing guide.
pub open spec fn spec_setup_request(ctx: SetupContext, key: Key) -> SetupRequest {
    match key {
        Key::Char('q') => SetupRequest::Quit,
        Key::Char('v') if ctx.step == Step::Pair => SetupRequest::ToggleReveal,
        Key::Char('m') => SetupRequest::ToggleManual,
        Key::Char('i') if !ctx.connected => SetupRequest::OpenInstall,
        Key::Char('o') => SetupRequest::OpenOptions,
        Key::Char('y') if !ctx.connected || ctx.manual => SetupRequest::CopyValue,
        Key::Enter | Key::Char('b') => if ctx.manual {
            SetupRequest::CopySecret
        } else if ctx.connected && ctx.identified && key == Key::Enter {
            SetupRequest::ConfirmAccount
        } else if ctx.connected && ctx.account_error && key == Key::Enter {
            SetupRequest::CheckAccount
        } else if ctx.connected {
            if !ctx.pending || key == Key::Char('b') {
                SetupRequest::OpenX
            } else {
                SetupRequest::Nothing
            }
        } else if ctx.step == Step::Install {
            SetupRequest::OpenInstall
        } else {
            SetupRequest::OpenOptions
        },
        Key::Esc | Key::Left => SetupRequest::GoBack,
        Key::Down | Key::PageDown => SetupRequest::ScrollDown,
        Key::Up | Key::PageUp => SetupRequest::ScrollUp,
        Key::Char('r') if !ctx.connected => SetupRequest::RefreshInstallation,
        Key::Char('r') if ctx.connected && !ctx.pending => SetupRequest::CheckAccount,
        _ => SetupRequest::Nothing,
    }
}

/// Decides what a key asks of the pairing guide.
pub fn setup_request(ctx: &SetupContext, key: Key) -> (r: SetupRequest)
    ensures
        r == spec_setup_request(*ctx, key),
{
    match key {
        Key::Char('q') => SetupRequest::Quit,
        Key::Char('v') if ctx.step == Step::Pair => SetupRequest::ToggleReveal,
        Key::Char('m') => SetupRequest::ToggleManual,
        Key::Char('i') if !ctx.connected => SetupRequest::OpenInstall,
        Key::Char('o') => SetupRequest::OpenOptions,
        Key::Char('y') if !ctx.connected || ctx.manual => SetupRequest::CopyValue,
        Key::Enter | Key::Char('b') => if ctx.manual {
            SetupRequest::CopySecret
        } else if ctx.connected && ctx.identified && key == Key::Enter {
            SetupRequest::ConfirmAccount
        } else if ctx.connected && ctx.account_error && key == Key::Enter {
            SetupRequest::CheckAccount
        } else if ctx.connected {
            if !ctx.pending || is_char(key, 'b') {
                SetupRequest::OpenX
            } else {
                SetupRequest::Nothing
            }
        } else if ctx.step == Step::Install {
            SetupRequest::OpenInstall
        } else {
            SetupRequest::OpenOptions
        },
        Key::Esc | Key::Left => SetupRequest::GoBack,
        Key::Down | Key::PageDown => SetupRequest::ScrollDown,
        Key::Up | Key::PageUp => SetupRequest::ScrollUp,
        Key::Char('r') if !ctx.connected => SetupRequest::RefreshInstallation,
        Key::Char('r') if ctx.connected && !ctx.pending => SetupRequest::CheckAccount,
        _ => SetupRequest::Nothing,
    }
}

/// The step a key moves the pairing guide to, where it moves it: manual
/// mode and `i` restart at pairing and installing, `o` moves to pairing when
/// nothing is connected outside manual mode, and going back lands on the
/// step the live connection has reached. Refreshing the installation
/// moves as its reading decides.
pub open spec fn spec_guide_step_after(ctx: SetupContext, key: Key) -> Option<Step> {
    match spec_setup_request(ctx, key) {
        SetupRequest::ToggleManual => Some(Step::Pair),
        SetupRequest::OpenInstall => if key == Key::Char('i') {
            Some(Step::Install)
        } else {
            None
        },
        SetupRequest::OpenOptions => if key == Key::Char('o') && !ctx.manual && !ctx.connected {
            Some(Step::Pair)
        } else {
            None
        },
        SetupRequest::GoBack => Some(crate::setup::spec_step_for(ctx.connected, ctx.identified)),
        _ => None,
    }
}

/// Decides the step a key moves the pairing guide to.
pub fn guide_step_after(ctx: &SetupContext, key: Key) -> (r: Option<Step>)
    ensures
        r == spec_guide_step_after(*ctx, key),
{
    match setup_request(ctx, key) {
        SetupRequest::ToggleManual => Some(Step::Pair),
        SetupRequest::OpenInstall => if is_char(key, 'i') {
            Some(Step::Install)
        } else {
            None
        },
        SetupRequest::OpenOptions => if is_char(key, 'o') && !ctx.manual && !ctx.connected {
            Some(Step::Pair)
        } else {
            None
        },
        SetupRequest::GoBack => Some(crate::setup::step_for(ctx.connected, ctx.identified)),
        _ => None,
    }
}

/// Law: no key skips the pairing guide ahead of the live connection. The
/// guide reaches `Ready` only by going back on a connected, identified
/// account; it is left for the list only by Enter on such an account
/// outside manual mode; and the right arrow does nothing.
pub proof fn law_guide_cannot_skip_pairing(ctx: SetupContext, key: Key)
    ensures
        spec_guide_step_after(ctx, key) == Some(Step::Ready) ==> (key == Key::Esc || key
            == Key::Left) && ctx.connected && ctx.identified,
        spec_setup_request(ctx, key) == SetupRequest::ConfirmAccount ==> key == Key::Enter
            && ctx.connected && ctx.identified && !ctx.manual,
        key == Key::Right ==> spec_setup_request(ctx, key) == SetupRequest::Nothing
            && spec_guide_step_after(ctx, key) is None,
{
}

} // verus!
