use forgive_me::app::{Mode, Nav};
use forgive_me::keys::{
    key_request, setup_request, wheel_key, Key, KeyContext, Request, SetupContext, SetupRequest, Wheel,
};
use forgive_me::setup::Step;

fn ctx(mode: Mode) -> KeyContext {
    KeyContext {
        mode,
        simple_cleanup: false,
        demo: false,
        connected: true,
        identified: true,
        has_setup: true,
        auto: false,
        has_batch: false,
    }
}

#[test]
fn list_keys_map_to_their_requests() {
    let c = ctx(Mode::Browse);
    assert_eq!(key_request(&c, Key::Interrupt), Request::Quit);
    assert_eq!(key_request(&c, Key::Char('q')), Request::Quit);
    assert_eq!(key_request(&c, Key::Char('p')), Request::TogglePause);
    assert_eq!(key_request(&c, Key::Char('c')), Request::CancelWork);
    assert_eq!(key_request(&c, Key::Down), Request::MoveFocus(Nav::Down));
    assert_eq!(key_request(&c, Key::Char('k')), Request::MoveFocus(Nav::Up));
    assert_eq!(key_request(&c, Key::PageDown), Request::MoveFocus(Nav::PageDown));
    assert_eq!(key_request(&c, Key::Enter), Request::OpenDetails);
    assert_eq!(key_request(&c, Key::Char('d')), Request::ReviewRemovals);
    assert_eq!(key_request(&c, Key::Char('K')), Request::ToggleKeep);
    assert_eq!(key_request(&c, Key::Char('z')), Request::Nothing);
    let no_guide = KeyContext { has_setup: false, ..c };
    assert_eq!(key_request(&no_guide, Key::Char('P')), Request::Nothing);
    assert_eq!(key_request(&c, Key::Char('P')), Request::OpenPairingGuide);
}

#[test]
fn modal_views_handle_their_keys() {
    assert_eq!(key_request(&ctx(Mode::Search), Key::Char('x')), Request::SearchType('x'));
    assert_eq!(key_request(&ctx(Mode::Search), Key::Backspace), Request::SearchBackspace);
    assert_eq!(key_request(&ctx(Mode::Search), Key::Char('p')), Request::TogglePause);
    assert_eq!(key_request(&ctx(Mode::Confirm), Key::Char('y')), Request::ApproveQueue);
    assert_eq!(key_request(&ctx(Mode::Confirm), Key::Char('n')), Request::BackToList);
    assert_eq!(key_request(&ctx(Mode::Filters), Key::Up), Request::PreviousRow(7));
    assert_eq!(key_request(&ctx(Mode::Filters), Key::Char(' ')), Request::AdjustRule(1));
    assert_eq!(key_request(&ctx(Mode::Settings), Key::Down), Request::NextRow(5));
    assert_eq!(key_request(&ctx(Mode::Settings), Key::Char('-')), Request::AdjustPacing(-1));
    assert_eq!(key_request(&ctx(Mode::Help), Key::PageUp), Request::ScrollBy(-10));
    assert_eq!(key_request(&ctx(Mode::Details), Key::Home), Request::ScrollHome);
    assert_eq!(key_request(&ctx(Mode::AutoConfirm), Key::Char('y')), Request::StartFullAuto);
    let simple = KeyContext { simple_cleanup: true, ..ctx(Mode::AutoConfirm) };
    assert_eq!(key_request(&simple, Key::Char('y')), Request::BeginCleanup);
}

#[test]
fn simple_cleanup_list_guards_manual_steps() {
    let c = KeyContext { simple_cleanup: true, ..ctx(Mode::Browse) };
    assert_eq!(key_request(&c, Key::Enter), Request::ConfirmAuto);
    assert_eq!(key_request(&c, Key::Char(' ')), Request::ConfirmAuto);
    assert_eq!(key_request(&c, Key::Char('i')), Request::CleanupIsAutomatic);
    let running = KeyContext { auto: true, ..c };
    assert_eq!(key_request(&running, Key::Char(' ')), Request::TogglePause);
    assert_eq!(key_request(&running, Key::Enter), Request::OpenDetails);
    let offline = KeyContext { connected: false, ..c };
    assert_eq!(key_request(&offline, Key::Enter), Request::ConnectFirst);
    assert_eq!(key_request(&offline, Key::Char(',')), Request::OpenSettings);
    assert_eq!(key_request(&KeyContext { demo: true, ..offline }, Key::Enter), Request::ConfirmAuto);
}

#[test]
fn wheels_only_navigate() {
    assert_eq!(wheel_key(Wheel::Down), Key::Down);
    assert_eq!(wheel_key(Wheel::Up), Key::Up);
    assert_eq!(key_request(&ctx(Mode::Confirm), wheel_key(Wheel::Down)), Request::Nothing);
    assert_eq!(key_request(&ctx(Mode::Help), wheel_key(Wheel::Down)), Request::ScrollBy(1));
}

#[test]
fn pairing_guide_keys() {
    let c = SetupContext { step: Step::Pair, manual: false, connected: false, identified: false, account_error: false, pending: false };
    assert_eq!(setup_request(&c, Key::Char('v')), SetupRequest::ToggleReveal);
    assert_eq!(setup_request(&SetupContext { step: Step::Install, ..c }, Key::Char('v')), SetupRequest::Nothing);
    assert_eq!(setup_request(&c, Key::Char('i')), SetupRequest::OpenInstall);
    assert_eq!(setup_request(&c, Key::Enter), SetupRequest::OpenOptions);
    assert_eq!(setup_request(&SetupContext { step: Step::Install, ..c }, Key::Enter), SetupRequest::OpenInstall);
    assert_eq!(setup_request(&SetupContext { manual: true, ..c }, Key::Enter), SetupRequest::CopySecret);
    let live = SetupContext { connected: true, ..c };
    assert_eq!(setup_request(&live, Key::Char('r')), SetupRequest::CheckAccount);
    assert_eq!(setup_request(&c, Key::Char('r')), SetupRequest::RefreshInstallation);
    assert_eq!(setup_request(&SetupContext { identified: true, ..live }, Key::Enter), SetupRequest::ConfirmAccount);
    assert_eq!(setup_request(&SetupContext { account_error: true, ..live }, Key::Enter), SetupRequest::CheckAccount);
    assert_eq!(setup_request(&SetupContext { pending: true, ..live }, Key::Enter), SetupRequest::Nothing);
    assert_eq!(setup_request(&SetupContext { pending: true, ..live }, Key::Char('b')), SetupRequest::OpenX);
    assert_eq!(setup_request(&live, Key::Left), SetupRequest::GoBack);
    assert_eq!(setup_request(&live, Key::Char('y')), SetupRequest::Nothing);
}
