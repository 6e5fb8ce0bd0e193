use forgive_me::model::{clean, hex, new_id, Account, Policy};

fn candidate() -> Account {
    Account {
        id: "9007199254740993".into(),
        follows_me: Some(true),
        i_follow: Some(false),
        verified: Some(false),
        protected: Some(false),
        posts: Some(4),
        checked_at_ms: Some(20_000_000_000),
        coverage_since_ms: Some(0),
        ..Default::default()
    }
}

#[test]
fn excludes_unknown_mutual_verified_and_kept() {
    let p = Policy::default();
    let mut a = candidate();
    assert!(a.reason(&p, 20_000_000_000).is_ok());
    a.i_follow = None;
    assert!(a.reason(&p, 20_000_000_000).is_err());
    a.i_follow = Some(false);
    a.verified = Some(true);
    assert!(a.reason(&p, 20_000_000_000).is_err());
    a.verified = Some(false);
    a.kept = true;
    assert!(a.reason(&p, 20_000_000_000).is_err());
}

#[test]
fn failed_or_stale_activity_never_qualifies() {
    let p = Policy::default();
    let mut a = candidate();
    a.coverage_since_ms = None;
    assert!(a.reason(&p, 20_000_000_000).is_err());
    a.posts = Some(0);
    assert!(a.reason(&p, 20_000_000_000).is_ok());
    a.checked_at_ms = None;
    assert!(a.reason(&p, 20_000_000_000).is_err());
}

#[test]
fn recent_repost_protects_account() {
    let mut a = candidate();
    a.last_activity_ms = Some(19_999_999_999);
    assert_eq!(
        a.reason(&Policy::default(), 20_000_000_000),
        Err("Recently active")
    );
}

#[test]
fn terminal_controls_are_removed() {
    assert!(!clean("\x1b]52;evil\x07").contains('\x1b'));
}

#[test]
fn unknown_verification_is_inspected_but_never_selected() {
    let p = Policy::default();
    let mut account = candidate();
    account.verified = None;
    assert!(account.basic_candidate(&p));
    assert_eq!(
        account.reason(&p, 20_000_000_000),
        Err("Verification not checked")
    );
}

#[test]
fn default_policy_values() {
    let p = Policy::default();
    assert_eq!(p.inactive_days, 90);
    assert!(p.skip_verified && p.skip_following && p.include_zero_posts);
    assert_eq!(p.delay_seconds, 60);
    assert_eq!(p.batch_limit, 50);
}

#[test]
fn reasons_follow_the_rule_order() {
    let p = Policy::default();
    let now = 20_000_000_000;
    let mut a = candidate();
    assert_eq!(a.reason(&p, now), Ok("Inactive"));
    a.posts = Some(0);
    assert_eq!(a.reason(&p, now), Ok("Zero current posts"));
    a.posts = Some(4);
    a.coverage_since_ms = Some(now - 89 * 86_400_000);
    assert_eq!(a.reason(&p, now), Err("Activity unknown"));
    a.coverage_since_ms = Some(now - 90 * 86_400_000);
    assert_eq!(a.reason(&p, now), Ok("Inactive"));
    a.checked_at_ms = Some(now - 86_400_001);
    assert_eq!(a.reason(&p, now), Err("Activity evidence expired"));
    a.checked_at_ms = Some(now + 60_001);
    assert_eq!(a.reason(&p, now), Err("Activity evidence expired"));
    a.checked_at_ms = Some(now + 60_000);
    assert_eq!(a.reason(&p, now), Ok("Inactive"));
    a.checked_at_ms = None;
    assert_eq!(a.reason(&p, now), Err("Needs activity check"));
    a.protected = None;
    assert_eq!(a.reason(&p, now), Err("Protected / visibility unknown"));
    a.i_follow = Some(true);
    assert_eq!(a.basic_reason(&p), Err("You follow this account"));
    a.i_follow = None;
    assert_eq!(a.basic_reason(&p), Err("Following relationship unknown"));
    a.verified = Some(true);
    assert_eq!(a.basic_reason(&p), Err("Verified"));
    assert!(!a.basic_candidate(&p));
    a.follows_me = None;
    assert_eq!(a.basic_reason(&p), Err("Follower relationship unknown / absent"));
    a.kept = true;
    assert_eq!(a.basic_reason(&p), Err("Kept"));
}

#[test]
fn kept_accounts_are_never_eligible() {
    let mut a = candidate();
    a.kept = true;
    a.posts = Some(0);
    assert_eq!(a.reason(&Policy::default(), 20_000_000_000), Err("Kept"));
}

#[test]
fn reason_survives_extreme_times() {
    let a = candidate();
    assert!(a.reason(&Policy::default(), i64::MAX).is_err());
    assert!(a.reason(&Policy::default(), i64::MIN).is_err());
}

#[test]
fn clean_drops_controls_and_bidi_and_limits_length() {
    assert_eq!(clean("a\u{202e}b\u{2066}c\u{9f}d\u{a0}"), "abcd\u{a0}");
    let long: String = std::iter::repeat('x').take(5000).collect();
    assert_eq!(clean(&long).chars().count(), 4000);
    let once = clean("é\u{7}ok");
    assert_eq!(clean(&once), once);
}

#[test]
fn hex_encodes_lowercase() {
    assert_eq!(hex(&[0x00, 0xab, 0x7f, 0xff]), "00ab7fff");
    let id = new_id().unwrap();
    assert_eq!(id.len(), 64);
    assert!(id.chars().all(|c| c.is_ascii_hexdigit() && !c.is_ascii_uppercase()));
    assert_ne!(new_id().unwrap(), id);
}

#[test]
fn adjust_moves_settings_within_bounds() {
    let mut p = Policy::default();
    p.adjust(0, -1);
    assert_eq!(p.inactive_days, 80);
    p.inactive_days = 5;
    p.adjust(0, -1);
    assert_eq!(p.inactive_days, 1);
    p.inactive_days = 3645;
    p.adjust(0, 1);
    assert_eq!(p.inactive_days, 3650);
    p.adjust(1, 1);
    assert!(!p.skip_verified);
    p.adjust(2, 1);
    assert!(!p.skip_following);
    p.adjust(3, -1);
    assert!(!p.include_zero_posts);
    p.delay_seconds = 5;
    p.adjust(4, -1);
    assert_eq!(p.delay_seconds, 5);
    p.adjust(4, 1);
    assert_eq!(p.delay_seconds, 6);
    p.adjust(5, 1);
    assert_eq!(p.batch_limit, 60);
    p.batch_limit = 495;
    p.adjust(5, 1);
    assert_eq!(p.batch_limit, 500);
    let before = p.clone();
    p.adjust(6, 1);
    assert_eq!(p, before);
}

#[test]
fn now_is_after_2020() {
    assert!(forgive_me::model::now_ms() > 1_577_836_800_000);
}


#[test]
fn recent_activity_overrides_zero_posts() {
    let mut a = candidate();
    a.posts = Some(0);
    a.last_activity_ms = Some(19_999_999_999);
    assert_eq!(a.reason(&Policy::default(), 20_000_000_000), Err("Recently active"));
    a.last_activity_ms = Some(20_000_000_000 - 90 * 86_400_000);
    assert_eq!(a.reason(&Policy::default(), 20_000_000_000), Ok("Zero current posts"));
}
