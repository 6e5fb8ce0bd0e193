use forgive_me::config::Config;
use forgive_me::native::{
    check_pairing_settings, extension_id, frame_length_acceptable, id_from_digest,
    migrate_legacy_pairing, origin_matches, pairs_with_legacy, quote, PairingError,
};

#[test]
fn extension_id_matches_chromium_path_hash() {
    // SHA-256("/tmp/ext") begins 0x0c 0x7e ...; every nibble maps to a..p.
    let id = extension_id("/tmp/ext");
    assert_eq!(id.len(), 32);
    assert!(id.chars().all(|c| ('a'..='p').contains(&c)));
    assert_eq!(
        forgive_me::bridge::valid_origin(&format!("chrome-extension://{id}")),
        Some(id.as_str())
    );
    assert_ne!(extension_id("/tmp/ext"), extension_id("/tmp/ext2"));
}

#[test]
fn digest_letters_take_the_high_nibble_first() {
    let digest: Vec<u8> = (0u8..32).map(|i| i.wrapping_mul(17)).collect();
    // bytes 0x00, 0x11, 0x22, ... encode as "aa", "bb", "cc", ...
    assert_eq!(
        id_from_digest(&digest),
        "aabbccddeeffgghhiijjkkllmmnnoopp"
    );
    assert_eq!(&id_from_digest(&[0x0f, 0xf0, 0, 0, 0, 0, 0, 0, 0, 0, 0, 0, 0, 0, 0, 0])[..4], "appa");
}

#[test]
fn registration_quotes_paths_and_limits_the_chrome_origin() {
    let script = quote("/tmp/bin's app");
    assert!(script.contains("bin'\\''s app'"));
    assert_eq!(quote("/tmp/data $(literal)"), "'/tmp/data $(literal)'");
    assert!(quote("/tmp/data $(literal)").contains("data $(literal)'"));
    assert_eq!(quote(""), "''");
    let id = extension_id("/tmp/extension");
    assert!(origin_matches(&format!("chrome-extension://{id}/"), &id));
}

#[test]
fn native_pipe_requires_exact_origin_and_a_running_tui() {
    let id = extension_id("/tmp/extension");
    let origin = format!("chrome-extension://{id}/");
    assert!(origin_matches(&origin, &id));
    for caller in [
        "https://x.com",
        "chrome-extension://aaaaaaaaaaaaaaaaaaaaaaaaaaaaaaaa/",
        &format!("{origin}extra"),
    ] {
        assert!(!origin_matches(caller, &id));
    }
    let mut settings = Config { token: "a".repeat(64), port: 47831, extension_id: None };
    assert_eq!(check_pairing_settings(&settings, &id), Ok(()));
    settings.extension_id = Some("other".into());
    assert_eq!(
        check_pairing_settings(&settings, &id),
        Err(PairingError::DifferentExtension)
    );
    settings.extension_id = Some(id.clone());
    assert_eq!(check_pairing_settings(&settings, &id), Ok(()));
    settings.port = 80;
    assert_eq!(check_pairing_settings(&settings, &id), Err(PairingError::InvalidSettings));
    settings.port = 1024;
    settings.token = "g".repeat(64);
    assert_eq!(check_pairing_settings(&settings, &id), Err(PairingError::InvalidSettings));
    settings.token = "A".repeat(63);
    assert_eq!(check_pairing_settings(&settings, &id), Err(PairingError::InvalidSettings));
}

#[test]
fn framing_rejects_oversize_input_without_reading_body() {
    assert!(!frame_length_acceptable(u32::MAX));
    assert!(!frame_length_acceptable(0));
    assert!(!frame_length_acceptable(4097));
    assert!(frame_length_acceptable(1));
    assert!(frame_length_acceptable(4096));
}

#[test]
fn renamed_bundle_repairs_only_the_known_old_pairing_once() {
    let old = "/tmp/old";
    let new = extension_id("/tmp/new");
    let mut config = Config {
        token: "0".repeat(64),
        port: 47831,
        extension_id: Some(extension_id(old)),
    };
    let token = config.token.clone();
    assert!(pairs_with_legacy(&config, old));
    assert_eq!(migrate_legacy_pairing(&mut config, old, &new), Ok(true));
    assert_eq!(config.extension_id, Some(new.clone()));
    assert_ne!(config.token, token);
    assert_eq!(config.token.len(), 64);
    assert_eq!(migrate_legacy_pairing(&mut config, old, &new), Ok(false));
    config.extension_id = Some("manual-extension".into());
    let manual = config.token.clone();
    assert_eq!(migrate_legacy_pairing(&mut config, old, &new), Ok(false));
    assert_eq!(config.token, manual);
}

#[test]
fn pairing_errors_read_as_before() {
    assert_eq!(
        PairingError::TuiNotRunning.message(),
        "Start remover in your terminal first"
    );
    assert_eq!(
        PairingError::DifferentExtension.message(),
        "A different extension is paired. Run remover pair --reset with the TUI closed"
    );
}
