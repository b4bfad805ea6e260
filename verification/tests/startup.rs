use kmr_keyblob::init::{apply_log_level, LogLevel};
use kmr_keyblob::startup::{
    boot_completed_from_property, replay_early_boot_ended_later, rpc_peer_allowed,
    should_resolve_module_info_bundle, storage_file_mode, KEYSTORE_UID,
};

#[test]
fn log_level_names_ignore_case_and_white_space() {
    assert_eq!(apply_log_level("info"), LogLevel::Info);
    assert_eq!(apply_log_level("  TRACE\n"), LogLevel::Trace);
    assert_eq!(apply_log_level("wArN"), LogLevel::Warn);
    assert_eq!(apply_log_level("off"), LogLevel::Off);
    assert_eq!(apply_log_level("Error"), LogLevel::Error);
    assert_eq!(log::max_level(), log::LevelFilter::Error);
}

#[test]
fn unknown_log_levels_fall_back_to_debug() {
    assert_eq!(apply_log_level("verbose"), LogLevel::Debug);
    assert_eq!(apply_log_level(""), LogLevel::Debug);
    assert_eq!(apply_log_level("in fo"), LogLevel::Debug);
    assert_eq!(log::max_level(), log::LevelFilter::Debug);
}

#[test]
fn module_info_only_from_android_16() {
    assert!(!should_resolve_module_info_bundle(Some(15)));
    assert!(should_resolve_module_info_bundle(Some(16)));
    assert!(should_resolve_module_info_bundle(Some(17)));
    assert!(should_resolve_module_info_bundle(None));
}

#[test]
fn storage_file_modes() {
    assert_eq!(storage_file_mode("/data/misc/keystore/omk/keybox.xml"), 0o600);
    assert_eq!(storage_file_mode("/data/misc/keystore/omk/config.toml"), 0o660);
    assert_eq!(storage_file_mode("xml"), 0o660);
    assert_eq!(storage_file_mode(".xml"), 0o600);
}

#[test]
fn only_the_keystore_user_may_connect() {
    assert!(rpc_peer_allowed(Some(KEYSTORE_UID)));
    assert!(!rpc_peer_allowed(Some(0)));
    assert!(!rpc_peer_allowed(None));
}

#[test]
fn boot_completed_only_when_property_is_one() {
    assert!(boot_completed_from_property(Some("1")));
    assert!(!boot_completed_from_property(Some("0")));
    assert!(!boot_completed_from_property(Some("11")));
    assert!(!boot_completed_from_property(Some("")));
    assert!(!boot_completed_from_property(None));
    assert!(replay_early_boot_ended_later(false));
    assert!(!replay_early_boot_ended_later(true));
}
