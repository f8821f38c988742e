//! Command validation, normalization and delay selection.

use qutebrowser_agent::errors::AgentError;
use qutebrowser_agent::qutebrowser::{
    command_delay_ms, normalize_command, validate_command, QutebrowserManager,
};

#[test]
fn commands_without_prefix_are_rejected() {
    assert!(validate_command("hint").is_err());
    assert!(validate_command("").is_err());
    assert!(validate_command("open https://example.com").is_err());
    match validate_command("hint") {
        Err(AgentError::Validation { command }) => assert_eq!(command, "hint"),
        other => panic!("unexpected: {:?}", other),
    }
}

#[test]
fn commands_with_prefix_are_accepted_whatever_follows() {
    assert!(validate_command(":hint").is_ok());
    assert!(validate_command(":").is_ok());
    assert!(validate_command(":anything at all, even spaces").is_ok());
    assert!(validate_command("::double").is_ok());
}

#[test]
fn navigation_commands_wait_longer() {
    assert_eq!(command_delay_ms(":open https://example.com"), 3000);
    assert_eq!(command_delay_ms(":back"), 3000);
    assert_eq!(command_delay_ms(":reload"), 3000);
    assert_eq!(command_delay_ms(":hint"), 1000);
    assert_eq!(command_delay_ms(":fake-key <Return>"), 1000);
    assert_eq!(command_delay_ms(":scroll-page 0 1"), 1000);
}

#[test]
fn normalize_collapses_leading_colons() {
    assert_eq!(normalize_command(":open x"), ":open x");
    assert_eq!(normalize_command(":::open x"), ":open x");
    assert_eq!(normalize_command("open x"), ":open x");
    assert_eq!(normalize_command(":"), ":");
}

#[test]
fn manager_base_dir_by_platform() {
    let mac = QutebrowserManager::new(true, false, Some(String::from("/Users/me")));
    assert_eq!(mac.base_dir, "/Users/me/.config/qutebrowser");
    let mac_no_home = QutebrowserManager::new(true, false, None);
    assert_eq!(mac_no_home.base_dir, "/Users/$(whoami)/.config/qutebrowser");
    let linux = QutebrowserManager::new(false, true, None);
    assert_eq!(linux.base_dir, "/config/.config/qutebrowser");
}

#[test]
fn manager_launch_invocation() {
    let linux = QutebrowserManager::new(false, true, None);
    assert_eq!(
        linux.launch_args(),
        vec!["--basedir", "/config/.config/qutebrowser", "--untrusted-args"]
    );
    assert_eq!(
        linux.launch_env(None),
        vec![
            (String::from("DISPLAY"), String::from(":1")),
            (String::from("XDG_RUNTIME_DIR"), String::from("/tmp/runtime-root")),
        ]
    );
    assert_eq!(linux.launch_current_dir(), Some(String::from("/config")));

    let host = QutebrowserManager::new(false, false, None);
    assert_eq!(host.launch_env(Some(String::from(":0"))), vec![(
        String::from("DISPLAY"),
        String::from(":0")
    )]);
    assert_eq!(host.launch_env(None), vec![]);
    assert_eq!(host.launch_current_dir(), None);

    let mac = QutebrowserManager::new(true, false, None);
    assert!(mac.launch_args().is_empty());
    assert!(mac.launch_env(Some(String::from(":0"))).is_empty());
}

#[test]
fn manager_screenshot_invocation() {
    let mac = QutebrowserManager::new(true, false, None);
    let (prog, args) = mac.screenshot_invocation();
    assert_eq!(prog, "screencapture");
    assert_eq!(args, vec!["-x", "/tmp/screenshot.png"]);
    let linux = QutebrowserManager::new(false, false, None);
    let (prog, args) = linux.screenshot_invocation();
    assert_eq!(prog, "scrot");
    assert_eq!(args, vec!["-z", "/tmp/screenshot.png"]);
    assert_eq!(linux.screenshot_temp_path(), "/tmp/screenshot.png");
}
