use bozochat::overlay::OverlayCommand;
use bozochat::icon::IconPixels;
use bozochat::settings::{
    centered_origin, config_script, monitors_script, ready_scripts, save_success_script,
    settings_ipc_command, settings_save_command,
};
use bozochat::text::{decimal, parse_u64, strip_prefix, trim};
use bozochat::tray::{status_icon, test_payload, tray_labels};

#[test]
fn settings_page_ready_and_close() {
    assert!(matches!(settings_ipc_command("ready"), Some(OverlayCommand::SettingsReady)));
    assert!(matches!(settings_ipc_command(" close \t"), Some(OverlayCommand::SettingsClose)));
}

#[test]
fn settings_page_save_is_handed_on_trimmed() {
    let body = r#" {"action":"save","config":{"server_url":"ws://x:1"}} "#;
    match settings_ipc_command(body) {
        Some(OverlayCommand::SettingsSave(j)) => {
            assert_eq!(j, r#"{"action":"save","config":{"server_url":"ws://x:1"}}"#)
        }
        other => panic!("unexpected {:?}", other),
    }
}

#[test]
fn settings_page_other_messages_are_ignored() {
    assert!(settings_ipc_command(r#"{"action":"load"}"#).is_none());
    assert!(settings_ipc_command(r#"{"action":1}"#).is_none());
    assert!(settings_ipc_command(r#"["save"]"#).is_none());
    assert!(settings_ipc_command("not json").is_none());
    assert!(settings_ipc_command("READY").is_none());
}

#[test]
fn settings_scripts() {
    assert_eq!(config_script(r#"{"a":true}"#), r#"loadConfig({"a":true})"#);
    assert_eq!(save_success_script(), "onSaveSuccess()");
}

#[test]
fn monitors_script_lists_quoted_names() {
    let names = vec!["Screen \"1\"".to_string(), "DELL".to_string()];
    assert_eq!(monitors_script(&names, 1), r#"loadMonitors(["Screen \"1\"","DELL"], 1)"#);
    assert_eq!(monitors_script(&[], 0), "loadMonitors([], 0)");
    assert_eq!(monitors_script(&names, 120), r#"loadMonitors(["Screen \"1\"","DELL"], 120)"#);
}

#[test]
fn settings_window_is_centred() {
    assert_eq!(centered_origin(1920, 1080, 640, 520), (640, 280));
    assert_eq!(centered_origin(1921, 1081, 640, 520), (640, 280));
    assert_eq!(centered_origin(600, 400, 640, 520), (0, 0));
}

#[test]
fn tray_texts_follow_the_connection() {
    let on = tray_labels(true);
    assert_eq!(on.tooltip, "BozoChat - Connecté");
    assert_eq!(on.status, "BozoChat (Connecté)");
    assert_eq!(on.connect, "Déconnecter");
    let off = tray_labels(false);
    assert_eq!(off.tooltip, "BozoChat - Déconnecté");
    assert_eq!(off.status, "BozoChat (Déconnecté)");
    assert_eq!(off.connect, "Reconnecter");
    assert!(on.connected);
    assert!(!off.connected);
}

#[test]
fn ready_scripts_send_monitors_then_config() {
    let names = vec!["A".to_string(), "B".to_string()];
    let scripts = ready_scripts(&names, 1, r#"{"x":1}"#);
    assert_eq!(scripts, vec![r#"loadMonitors(["A","B"], 1)"#.to_string(), r#"loadConfig({"x":1})"#.to_string()]);
}

#[test]
fn disconnected_icon_is_unchanged() {
    let base = IconPixels { rgba: vec![7u8; 6 * 6 * 4], width: 6, height: 6 };
    let icon = status_icon(&base, false);
    assert_eq!(icon.rgba, base.rgba);
    assert_eq!((icon.width, icon.height), (6, 6));
}

#[test]
fn connected_icon_has_a_green_corner() {
    let base = IconPixels { rgba: vec![7u8; 6 * 6 * 4], width: 6, height: 6 };
    let icon = status_icon(&base, true);
    for y in 0..6usize {
        for x in 0..6usize {
            let at = (y * 6 + x) * 4;
            let expected: [u8; 4] =
                if x >= 4 && y >= 4 { [0x22, 0xc5, 0x5e, 0xff] } else { [7, 7, 7, 7] };
            assert_eq!(&icon.rgba[at..at + 4], &expected, "pixel {} {}", x, y);
        }
    }
}

#[test]
fn tiny_icon_badge_is_one_pixel() {
    let base = IconPixels { rgba: vec![0u8; 2 * 2 * 4], width: 2, height: 2 };
    let icon = status_icon(&base, true);
    assert_eq!(&icon.rgba[0..12], &[0u8; 12]);
    assert_eq!(&icon.rgba[12..16], &[0x22, 0xc5, 0x5e, 0xff]);
}

#[test]
fn test_notification_payload() {
    let p = test_payload();
    assert_eq!(p.sender, "System");
    assert_eq!(p.message, "Test BozoChat !");
    assert!(p.media_type.is_none());
    assert!(p.media_filename.is_none());
    assert!(p.media_data.is_none());
    assert_eq!(p.duration, Some(3000));
}

#[test]
fn trim_matches_std() {
    for s in ["", "  ", " a ", "\t\nhide\r\n", "\u{3000}x\u{a0}", "a b", "\u{200b}x"] {
        assert_eq!(trim(s), s.trim());
    }
}

#[test]
fn parse_u64_matches_std() {
    for s in [
        "", "+", "0", "+0", "007", "42", "-1", "1-", " 1", "1 ", "18446744073709551615",
        "18446744073709551616", "99999999999999999999", "١٢", "+-1", "++1",
    ] {
        assert_eq!(parse_u64(s), s.parse::<u64>().ok(), "input {:?}", s);
    }
}

#[test]
fn decimal_matches_std() {
    for n in [0u64, 7, 10, 99, 100, 4096, u64::MAX] {
        assert_eq!(decimal(n), n.to_string());
    }
}

#[test]
fn strip_prefix_matches_std() {
    for (s, p) in [("set-duration:5", "set-duration:"), ("set", "set-duration:"), ("abc", ""), ("é-x", "é")] {
        assert_eq!(strip_prefix(s, p), s.strip_prefix(p));
    }
}

#[test]
fn only_a_save_action_asks_to_save() {
    let message = String::from("{\"action\":\"save\",\"config\":{}}");
    match settings_save_command(message.clone(), Some(String::from("save"))) {
        Some(OverlayCommand::SettingsSave(j)) => assert_eq!(j, message),
        _ => panic!("a save action asks to save"),
    }
    assert!(settings_save_command(message.clone(), Some(String::from("close"))).is_none());
    assert!(settings_save_command(message.clone(), Some(String::from("Save"))).is_none());
    assert!(settings_save_command(message, None).is_none());
}
