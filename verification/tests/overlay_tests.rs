use bozochat::config::{Config, OverlayPosition};
use bozochat::overlay::{
    command_for_ws_event, compute_position, menu_choice, monitor_choice, next_generation,
    notification_script, overlay_ipc_command, position_fits_screen, timer_may_hide, MenuChoice,
    OverlayAction, OverlayCommand, OverlayCore, SaveOutcome,
};
use bozochat::tray::MenuIds;
use bozochat::websocket::{NotificationPayload, WsEvent};

fn payload(duration: Option<u64>) -> NotificationPayload {
    NotificationPayload {
        sender: "ann".to_string(),
        message: "look".to_string(),
        media_type: None,
        media_filename: None,
        media_data: None,
        duration,
    }
}

fn ids() -> MenuIds {
    MenuIds {
        settings: "1".to_string(),
        connect_toggle: "2".to_string(),
        test: "3".to_string(),
        quit: "4".to_string(),
    }
}

#[test]
fn corners_keep_a_margin_of_forty() {
    assert_eq!(compute_position(&OverlayPosition::TopLeft, 1920, 1080), (40, 40));
    assert_eq!(compute_position(&OverlayPosition::TopRight, 1920, 1080), (1080, 40));
    assert_eq!(compute_position(&OverlayPosition::BottomLeft, 1920, 1080), (40, 440));
    assert_eq!(compute_position(&OverlayPosition::BottomRight, 1920, 1080), (1080, 440));
}

#[test]
fn center_is_centred() {
    assert_eq!(compute_position(&OverlayPosition::Center, 1920, 1080), (560, 240));
    assert_eq!(compute_position(&OverlayPosition::Center, 1280, 720), (240, 60));
}

#[test]
fn center_on_a_small_screen_rounds_toward_zero() {
    assert_eq!(compute_position(&OverlayPosition::Center, 799, 597), (0, -1));
    assert_eq!(compute_position(&OverlayPosition::Center, 0, 0), (-400, -300));
}

#[test]
fn only_the_last_timer_hides() {
    let first = next_generation(0);
    assert_eq!(first, 1);
    assert!(timer_may_hide(first, first));
    let second = next_generation(first);
    assert!(!timer_may_hide(second, first));
    assert!(timer_may_hide(second, second));
}

#[test]
fn generation_wraps_around() {
    assert_eq!(next_generation(u64::MAX), 0);
}

#[test]
fn notifications_use_their_own_duration_first() {
    match command_for_ws_event(Some(WsEvent::Notification(payload(Some(1234)))), 5000) {
        OverlayCommand::Show(p, d) => {
            assert_eq!(d, 1234);
            assert_eq!(p.sender, "ann");
        }
        other => panic!("unexpected {:?}", other),
    }
    match command_for_ws_event(Some(WsEvent::Notification(payload(None))), 5000) {
        OverlayCommand::Show(_, d) => assert_eq!(d, 5000),
        other => panic!("unexpected {:?}", other),
    }
}

#[test]
fn connection_events_update_the_tray_and_end_quits() {
    assert!(matches!(
        command_for_ws_event(Some(WsEvent::Connected), 5000),
        OverlayCommand::ConnectionStatus(true)
    ));
    assert!(matches!(
        command_for_ws_event(Some(WsEvent::Disconnected), 5000),
        OverlayCommand::ConnectionStatus(false)
    ));
    assert!(matches!(command_for_ws_event(None, 5000), OverlayCommand::Quit));
}

#[test]
fn overlay_page_hide() {
    assert!(matches!(overlay_ipc_command("hide"), Some(OverlayCommand::Hide)));
    assert!(matches!(overlay_ipc_command("  hide\n"), Some(OverlayCommand::Hide)));
    assert!(overlay_ipc_command("HIDE").is_none());
}

#[test]
fn overlay_page_set_duration() {
    assert!(matches!(
        overlay_ipc_command("set-duration:15000"),
        Some(OverlayCommand::SetDuration(15000))
    ));
    assert!(matches!(
        overlay_ipc_command(" set-duration:+7 "),
        Some(OverlayCommand::SetDuration(7))
    ));
    assert!(matches!(
        overlay_ipc_command("set-duration:18446744073709551615"),
        Some(OverlayCommand::SetDuration(u64::MAX))
    ));
}

#[test]
fn overlay_page_bad_durations_are_ignored() {
    assert!(overlay_ipc_command("set-duration:").is_none());
    assert!(overlay_ipc_command("set-duration:-1").is_none());
    assert!(overlay_ipc_command("set-duration:12.5").is_none());
    assert!(overlay_ipc_command("set-duration:18446744073709551616").is_none());
    assert!(overlay_ipc_command("set-duration: 5").is_none());
    assert!(overlay_ipc_command("something else").is_none());
}

#[test]
fn notification_script_frames_the_payload() {
    assert_eq!(notification_script(r#"{"a":1}"#), r#"showNotification({"a":1})"#);
}

#[test]
fn menu_items_are_recognised() {
    assert_eq!(menu_choice(&ids(), "4"), MenuChoice::Quit);
    assert_eq!(menu_choice(&ids(), "3"), MenuChoice::TestNotification);
    assert_eq!(menu_choice(&ids(), "1"), MenuChoice::OpenSettings);
    assert_eq!(menu_choice(&ids(), "2"), MenuChoice::ToggleConnection);
    assert_eq!(menu_choice(&ids(), "9"), MenuChoice::Unknown);
}

#[test]
fn show_uses_the_configured_position() {
    let mut config = Config::default();
    config.overlay_position = OverlayPosition::TopRight;
    config.display_monitor = 1;
    let mut core = OverlayCore::new(config);
    match core.handle(OverlayCommand::Show(payload(None), 777)) {
        OverlayAction::Show { payload, duration_ms, position, monitor } => {
            assert_eq!(payload.sender, "ann");
            assert_eq!(duration_ms, 777);
            assert_eq!(position, OverlayPosition::TopRight);
            assert_eq!(monitor, 1);
        }
        other => panic!("unexpected {:?}", other),
    }
}

#[test]
fn simple_commands() {
    let mut core = OverlayCore::new(Config::default());
    assert!(matches!(core.handle(OverlayCommand::Hide), OverlayAction::Hide));
    assert!(matches!(core.handle(OverlayCommand::Quit), OverlayAction::Exit));
    assert!(matches!(
        core.handle(OverlayCommand::SetDuration(42)),
        OverlayAction::RestartHideTimer(42)
    ));
    match core.handle(OverlayCommand::SettingsSave("{}".to_string())) {
        OverlayAction::SaveSettings(j) => assert_eq!(j, "{}"),
        other => panic!("unexpected {:?}", other),
    }
}

#[test]
fn tray_updates_wait_for_the_tray() {
    let mut core = OverlayCore::new(Config::default());
    assert!(matches!(core.handle(OverlayCommand::ConnectionStatus(true)), OverlayAction::Nothing));
    core.tray_ready(ids());
    match core.handle(OverlayCommand::ConnectionStatus(true)) {
        OverlayAction::UpdateTray(l) => {
            assert_eq!(l.tooltip, "BozoChat - Connecté");
            assert_eq!(l.status, "BozoChat (Connecté)");
            assert_eq!(l.connect, "Déconnecter");
            assert!(l.connected);
        }
        other => panic!("unexpected {:?}", other),
    }
}

#[test]
fn menu_clicks() {
    let mut core = OverlayCore::new(Config::default());
    assert!(matches!(
        core.handle(OverlayCommand::MenuAction("4".to_string())),
        OverlayAction::Nothing
    ));
    core.tray_ready(ids());
    assert!(matches!(core.handle(OverlayCommand::MenuAction("4".to_string())), OverlayAction::Exit));
    assert!(matches!(
        core.handle(OverlayCommand::MenuAction("1".to_string())),
        OverlayAction::Post(OverlayCommand::OpenSettings)
    ));
    assert!(matches!(
        core.handle(OverlayCommand::MenuAction("2".to_string())),
        OverlayAction::Nothing
    ));
    match core.handle(OverlayCommand::MenuAction("3".to_string())) {
        OverlayAction::Show { payload, duration_ms, position, monitor } => {
            assert_eq!(payload.sender, "System");
            assert_eq!(payload.message, "Test BozoChat !");
            assert_eq!(payload.duration, Some(3000));
            assert_eq!(duration_ms, 3000);
            assert_eq!(position, OverlayPosition::Center);
            assert_eq!(monitor, 0);
        }
        other => panic!("unexpected {:?}", other),
    }
}

#[test]
fn settings_window_is_a_singleton() {
    let mut core = OverlayCore::new(Config::default());
    assert!(matches!(core.handle(OverlayCommand::SettingsReady), OverlayAction::Nothing));
    assert!(matches!(core.handle(OverlayCommand::OpenSettings), OverlayAction::OpenSettings));
    core.settings_opened(true);
    assert!(core.settings_open());
    assert!(matches!(core.handle(OverlayCommand::OpenSettings), OverlayAction::FocusSettings));
    assert!(matches!(
        core.handle(OverlayCommand::SettingsReady),
        OverlayAction::FillSettings { selected_monitor: 0 }
    ));
    assert!(matches!(core.handle(OverlayCommand::SettingsClose), OverlayAction::CloseSettings));
    assert!(!core.settings_open());
    assert!(matches!(core.handle(OverlayCommand::OpenSettings), OverlayAction::OpenSettings));
}

#[test]
fn failed_settings_window_can_be_asked_again() {
    let mut core = OverlayCore::new(Config::default());
    assert!(matches!(core.handle(OverlayCommand::OpenSettings), OverlayAction::OpenSettings));
    core.settings_opened(false);
    assert!(matches!(core.handle(OverlayCommand::OpenSettings), OverlayAction::OpenSettings));
}

#[test]
fn closing_a_window() {
    let mut core = OverlayCore::new(Config::default());
    core.settings_opened(true);
    assert!(matches!(core.close_requested(true), OverlayAction::CloseSettings));
    assert!(!core.settings_open());
    assert!(matches!(core.close_requested(false), OverlayAction::Exit));
}

#[test]
fn config_changes_only_on_a_successful_save() {
    let mut core = OverlayCore::new(Config::default());
    core.settings_opened(true);
    for failure in [
        SaveOutcome::InvalidJson,
        SaveOutcome::MissingConfig,
        SaveOutcome::InvalidConfig,
        SaveOutcome::NotWritten,
    ] {
        assert!(!core.apply_save(failure));
        assert_eq!(core.config().server_url, "ws://localhost:3001");
    }
    let mut new_config = Config::default();
    new_config.server_url = "ws://10.1.1.1:3001".to_string();
    assert!(core.apply_save(SaveOutcome::Saved(new_config)));
    assert_eq!(core.config().server_url, "ws://10.1.1.1:3001");
}

#[test]
fn save_without_settings_window_does_not_notify() {
    let mut core = OverlayCore::new(Config::default());
    let mut new_config = Config::default();
    new_config.default_duration = 9000;
    assert!(!core.apply_save(SaveOutcome::Saved(new_config)));
    assert_eq!(core.config().default_duration, 9000);
}

#[test]
fn ready_fills_monitors_for_the_configured_screen() {
    let mut config = Config::default();
    config.display_monitor = 2;
    let mut core = OverlayCore::new(config);
    core.settings_opened(true);
    assert!(matches!(
        core.handle(OverlayCommand::SettingsReady),
        OverlayAction::FillSettings { selected_monitor: 2 }
    ));
}

#[test]
fn monitor_choice_falls_back_when_missing() {
    assert_eq!(monitor_choice(0, 2), Some(0));
    assert_eq!(monitor_choice(1, 2), Some(1));
    assert_eq!(monitor_choice(2, 2), None);
    assert_eq!(monitor_choice(0, 0), None);
}

#[test]
fn position_fit_tests_only_the_subtracting_positions() {
    assert!(position_fits_screen(&OverlayPosition::TopLeft, i32::MIN, i32::MIN));
    assert!(!position_fits_screen(&OverlayPosition::TopRight, i32::MIN, 0));
    assert!(position_fits_screen(&OverlayPosition::TopRight, 0, i32::MIN));
    assert!(!position_fits_screen(&OverlayPosition::BottomLeft, 0, i32::MIN));
    assert!(!position_fits_screen(&OverlayPosition::Center, i32::MIN + 799, 0));
    assert!(position_fits_screen(&OverlayPosition::Center, i32::MIN + 800, i32::MIN + 600));
    assert!(position_fits_screen(&OverlayPosition::BottomRight, 1920, 1080));
}
