use bozochat::config::{default_duration, server_url, Config, OverlayPosition, PartialConfig};

#[test]
fn default_config_values() {
    let c = Config::default();
    assert_eq!(c.server_url, "ws://localhost:3001");
    assert_eq!(c.user_id, "");
    assert_eq!(c.overlay_position, OverlayPosition::Center);
    assert_eq!(c.default_duration, 5000);
    assert!(!c.auto_start);
    assert_eq!(c.display_monitor, 0);
}

#[test]
fn default_helpers() {
    assert_eq!(server_url(), "ws://localhost:3001");
    assert_eq!(default_duration(), 5000);
    assert_eq!(OverlayPosition::default(), OverlayPosition::Center);
}

#[test]
fn position_names_are_kebab_case() {
    assert_eq!(OverlayPosition::TopLeft.name(), "top-left");
    assert_eq!(OverlayPosition::TopRight.name(), "top-right");
    assert_eq!(OverlayPosition::BottomLeft.name(), "bottom-left");
    assert_eq!(OverlayPosition::BottomRight.name(), "bottom-right");
    assert_eq!(OverlayPosition::Center.name(), "center");
}

#[test]
fn position_names_round_trip() {
    for p in [
        OverlayPosition::TopLeft,
        OverlayPosition::TopRight,
        OverlayPosition::BottomLeft,
        OverlayPosition::BottomRight,
        OverlayPosition::Center,
    ] {
        assert_eq!(OverlayPosition::from_name(&p.name()), Some(p));
    }
}

#[test]
fn unknown_position_names_are_refused() {
    assert_eq!(OverlayPosition::from_name("TopLeft"), None);
    assert_eq!(OverlayPosition::from_name("top_left"), None);
    assert_eq!(OverlayPosition::from_name(""), None);
    assert_eq!(OverlayPosition::from_name(" center"), None);
}

#[test]
fn empty_file_gives_defaults() {
    let p = PartialConfig {
        server_url: None,
        user_id: None,
        overlay_position: None,
        default_duration: None,
        auto_start: None,
        display_monitor: None,
    };
    let c = Config::from_partial(p);
    assert_eq!(c.server_url, "ws://localhost:3001");
    assert_eq!(c.user_id, "");
    assert_eq!(c.overlay_position, OverlayPosition::Center);
    assert_eq!(c.default_duration, 5000);
    assert!(!c.auto_start);
}

#[test]
fn partial_file_keeps_present_fields() {
    let p = PartialConfig {
        server_url: Some("ws://10.0.0.2:3001".to_string()),
        user_id: None,
        overlay_position: Some(OverlayPosition::BottomRight),
        default_duration: None,
        auto_start: Some(true),
        display_monitor: None,
    };
    let c = Config::from_partial(p);
    assert_eq!(c.server_url, "ws://10.0.0.2:3001");
    assert_eq!(c.user_id, "");
    assert_eq!(c.overlay_position, OverlayPosition::BottomRight);
    assert_eq!(c.default_duration, 5000);
    assert!(c.auto_start);
    assert_eq!(c.display_monitor, 0);
}

#[test]
fn complete_file_is_taken_as_is() {
    let p = PartialConfig {
        server_url: Some("ws://host:1".to_string()),
        user_id: Some("alice".to_string()),
        overlay_position: Some(OverlayPosition::TopLeft),
        default_duration: Some(12),
        auto_start: Some(false),
        display_monitor: Some(2),
    };
    let c = Config::from_partial(p);
    assert_eq!(c.server_url, "ws://host:1");
    assert_eq!(c.user_id, "alice");
    assert_eq!(c.overlay_position, OverlayPosition::TopLeft);
    assert_eq!(c.default_duration, 12);
    assert!(!c.auto_start);
    assert_eq!(c.display_monitor, 2);
}
