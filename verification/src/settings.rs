//! The settings window: the messages of its page, the scripts that feed the
//! page, and where the window is placed.
//!
//! The page says `ready` once loaded, then receives the configuration; it
//! sends `{"action": "save", "config": {...}}` to save, and `close` to close.
use vstd::prelude::*;

use crate::json::{json_member_str, json_text_of_strs, member_str, quote_all};
use crate::overlay::OverlayCommand;
use crate::text::{decimal, decimal_text, trim, trimmed};

verus! {

/// The inner width of the settings window, in logical pixels.
pub const SETTINGS_WIDTH: u32 = 640;

/// The inner height of the settings window, in logical pixels.
pub const SETTINGS_HEIGHT: u32 = 520;

/// Reads a message of the settings page, once the surrounding white space is
/// removed: `ready`, `close`, or a JSON object whose `action` member is the
/// string `save`, which is handed on whole. Any other message asks for nothing.
pub fn settings_ipc_command(body: &str) -> (c: Option<OverlayCommand>)
    ensures
        trimmed(body@) == "ready"@ ==> c == Some(OverlayCommand::SettingsReady),
        trimmed(body@) != "ready"@ && trimmed(body@) == "close"@ ==> c == Some(
            OverlayCommand::SettingsClose,
        ),
        trimmed(body@) != "ready"@ && trimmed(body@) != "close"@ ==> (if json_member_str(
            trimmed(body@),
            "action"@,
        ) == Some("save"@) {
            c matches Some(OverlayCommand::SettingsSave(j)) && j@ == trimmed(body@)
        } else {
            c is None
        }),
{
    let t = trim(body);
    let text = String::from_str(t);
    if text == String::from_str("ready") {
        return Some(OverlayCommand::SettingsReady);
    }
    if text == String::from_str("close") {
        return Some(OverlayCommand::SettingsClose);
    }
    let action = member_str(t, "action");
    settings_save_command(text, action)
}

/// What a JSON message of the settings page asks for, given the string value
/// of its `action` member (`None` when it has none, or the message is not a
/// JSON object): saving, with the whole message handed on, when that value is
/// `save`; nothing otherwise.
pub fn settings_save_command(message: String, action: Option<String>) -> (c: Option<
    OverlayCommand,
>)
    ensures
        (action matches Some(a) && a@ == "save"@) ==> (c matches Some(
            OverlayCommand::SettingsSave(j),
        ) && j@ == message@),
        !(action matches Some(a) && a@ == "save"@) ==> c is None,
{
    match action {
        Some(a) => {
            if a == String::from_str("save") {
                Some(OverlayCommand::SettingsSave(message))
            } else {
                None
            }
        },
        None => None,
    }
}

/// The script that hands the configuration, serialised as `config_json`, to the settings page.
pub fn config_script(config_json: &str) -> (s: String)
    ensures
        s@ == "loadConfig("@ + config_json@ + ")"@,
{
    let mut s = String::from_str("loadConfig(");
    s.append(config_json);
    s.append(")");
    s
}

/// The script that hands the list of monitors and the one selected to the settings page.
pub fn monitors_script(names: &[String], selected: usize) -> (s: String)
    ensures
        s@ == "loadMonitors("@ + json_text_of_strs(names.deep_view()) + ", "@ + decimal_text(
            selected as nat,
        ) + ")"@,
{
    let mut s = String::from_str("loadMonitors(");
    match quote_all(names) {
        Ok(list) => s.append(list.as_str()),
        Err(_) => s.append("[]"),
    }
    s.append(", ");
    let n = decimal(selected as u64);
    s.append(n.as_str());
    s.append(")");
    s
}

/// The scripts that fill the settings page once it is ready, in the order
/// they run: first the list of monitors with `selected` selected, then the
/// configuration, serialised as `config_json`.
pub fn ready_scripts(names: &[String], selected: usize, config_json: &str) -> (s: Vec<String>)
    ensures
        s@.len() == 2,
        s@[0]@ == "loadMonitors("@ + json_text_of_strs(names.deep_view()) + ", "@ + decimal_text(
            selected as nat,
        ) + ")"@,
        s@[1]@ == "loadConfig("@ + config_json@ + ")"@,
{
    let mut s = Vec::new();
    s.push(monitors_script(names, selected));
    s.push(config_script(config_json));
    s
}

/// The script that tells the settings page that the configuration was saved.
pub fn save_success_script() -> (s: String)
    ensures
        s@ == "onSaveSuccess()"@,
{
    String::from_str("onSaveSuccess()")
}

/// Where to put a window of `win_w` by `win_h` pixels to centre it on a screen
/// of `screen_w` by `screen_h` pixels; a window larger than the screen goes to
/// its edge.
pub fn centered_origin(screen_w: u32, screen_h: u32, win_w: u32, win_h: u32) -> (xy: (i32, i32))
    ensures
        xy.0 == (if screen_w >= win_w {
            (screen_w - win_w) / 2
        } else {
            0
        }),
        xy.1 == (if screen_h >= win_h {
            (screen_h - win_h) / 2
        } else {
            0
        }),
{
    let x: u32 = screen_w.saturating_sub(win_w) / 2;
    let y: u32 = screen_h.saturating_sub(win_h) / 2;
    (x as i32, y as i32)
}

} // verus!
