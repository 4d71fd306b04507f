//! The overlay: the commands that drive it, where it is placed, the auto-hide
//! timer, the messages of its page, and the decisions of the application
//! loop.
//!
//! The window, the web view and the tray live in the application; this
//! module decides what they do.
use vstd::prelude::*;

use crate::config::{Config, OverlayPosition};
use crate::text::{
    decimal_text, has_prefix, is_white_space, lemma_decimal_text_reads_back, parse_u64, parsed_u64,
    strip_prefix, trim, trim_end, trim_start, trimmed,
};
use crate::tray::{
    connect_text, status_text, test_payload, tooltip_text, tray_labels, MenuIds, TrayLabels,
};
use crate::websocket::{NotificationPayload, WsEvent};

verus! {

/// The width of the overlay window, in logical pixels.
pub const WINDOW_WIDTH: u32 = 800;

/// The height of the overlay window, in logical pixels.
pub const WINDOW_HEIGHT: u32 = 600;

/// The distance between the overlay and the edges of the screen, in logical pixels.
pub const MARGIN: i32 = 40;

/// `x / 2` rounded toward zero, as integer division of Rust rounds.
pub open spec fn half(x: int) -> int {
    if x >= 0 {
        x / 2
    } else {
        -((-x) / 2)
    }
}

/// Whether the arithmetic of `compute_position` for `position` stays within `i32`.
pub open spec fn position_fits(position: OverlayPosition, sw: int, sh: int) -> bool {
    match position {
        OverlayPosition::TopLeft => true,
        OverlayPosition::TopRight => sw - 840 >= i32::MIN,
        OverlayPosition::BottomLeft => sh - 640 >= i32::MIN,
        OverlayPosition::BottomRight => sw - 840 >= i32::MIN && sh - 640 >= i32::MIN,
        OverlayPosition::Center => sw - 800 >= i32::MIN && sh - 600 >= i32::MIN,
    }
}

/// Whether `compute_position` can place the overlay at `position` on a screen
/// of `sw` by `sh` logical pixels without leaving `i32`.
pub fn position_fits_screen(position: &OverlayPosition, sw: i32, sh: i32) -> (b: bool)
    ensures
        b == position_fits(*position, sw as int, sh as int),
{
    let right_ok: bool = sw >= i32::MIN + 840;
    let bottom_ok: bool = sh >= i32::MIN + 640;
    match position {
        OverlayPosition::TopLeft => true,
        OverlayPosition::TopRight => right_ok,
        OverlayPosition::BottomLeft => bottom_ok,
        OverlayPosition::BottomRight => right_ok && bottom_ok,
        OverlayPosition::Center => sw >= i32::MIN + 800 && sh >= i32::MIN + 600,
    }
}

/// The top-left corner of the overlay for a screen of `sw` by `sh` logical pixels.
pub open spec fn overlay_origin(position: OverlayPosition, sw: int, sh: int) -> (int, int) {
    match position {
        OverlayPosition::TopLeft => (40, 40),
        OverlayPosition::TopRight => (sw - 800 - 40, 40),
        OverlayPosition::BottomLeft => (40, sh - 600 - 40),
        OverlayPosition::BottomRight => (sw - 800 - 40, sh - 600 - 40),
        OverlayPosition::Center => (half(sw - 800), half(sh - 600)),
    }
}

/// Whether a window of `size` at `start` is centred on a screen of `screen`:
/// the space left over is split in two, and when it is odd (or the window does
/// not fit) the start is rounded toward the screen's edge at 0, as Rust's
/// integer division rounds toward zero.
pub open spec fn centred_in(start: int, size: int, screen: int) -> bool {
    let spare = screen - size;
    &&& spare >= 0 ==> 0 <= spare - 2 * start <= 1
    &&& spare < 0 ==> -1 <= spare - 2 * start <= 0
}

/// Where the overlay goes on a screen of `sw` by `sh` logical pixels: at the
/// left corners its left edge is `MARGIN` from the screen's left edge, at the
/// right corners its right edge is `MARGIN` from the screen's right edge; at
/// the top corners its top edge is `MARGIN` below the top, at the bottom
/// corners its bottom edge is `MARGIN` above the bottom; in the centre it is
/// centred both ways. The horizontal place depends on the width of the screen
/// alone and the vertical place on its height alone.
pub proof fn lemma_overlay_origin_places(position: OverlayPosition, sw: int, sh: int)
    ensures
        (position is TopLeft || position is BottomLeft) ==> overlay_origin(position, sw, sh).0
            == MARGIN,
        (position is TopRight || position is BottomRight) ==> overlay_origin(position, sw, sh).0
            + WINDOW_WIDTH + MARGIN == sw,
        (position is TopLeft || position is TopRight) ==> overlay_origin(position, sw, sh).1
            == MARGIN,
        (position is BottomLeft || position is BottomRight) ==> overlay_origin(position, sw, sh).1
            + WINDOW_HEIGHT + MARGIN == sh,
        position is Center ==> centred_in(overlay_origin(position, sw, sh).0, WINDOW_WIDTH as int, sw)
            && centred_in(overlay_origin(position, sw, sh).1, WINDOW_HEIGHT as int, sh),
        forall|sw2: int, sh2: int|
            #![trigger overlay_origin(position, sw2, sh2)]
            overlay_origin(position, sw2, sh).0 == overlay_origin(position, sw2, sh2).0
                && overlay_origin(position, sw, sh2).1 == overlay_origin(position, sw2, sh2).1,
{
}

/// Where to put the overlay, in logical pixels, on a screen of `sw` by `sh`
/// logical pixels: 40 pixels from the chosen corner, or centred.
pub fn compute_position(position: &OverlayPosition, sw: i32, sh: i32) -> (xy: (i32, i32))
    requires
        position_fits(*position, sw as int, sh as int),
    ensures
        (xy.0 as int, xy.1 as int) == overlay_origin(*position, sw as int, sh as int),
        (*position is TopLeft || *position is BottomLeft) ==> xy.0 == MARGIN,
        (*position is TopRight || *position is BottomRight) ==> xy.0 + WINDOW_WIDTH + MARGIN == sw,
        (*position is TopLeft || *position is TopRight) ==> xy.1 == MARGIN,
        (*position is BottomLeft || *position is BottomRight) ==> xy.1 + WINDOW_HEIGHT + MARGIN
            == sh,
        *position is Center ==> centred_in(xy.0 as int, WINDOW_WIDTH as int, sw as int)
            && centred_in(xy.1 as int, WINDOW_HEIGHT as int, sh as int),
{
    proof {
        lemma_overlay_origin_places(*position, sw as int, sh as int);
    }
    let ww: i32 = WINDOW_WIDTH as i32;
    let wh: i32 = WINDOW_HEIGHT as i32;
    match position {
        OverlayPosition::TopLeft => (MARGIN, MARGIN),
        OverlayPosition::TopRight => (sw - ww - MARGIN, MARGIN),
        OverlayPosition::BottomLeft => (MARGIN, sh - wh - MARGIN),
        OverlayPosition::BottomRight => (sw - ww - MARGIN, sh - wh - MARGIN),
        OverlayPosition::Center => ((sw - ww) / 2, (sh - wh) / 2),
    }
}

/// The generation that `n` starts of the auto-hide timer leave after `g`
/// (the counter wraps around).
pub open spec fn generation_after(g: u64, n: nat) -> u64 {
    ((g + n) % 0x1_0000_0000_0000_0000) as u64
}

/// The generation of a new auto-hide timer, after the generation `g` of the
/// last one: starting a timer cancels every earlier one.
pub fn next_generation(g: u64) -> (n: u64)
    ensures
        n == generation_after(g, 1),
{
    g.wrapping_add(1)
}

/// Whether the timer of generation `token`, when it expires while the current
/// generation is `current`, hides the overlay: only the last timer started does.
pub fn timer_may_hide(current: u64, token: u64) -> (b: bool)
    ensures
        b == (current == token),
{
    current == token
}

/// Of all the auto-hide timers started, only the last one hides the overlay.
/// A timer started after generation `g` holds the token `generation_after(g, 1)`,
/// which is the current generation until another timer starts; once between
/// one and `u64::MAX` more timers have started, its token is no longer current.
pub proof fn lemma_only_last_timer_hides(g: u64, n: nat)
    requires
        1 <= n < 0x1_0000_0000_0000_0000,
    ensures
        generation_after(generation_after(g, 1), n) != generation_after(g, 1),
{
    let t: u64 = generation_after(g, 1);
    if t + n < 0x1_0000_0000_0000_0000 {
        assert((t + n) % 0x1_0000_0000_0000_0000 == t + n);
    } else {
        assert((t + n) % 0x1_0000_0000_0000_0000 == t + n - 0x1_0000_0000_0000_0000);
    }
}

/// What the overlay is told to do: by the connection, by the tray, or by the
/// pages of its windows.
#[derive(Debug, Clone)]
pub enum OverlayCommand {
    /// Show a notification for this many milliseconds.
    Show(NotificationPayload, u64),
    /// Hide at once.
    Hide,
    /// Quit the application.
    Quit,
    /// The connection is up or down (for the tray).
    ConnectionStatus(bool),
    /// A click on the tray menu item with this identifier.
    MenuAction(String),
    /// Open the settings window (double click on the tray icon, or the menu).
    OpenSettings,
    /// The page of the settings window has loaded.
    SettingsReady,
    /// The page of the settings window sends a configuration to save (raw JSON).
    SettingsSave(String),
    /// Close the settings window.
    SettingsClose,
    /// A video has loaded: its length replaces the duration of the auto-hide timer.
    SetDuration(u64),
}

/// The command that an event of the connection turns into; `None` means that
/// the connection is over for good. A notification stays on screen for its own
/// duration when it has one, and for the configured default otherwise.
pub fn command_for_ws_event(event: Option<WsEvent>, default_duration: u64) -> (c: OverlayCommand)
    ensures
        event matches Some(WsEvent::Notification(p)) ==> c == OverlayCommand::Show(
            p,
            match p.duration {
                Some(d) => d,
                None => default_duration,
            },
        ),
        event matches Some(WsEvent::Connected) ==> c == OverlayCommand::ConnectionStatus(true),
        event matches Some(WsEvent::Disconnected) ==> c == OverlayCommand::ConnectionStatus(false),
        event is None ==> c is Quit,
{
    match event {
        Some(WsEvent::Notification(p)) => {
            let d = match p.duration {
                Some(d) => d,
                None => default_duration,
            };
            OverlayCommand::Show(p, d)
        },
        Some(WsEvent::Connected) => OverlayCommand::ConnectionStatus(true),
        Some(WsEvent::Disconnected) => OverlayCommand::ConnectionStatus(false),
        None => OverlayCommand::Quit,
    }
}

/// The message prefix by which the overlay page gives the length of a video.
pub open spec fn set_duration_prefix() -> Seq<char> {
    "set-duration:"@
}

/// The command that a message of the overlay page asks for: `hide`, or
/// `set-duration:` followed by a number of milliseconds, once the surrounding
/// white space is removed. Any other message asks for nothing.
pub open spec fn overlay_request(body: Seq<char>) -> Option<OverlayCommand> {
    let t = trimmed(body);
    if t == "hide"@ {
        Some(OverlayCommand::Hide)
    } else if has_prefix(t, set_duration_prefix()) {
        match parsed_u64(t.subrange(set_duration_prefix().len() as int, t.len() as int)) {
            Some(ms) => Some(OverlayCommand::SetDuration(ms)),
            None => None,
        }
    } else {
        None
    }
}

/// A video's length reaches the timer whole: for every number of milliseconds
/// `v`, the message `set-duration:` followed by the decimal writing of `v`
/// asks for a timer of exactly `v` milliseconds.
pub proof fn lemma_set_duration_reads_back(v: u64)
    ensures
        overlay_request("set-duration:"@ + decimal_text(v as nat)) == Some(
            OverlayCommand::SetDuration(v),
        ),
{
    reveal_strlit("set-duration:");
    reveal_strlit("hide");
    let digits = decimal_text(v as nat);
    lemma_decimal_text_reads_back(v as nat);
    let m = "set-duration:"@ + digits;
    assert(m[0] == 's');
    assert(!is_white_space(m[0]));
    assert(trim_start(m) == m);
    assert(m.last() == digits.last());
    assert(is_digit_char_not_space(digits.last())) by {
        assert(digits.last() == digits[digits.len() - 1]);
    }
    assert(trim_end(m) == m);
    assert(trimmed(m) == m);
    assert(m.len() > 4);
    assert(m != "hide"@);
    assert(m.subrange(0, 13) =~= set_duration_prefix());
    assert(m.subrange(13, m.len() as int) =~= digits);
}

/// A decimal digit is no white space.
spec fn is_digit_char_not_space(c: char) -> bool {
    '0' <= c <= '9' ==> !is_white_space(c)
}

/// Reads a message of the overlay page.
pub fn overlay_ipc_command(body: &str) -> (c: Option<OverlayCommand>)
    ensures
        c == overlay_request(body@),
        forall|v: u64|
            body@ == "set-duration:"@ + #[trigger] decimal_text(v as nat) ==> c == Some(
                OverlayCommand::SetDuration(v),
            ),
{
    proof {
        assert forall|v: u64|
            body@ == "set-duration:"@ + #[trigger] decimal_text(v as nat) implies overlay_request(
                body@,
            ) == Some(OverlayCommand::SetDuration(v)) by {
            lemma_set_duration_reads_back(v);
        }
    }
    let t = trim(body);
    if String::from_str(t) == String::from_str("hide") {
        return Some(OverlayCommand::Hide);
    }
    match strip_prefix(t, "set-duration:") {
        Some(rest) => match parse_u64(rest) {
            Some(ms) => Some(OverlayCommand::SetDuration(ms)),
            None => None,
        },
        None => None,
    }
}

/// The script that hands a notification, serialised as `payload_json`, to the overlay page.
pub fn notification_script(payload_json: &str) -> (s: String)
    ensures
        s@ == "showNotification("@ + payload_json@ + ")"@,
{
    let mut s = String::from_str("showNotification(");
    s.append(payload_json);
    s.append(")");
    s
}

/// The monitor that shows the overlay, out of the `count` monitors available:
/// the configured one when it exists; otherwise `None`, and the overlay stays
/// on the monitor it is on.
pub fn monitor_choice(selected: u64, count: usize) -> (m: Option<usize>)
    ensures
        m == (if selected < count {
            Some(selected as usize)
        } else {
            None::<usize>
        }),
{
    if selected < count as u64 {
        Some(selected as usize)
    } else {
        None
    }
}

/// What a click on the tray menu asks for.
#[derive(Debug, Clone, Copy, PartialEq, Eq, Structural)]
pub enum MenuChoice {
    Quit,
    TestNotification,
    OpenSettings,
    ToggleConnection,
    Unknown,
}

/// The choice of the menu item `id`, checked against the items in this order:
/// quit, test, settings, connect.
pub open spec fn menu_choice_of(ids: MenuIds, id: Seq<char>) -> MenuChoice {
    if id == ids.quit@ {
        MenuChoice::Quit
    } else if id == ids.test@ {
        MenuChoice::TestNotification
    } else if id == ids.settings@ {
        MenuChoice::OpenSettings
    } else if id == ids.connect_toggle@ {
        MenuChoice::ToggleConnection
    } else {
        MenuChoice::Unknown
    }
}

/// A click is told apart by the whole identifier of the item: it is `Quit`
/// exactly when the identifier is that of the quit item, and any other choice
/// exactly when it is that item's identifier and none of the items checked
/// before it; an identifier of no item is `Unknown`.
pub proof fn lemma_menu_choice_by_whole_id(ids: MenuIds, id: Seq<char>)
    ensures
        menu_choice_of(ids, id) == MenuChoice::Quit <==> id == ids.quit@,
        menu_choice_of(ids, id) == MenuChoice::TestNotification <==> (id == ids.test@ && id != ids.quit@),
        menu_choice_of(ids, id) == MenuChoice::OpenSettings <==> (id == ids.settings@ && id != ids.quit@
            && id != ids.test@),
        menu_choice_of(ids, id) == MenuChoice::ToggleConnection <==> (id == ids.connect_toggle@ && id
            != ids.quit@ && id != ids.test@ && id != ids.settings@),
        menu_choice_of(ids, id) == MenuChoice::Unknown <==> (id != ids.quit@ && id != ids.test@ && id
            != ids.settings@ && id != ids.connect_toggle@),
{
}

/// Tells which item of the tray menu was clicked.
pub fn menu_choice(ids: &MenuIds, id: &str) -> (m: MenuChoice)
    ensures
        m == menu_choice_of(*ids, id@),
        m == MenuChoice::Quit <==> id@ == ids.quit@,
        m == MenuChoice::TestNotification <==> (id@ == ids.test@ && id@ != ids.quit@),
        m == MenuChoice::OpenSettings <==> (id@ == ids.settings@ && id@ != ids.quit@
            && id@ != ids.test@),
        m == MenuChoice::ToggleConnection <==> (id@ == ids.connect_toggle@ && id@
            != ids.quit@ && id@ != ids.test@ && id@ != ids.settings@),
        m == MenuChoice::Unknown <==> (id@ != ids.quit@ && id@ != ids.test@ && id@
            != ids.settings@ && id@ != ids.connect_toggle@),
{
    proof {
        lemma_menu_choice_by_whole_id(*ids, id@);
    }
    let id = String::from_str(id);
    if id == ids.quit {
        MenuChoice::Quit
    } else if id == ids.test {
        MenuChoice::TestNotification
    } else if id == ids.settings {
        MenuChoice::OpenSettings
    } else if id == ids.connect_toggle {
        MenuChoice::ToggleConnection
    } else {
        MenuChoice::Unknown
    }
}

/// What the application does with the window, the web views and the tray.
#[derive(Debug, Clone)]
pub enum OverlayAction {
    /// Hand the notification to the overlay page, place the overlay at
    /// `position` on the monitor `monitor` (see `monitor_choice`), show it on
    /// top of every window, and start an auto-hide timer of `duration_ms`
    /// milliseconds.
    Show {
        payload: NotificationPayload,
        duration_ms: u64,
        position: OverlayPosition,
        monitor: u64,
    },
    /// Hide the overlay.
    Hide,
    /// Leave the event loop.
    Exit,
    /// Show these texts in the tray.
    UpdateTray(TrayLabels),
    /// Send this command to the event loop.
    Post(OverlayCommand),
    /// Create the settings window, then report with `settings_opened`.
    OpenSettings,
    /// Bring the settings window to the front.
    FocusSettings,
    /// Hand the settings page the list of monitors, with `selected_monitor`
    /// selected, and then the current configuration, in that order (the
    /// scripts of `settings::ready_scripts`).
    FillSettings { selected_monitor: u64 },
    /// Read and save the configuration in this JSON text, then report with `apply_save`.
    SaveSettings(String),
    /// Close the settings window.
    CloseSettings,
    /// Start a new auto-hide timer of this many milliseconds.
    RestartHideTimer(u64),
    /// Nothing to do.
    Nothing,
}

/// How saving the configuration sent by the settings page went.
#[derive(Debug, Clone)]
pub enum SaveOutcome {
    /// The text is not JSON.
    InvalidJson,
    /// The JSON has no `config` member.
    MissingConfig,
    /// The `config` member is not a configuration.
    InvalidConfig,
    /// Writing the configuration file failed.
    NotWritten,
    /// The configuration was written to the file.
    Saved(Config),
}

/// The state of the overlay application that its decisions read: the current
/// configuration, whether the settings window is open, and the identifiers of
/// the tray menu once the tray exists.
pub struct OverlayCore {
    config: Config,
    settings_open: bool,
    menu: Option<MenuIds>,
}

impl OverlayCore {
    /// The current configuration.
    pub closed spec fn current_config(&self) -> Config {
        self.config
    }

    /// Whether the settings window is open.
    pub closed spec fn settings_is_open(&self) -> bool {
        self.settings_open
    }

    /// The identifiers of the tray menu, once the tray exists.
    pub closed spec fn menu_ids(&self) -> Option<MenuIds> {
        self.menu
    }

    /// A fresh application: no tray yet and no settings window.
    pub fn new(config: Config) -> (core: OverlayCore)
        ensures
            core.current_config() == config,
            !core.settings_is_open(),
            core.menu_ids() is None,
    {
        OverlayCore { config, settings_open: false, menu: None }
    }

    /// The current configuration.
    pub fn config(&self) -> (c: &Config)
        ensures
            *c == self.current_config(),
    {
        &self.config
    }

    /// Whether the settings window is open.
    pub fn settings_open(&self) -> (b: bool)
        ensures
            b == self.settings_is_open(),
    {
        self.settings_open
    }

    /// The tray has been built with these menu items.
    pub fn tray_ready(&mut self, ids: MenuIds)
        ensures
            final(self).menu_ids() == Some(ids),
            final(self).current_config() == old(self).current_config(),
            final(self).settings_is_open() == old(self).settings_is_open(),
    {
        self.menu = Some(ids);
    }

    /// The settings window asked for by `OverlayAction::OpenSettings` was
    /// created, or could not be.
    pub fn settings_opened(&mut self, opened: bool)
        ensures
            final(self).settings_is_open() == opened,
            final(self).current_config() == old(self).current_config(),
            final(self).menu_ids() == old(self).menu_ids(),
    {
        self.settings_open = opened;
    }

    /// A notification shown for `duration_ms` at the configured position, on
    /// the configured monitor.
    fn show(&self, payload: NotificationPayload, duration_ms: u64) -> (a: OverlayAction)
        ensures
            a == (OverlayAction::Show {
                payload,
                duration_ms,
                position: self.current_config().overlay_position,
                monitor: self.current_config().display_monitor,
            }),
    {
        OverlayAction::Show {
            payload,
            duration_ms,
            position: self.config.overlay_position,
            monitor: self.config.display_monitor,
        }
    }

    /// What a click on the tray menu item `id` calls for.
    fn menu_action(&self, id: String) -> (a: OverlayAction)
        ensures
            self.menu_ids() is None ==> a is Nothing,
            self.menu_ids() matches Some(ids) ==> match menu_choice_of(ids, id@) {
                MenuChoice::Quit => a is Exit,
                MenuChoice::TestNotification => a matches OverlayAction::Show {
                    payload,
                    duration_ms,
                    position,
                    monitor,
                } && payload.sender@ == "System"@ && payload.message@ == "Test BozoChat !"@
                    && payload.media_type is None && payload.media_filename is None
                    && payload.media_data is None && payload.duration == Some(3000u64)
                    && duration_ms == 3000 && position == self.current_config().overlay_position
                    && monitor == self.current_config().display_monitor,
                MenuChoice::OpenSettings => a == OverlayAction::Post(OverlayCommand::OpenSettings),
                _ => a is Nothing,
            },
    {
        match &self.menu {
            None => OverlayAction::Nothing,
            Some(ids) => match menu_choice(ids, id.as_str()) {
                MenuChoice::Quit => OverlayAction::Exit,
                MenuChoice::TestNotification => {
                    let payload = test_payload();
                    let duration = match payload.duration {
                        Some(d) => d,
                        None => self.config.default_duration,
                    };
                    self.show(payload, duration)
                },
                MenuChoice::OpenSettings => OverlayAction::Post(OverlayCommand::OpenSettings),
                _ => OverlayAction::Nothing,
            },
        }
    }

    /// What a command calls for. No command changes the configuration; only
    /// `SettingsClose` changes whether the settings window is open; there is
    /// never more than one settings window, and asking for it while it is open
    /// brings it to the front.
    pub fn handle(&mut self, cmd: OverlayCommand) -> (a: OverlayAction)
        ensures
            final(self).current_config() == old(self).current_config(),
            final(self).menu_ids() == old(self).menu_ids(),
            cmd is SettingsClose ==> !final(self).settings_is_open(),
            !(cmd is SettingsClose) ==> final(self).settings_is_open() == old(self).settings_is_open(),
            cmd matches OverlayCommand::Show(p, d) ==> a == (OverlayAction::Show {
                payload: p,
                duration_ms: d,
                position: old(self).current_config().overlay_position,
                monitor: old(self).current_config().display_monitor,
            }),
            cmd is Hide ==> a is Hide,
            cmd is Quit ==> a is Exit,
            cmd matches OverlayCommand::ConnectionStatus(c) ==> match old(self).menu_ids() {
                Some(_) => a matches OverlayAction::UpdateTray(l) && l.tooltip@ == tooltip_text(c)
                    && l.status@ == status_text(c) && l.connect@ == connect_text(c) && l.connected
                    == c,
                None => a is Nothing,
            },
            cmd matches OverlayCommand::MenuAction(id) ==> match old(self).menu_ids() {
                None => a is Nothing,
                Some(ids) => match menu_choice_of(ids, id@) {
                    MenuChoice::Quit => a is Exit,
                    MenuChoice::TestNotification => a matches OverlayAction::Show {
                        payload,
                        duration_ms,
                        position,
                        monitor,
                    } && payload.sender@ == "System"@ && payload.message@ == "Test BozoChat !"@
                        && payload.media_type is None && payload.media_filename is None
                        && payload.media_data is None && payload.duration == Some(3000u64)
                        && duration_ms == 3000 && position == old(self).current_config().overlay_position
                        && monitor == old(self).current_config().display_monitor,
                    MenuChoice::OpenSettings => a == OverlayAction::Post(
                        OverlayCommand::OpenSettings,
                    ),
                    _ => a is Nothing,
                },
            },
            cmd is OpenSettings ==> (if old(self).settings_is_open() {
                a is FocusSettings
            } else {
                a is OpenSettings
            }),
            cmd is SettingsReady ==> (if old(self).settings_is_open() {
                a == (OverlayAction::FillSettings {
                    selected_monitor: old(self).current_config().display_monitor,
                })
            } else {
                a is Nothing
            }),
            cmd matches OverlayCommand::SettingsSave(j) ==> a == OverlayAction::SaveSettings(j),
            cmd is SettingsClose ==> a is CloseSettings,
            cmd matches OverlayCommand::SetDuration(ms) ==> a == OverlayAction::RestartHideTimer(ms),
    {
        match cmd {
            OverlayCommand::Show(payload, duration) => self.show(payload, duration),
            OverlayCommand::Hide => OverlayAction::Hide,
            OverlayCommand::Quit => OverlayAction::Exit,
            OverlayCommand::ConnectionStatus(connected) => {
                if self.menu.is_some() {
                    OverlayAction::UpdateTray(tray_labels(connected))
                } else {
                    OverlayAction::Nothing
                }
            },
            OverlayCommand::MenuAction(id) => self.menu_action(id),
            OverlayCommand::OpenSettings => {
                if self.settings_open {
                    OverlayAction::FocusSettings
                } else {
                    OverlayAction::OpenSettings
                }
            },
            OverlayCommand::SettingsReady => {
                if self.settings_open {
                    OverlayAction::FillSettings { selected_monitor: self.config.display_monitor }
                } else {
                    OverlayAction::Nothing
                }
            },
            OverlayCommand::SettingsSave(json) => OverlayAction::SaveSettings(json),
            OverlayCommand::SettingsClose => {
                self.settings_open = false;
                OverlayAction::CloseSettings
            },
            OverlayCommand::SetDuration(ms) => OverlayAction::RestartHideTimer(ms),
        }
    }

    /// A window asked to close: the settings window closes alone, any other
    /// window ends the application.
    pub fn close_requested(&mut self, from_settings: bool) -> (a: OverlayAction)
        ensures
            final(self).current_config() == old(self).current_config(),
            final(self).menu_ids() == old(self).menu_ids(),
            (from_settings && old(self).settings_is_open()) ==> a is CloseSettings
                && !final(self).settings_is_open(),
            !(from_settings && old(self).settings_is_open()) ==> a is Exit && final(self).settings_is_open() == old(self).settings_is_open(),
    {
        if from_settings && self.settings_open {
            self.settings_open = false;
            OverlayAction::CloseSettings
        } else {
            OverlayAction::Exit
        }
    }

    /// Takes in how saving the configuration went. The configuration changes
    /// only once the new one is written to the file; the settings page hears of
    /// the success when its window is open.
    pub fn apply_save(&mut self, outcome: SaveOutcome) -> (notify: bool)
        ensures
            final(self).menu_ids() == old(self).menu_ids(),
            final(self).settings_is_open() == old(self).settings_is_open(),
            outcome matches SaveOutcome::Saved(c) ==> final(self).current_config() == c && notify
                == old(self).settings_is_open(),
            !(outcome is Saved) ==> final(self).current_config() == old(self).current_config()
                && !notify,
    {
        match outcome {
            SaveOutcome::Saved(c) => {
                self.config = c;
                self.settings_open
            },
            _ => false,
        }
    }
}

} // verus!
