//! Application configuration, stored as JSON in `~/.bozochat/config.json`.
//!
//! The defaults are the server `ws://localhost:3001`, an empty user id, a
//! centred overlay, 5000 ms of display, no auto start and the first monitor. A field missing from the file takes its default.
use vstd::prelude::*;

verus! {

/// Where the overlay window is placed on the screen.
#[derive(Debug, Clone, Copy, PartialEq, Eq, Structural)]
pub enum OverlayPosition {
    TopLeft,
    TopRight,
    BottomLeft,
    BottomRight,
    Center,
}

impl Default for OverlayPosition {
    fn default() -> (p: Self)
        ensures
            p == OverlayPosition::Center,
    {
        OverlayPosition::Center
    }
}

/// The name of a position in the configuration file (kebab case).
pub open spec fn position_name(p: OverlayPosition) -> Seq<char> {
    match p {
        OverlayPosition::TopLeft => "top-left"@,
        OverlayPosition::TopRight => "top-right"@,
        OverlayPosition::BottomLeft => "bottom-left"@,
        OverlayPosition::BottomRight => "bottom-right"@,
        OverlayPosition::Center => "center"@,
    }
}

/// The position whose name is `s`, if any.
pub open spec fn position_named(s: Seq<char>) -> Option<OverlayPosition> {
    if s == "top-left"@ {
        Some(OverlayPosition::TopLeft)
    } else if s == "top-right"@ {
        Some(OverlayPosition::TopRight)
    } else if s == "bottom-left"@ {
        Some(OverlayPosition::BottomLeft)
    } else if s == "bottom-right"@ {
        Some(OverlayPosition::BottomRight)
    } else if s == "center"@ {
        Some(OverlayPosition::Center)
    } else {
        None
    }
}

impl OverlayPosition {
    /// The name under which the position is written in the configuration file.
    pub fn name(&self) -> (s: String)
        ensures
            s@ == position_name(*self),
    {
        match self {
            OverlayPosition::TopLeft => String::from_str("top-left"),
            OverlayPosition::TopRight => String::from_str("top-right"),
            OverlayPosition::BottomLeft => String::from_str("bottom-left"),
            OverlayPosition::BottomRight => String::from_str("bottom-right"),
            OverlayPosition::Center => String::from_str("center"),
        }
    }

    /// Reads a position from its name in the configuration file.
    pub fn from_name(s: &str) -> (p: Option<OverlayPosition>)
        ensures
            p == position_named(s@),
    {
        let given = String::from_str(s);
        if given == String::from_str("top-left") {
            Some(OverlayPosition::TopLeft)
        } else if given == String::from_str("top-right") {
            Some(OverlayPosition::TopRight)
        } else if given == String::from_str("bottom-left") {
            Some(OverlayPosition::BottomLeft)
        } else if given == String::from_str("bottom-right") {
            Some(OverlayPosition::BottomRight)
        } else if given == String::from_str("center") {
            Some(OverlayPosition::Center)
        } else {
            None
        }
    }
}

/// Every position is read back from its name, and no two positions share a name.
pub proof fn lemma_position_name_round_trip(p: OverlayPosition, q: OverlayPosition)
    ensures
        position_named(position_name(p)) == Some(p),
        position_name(p) == position_name(q) ==> p == q,
{
    reveal_strlit("top-left");
    reveal_strlit("top-right");
    reveal_strlit("bottom-left");
    reveal_strlit("bottom-right");
    reveal_strlit("center");
    assert("top-left"@.len() == 8);
    assert("top-right"@.len() == 9);
    assert("bottom-left"@.len() == 11);
    assert("bottom-right"@.len() == 12);
    assert("center"@.len() == 6);
}

/// Any name that is read as a position is the name of that position.
pub proof fn lemma_position_named_is_name(s: Seq<char>)
    ensures
        position_named(s) matches Some(p) ==> position_name(p) == s,
{
}

/// The configuration of the application.
#[derive(Debug, Clone)]
pub struct Config {
    pub server_url: String,
    pub user_id: String,
    pub overlay_position: OverlayPosition,
    /// How long a notification stays on screen, in milliseconds.
    pub default_duration: u64,
    pub auto_start: bool,
    /// The screen that shows the overlay: an index into the list of monitors
    /// offered by the settings window.
    pub display_monitor: u64,
}

/// The configuration as plain values.
pub struct ConfigView {
    pub server_url: Seq<char>,
    pub user_id: Seq<char>,
    pub overlay_position: OverlayPosition,
    pub default_duration: u64,
    pub auto_start: bool,
    pub display_monitor: u64,
}

impl View for Config {
    type V = ConfigView;

    open spec fn view(&self) -> ConfigView {
        ConfigView {
            server_url: self.server_url@,
            user_id: self.user_id@,
            overlay_position: self.overlay_position,
            default_duration: self.default_duration,
            auto_start: self.auto_start,
            display_monitor: self.display_monitor,
        }
    }
}

/// The default server address.
pub open spec fn default_server_url() -> Seq<char> {
    "ws://localhost:3001"@
}

/// The default display duration, in milliseconds.
pub open spec fn default_display_ms() -> u64 {
    5000
}

/// The configuration that applies when the file says nothing.
pub open spec fn default_config() -> ConfigView {
    ConfigView {
        server_url: default_server_url(),
        user_id: Seq::empty(),
        overlay_position: OverlayPosition::Center,
        default_duration: default_display_ms(),
        auto_start: false,
        display_monitor: 0,
    }
}

/// The default server address, `ws://localhost:3001`.
pub fn server_url() -> (url: String)
    ensures
        url@ == default_server_url(),
{
    String::from_str("ws://localhost:3001")
}

/// The default display duration, 5000 ms.
pub fn default_duration() -> (ms: u64)
    ensures
        ms == default_display_ms(),
{
    5000
}

impl Default for Config {
    fn default() -> (c: Self)
        ensures
            c@ == default_config(),
    {
        Config {
            server_url: server_url(),
            user_id: String::new(),
            overlay_position: OverlayPosition::Center,
            default_duration: default_duration(),
            auto_start: false,
            display_monitor: 0,
        }
    }
}

/// A configuration as read from a file in which any field may be missing.
#[derive(Debug, Clone)]
pub struct PartialConfig {
    pub server_url: Option<String>,
    pub user_id: Option<String>,
    pub overlay_position: Option<OverlayPosition>,
    pub default_duration: Option<u64>,
    pub auto_start: Option<bool>,
    pub display_monitor: Option<u64>,
}

/// A partial configuration as plain values.
pub struct PartialConfigView {
    pub server_url: Option<Seq<char>>,
    pub user_id: Option<Seq<char>>,
    pub overlay_position: Option<OverlayPosition>,
    pub default_duration: Option<u64>,
    pub auto_start: Option<bool>,
    pub display_monitor: Option<u64>,
}

impl View for PartialConfig {
    type V = PartialConfigView;

    open spec fn view(&self) -> PartialConfigView {
        PartialConfigView {
            server_url: self.server_url.deep_view(),
            user_id: self.user_id.deep_view(),
            overlay_position: self.overlay_position,
            default_duration: self.default_duration,
            auto_start: self.auto_start,
            display_monitor: self.display_monitor,
        }
    }
}

/// Each field of `p` that is present, and the default for each one that is not.
pub open spec fn completed(p: PartialConfigView) -> ConfigView {
    let d = default_config();
    ConfigView {
        server_url: match p.server_url {
            Some(v) => v,
            None => d.server_url,
        },
        user_id: match p.user_id {
            Some(v) => v,
            None => d.user_id,
        },
        overlay_position: match p.overlay_position {
            Some(v) => v,
            None => d.overlay_position,
        },
        default_duration: match p.default_duration {
            Some(v) => v,
            None => d.default_duration,
        },
        auto_start: match p.auto_start {
            Some(v) => v,
            None => d.auto_start,
        },
        display_monitor: match p.display_monitor {
            Some(v) => v,
            None => d.display_monitor,
        },
    }
}

/// The partial configuration that holds every field of `c`.
pub open spec fn full_partial(c: ConfigView) -> PartialConfigView {
    PartialConfigView {
        server_url: Some(c.server_url),
        user_id: Some(c.user_id),
        overlay_position: Some(c.overlay_position),
        default_duration: Some(c.default_duration),
        auto_start: Some(c.auto_start),
        display_monitor: Some(c.display_monitor),
    }
}

/// The partial configuration of an empty file.
pub open spec fn empty_partial() -> PartialConfigView {
    PartialConfigView {
        server_url: None,
        user_id: None,
        overlay_position: None,
        default_duration: None,
        auto_start: None,
        display_monitor: None,
    }
}

impl Config {
    /// Completes a partially read configuration: every missing field takes its default.
    pub fn from_partial(p: PartialConfig) -> (c: Config)
        ensures
            c@ == completed(p@),
            p@.server_url matches Some(v) ==> c@.server_url == v,
            p@.server_url is None ==> c@.server_url == default_config().server_url,
            p@.user_id matches Some(v) ==> c@.user_id == v,
            p@.user_id is None ==> c@.user_id == default_config().user_id,
            p@.overlay_position matches Some(v) ==> c@.overlay_position == v,
            p@.overlay_position is None ==> c@.overlay_position == default_config().overlay_position,
            p@.default_duration matches Some(v) ==> c@.default_duration == v,
            p@.default_duration is None ==> c@.default_duration == default_config().default_duration,
            p@.auto_start matches Some(v) ==> c@.auto_start == v,
            p@.auto_start is None ==> c@.auto_start == default_config().auto_start,
            p@.display_monitor matches Some(v) ==> c@.display_monitor == v,
            p@.display_monitor is None ==> c@.display_monitor == default_config().display_monitor,
    {
        let server_url = match p.server_url {
            Some(v) => v,
            None => server_url(),
        };
        let user_id = match p.user_id {
            Some(v) => v,
            None => String::new(),
        };
        let overlay_position = match p.overlay_position {
            Some(v) => v,
            None => OverlayPosition::default(),
        };
        let default_duration = match p.default_duration {
            Some(v) => v,
            None => default_duration(),
        };
        let auto_start = match p.auto_start {
            Some(v) => v,
            None => false,
        };
        let display_monitor = match p.display_monitor {
            Some(v) => v,
            None => 0,
        };
        Config { server_url, user_id, overlay_position, default_duration, auto_start, display_monitor }
    }
}

/// A partial configuration is completed field by field: a field that is
/// present is kept as it is, a missing one takes its default, and each field of
/// the result depends on the same field of the input alone, whatever the
/// others hold.
pub proof fn lemma_completed_field_by_field(p: PartialConfigView, q: PartialConfigView)
    ensures
        p.server_url matches Some(v) ==> completed(p).server_url == v,
        p.server_url is None ==> completed(p).server_url == default_config().server_url,
        p.server_url == q.server_url ==> completed(p).server_url == completed(q).server_url,
        p.user_id matches Some(v) ==> completed(p).user_id == v,
        p.user_id is None ==> completed(p).user_id == default_config().user_id,
        p.user_id == q.user_id ==> completed(p).user_id == completed(q).user_id,
        p.overlay_position matches Some(v) ==> completed(p).overlay_position == v,
        p.overlay_position is None ==> completed(p).overlay_position == default_config().overlay_position,
        p.overlay_position == q.overlay_position ==> completed(p).overlay_position == completed(q).overlay_position,
        p.default_duration matches Some(v) ==> completed(p).default_duration == v,
        p.default_duration is None ==> completed(p).default_duration == default_config().default_duration,
        p.default_duration == q.default_duration ==> completed(p).default_duration == completed(q).default_duration,
        p.auto_start matches Some(v) ==> completed(p).auto_start == v,
        p.auto_start is None ==> completed(p).auto_start == default_config().auto_start,
        p.auto_start == q.auto_start ==> completed(p).auto_start == completed(q).auto_start,
        p.display_monitor matches Some(v) ==> completed(p).display_monitor == v,
        p.display_monitor is None ==> completed(p).display_monitor == default_config().display_monitor,
        p.display_monitor == q.display_monitor ==> completed(p).display_monitor == completed(q).display_monitor,
{
}

/// An empty file gives the default configuration, and a complete file gives
/// exactly what it holds.
pub proof fn lemma_partial_config_defaults(c: ConfigView)
    ensures
        completed(empty_partial()) == default_config(),
        completed(full_partial(c)) == c,
{
}

} // verus!
