//! The system tray: the texts that show the connection state, the identifiers
//! of the menu items, and the payload of the test notification.
use vstd::prelude::*;

use crate::icon::IconPixels;
use crate::websocket::NotificationPayload;

verus! {

/// The tooltip of the tray icon.
pub open spec fn tooltip_text(connected: bool) -> Seq<char> {
    if connected {
        "BozoChat - Connecté"@
    } else {
        "BozoChat - Déconnecté"@
    }
}

/// The disabled status item at the top of the menu.
pub open spec fn status_text(connected: bool) -> Seq<char> {
    if connected {
        "BozoChat (Connecté)"@
    } else {
        "BozoChat (Déconnecté)"@
    }
}

/// The item that toggles the connection.
pub open spec fn connect_text(connected: bool) -> Seq<char> {
    if connected {
        "Déconnecter"@
    } else {
        "Reconnecter"@
    }
}

/// The texts of the tray that depend on the connection state.
#[derive(Debug, Clone)]
pub struct TrayLabels {
    pub tooltip: String,
    pub status: String,
    pub connect: String,
    /// Whether the icon carries the green badge of a connected client.
    pub connected: bool,
}

/// The texts of the tray for a client that is connected or not. The tray is
/// built with the texts of a disconnected client.
pub fn tray_labels(connected: bool) -> (l: TrayLabels)
    ensures
        l.tooltip@ == tooltip_text(connected),
        l.status@ == status_text(connected),
        l.connect@ == connect_text(connected),
        l.connected == connected,
{
    if connected {
        TrayLabels {
            tooltip: String::from_str("BozoChat - Connecté"),
            status: String::from_str("BozoChat (Connecté)"),
            connect: String::from_str("Déconnecter"),
            connected: true,
        }
    } else {
        TrayLabels {
            tooltip: String::from_str("BozoChat - Déconnecté"),
            status: String::from_str("BozoChat (Déconnecté)"),
            connect: String::from_str("Reconnecter"),
            connected: false,
        }
    }
}

/// The two states of the tray never show the same texts.
pub proof fn lemma_tray_labels_tell_states_apart()
    ensures
        tooltip_text(true) != tooltip_text(false),
        status_text(true) != status_text(false),
        connect_text(true) != connect_text(false),
{
    reveal_strlit("BozoChat - Connecté");
    reveal_strlit("BozoChat - Déconnecté");
    reveal_strlit("BozoChat (Connecté)");
    reveal_strlit("BozoChat (Déconnecté)");
    reveal_strlit("Déconnecter");
    reveal_strlit("Reconnecter");
    assert(tooltip_text(true).len() != tooltip_text(false).len());
    assert(status_text(true).len() != status_text(false).len());
    assert(connect_text(true)[0] != connect_text(false)[0]);
}

/// The side of the badge, in pixels, on an icon of `w` by `h` pixels: a third
/// of the shorter side, and at least one pixel.
pub open spec fn badge_side(w: nat, h: nat) -> nat {
    let m = if w < h {
        w
    } else {
        h
    };
    if m / 3 == 0 {
        1
    } else {
        m / 3
    }
}

/// Whether byte `k` of the RGBA pixels of an icon `w` pixels wide and `h`
/// high belongs to the badge, the square at the bottom right corner.
pub open spec fn in_badge(w: nat, h: nat, k: int) -> bool {
    w > 0 && {
        let p = k / 4;
        p % (w as int) + badge_side(w, h) >= w && p / (w as int) + badge_side(w, h) >= h
    }
}

/// Byte `c` (red, green, blue, alpha) of the badge colour, an opaque green.
pub open spec fn badge_byte(c: int) -> u8 {
    if c == 0 {
        0x22
    } else if c == 1 {
        0xc5
    } else if c == 2 {
        0x5e
    } else {
        0xff
    }
}

/// The tray icon for a connection state: the icon itself when disconnected;
/// with a green square in its bottom right corner when connected.
pub fn status_icon(base: &IconPixels, connected: bool) -> (r: IconPixels)
    ensures
        r.width == base.width,
        r.height == base.height,
        r.rgba@.len() == base.rgba@.len(),
        forall|k: int|
            0 <= k < base.rgba@.len() ==> #[trigger] r.rgba@[k] == if connected && in_badge(
                base.width as nat,
                base.height as nat,
                k,
            ) {
                badge_byte(k % 4)
            } else {
                base.rgba@[k]
            },
{
    let w: u64 = base.width as u64;
    let h: u64 = base.height as u64;
    let m: u64 = if w < h {
        w
    } else {
        h
    };
    let side: u64 = if m / 3 == 0 {
        1
    } else {
        m / 3
    };
    let n: usize = base.rgba.len();
    let mut rgba: Vec<u8> = Vec::new();
    let mut k: usize = 0;
    while k < n
        invariant
            n == base.rgba@.len(),
            k <= n,
            w == base.width,
            h == base.height,
            side == badge_side(w as nat, h as nat),
            rgba@.len() == k,
            forall|j: int|
                0 <= j < k ==> #[trigger] rgba@[j] == if connected && in_badge(
                    w as nat,
                    h as nat,
                    j,
                ) {
                    badge_byte(j % 4)
                } else {
                    base.rgba@[j]
                },
        decreases n - k,
    {
        let mut byte: u8 = base.rgba[k];
        if connected && w > 0 {
            let p: u64 = (k / 4) as u64;
            if p % w + side >= w && p / w + side >= h {
                let c: usize = k % 4;
                byte = if c == 0 {
                    0x22
                } else if c == 1 {
                    0xc5
                } else if c == 2 {
                    0x5e
                } else {
                    0xff
                };
            }
        }
        rgba.push(byte);
        k = k + 1;
    }
    IconPixels { rgba, width: base.width, height: base.height }
}

/// The identifiers of the menu items, by which a menu click is told apart.
#[derive(Debug, Clone)]
pub struct MenuIds {
    pub settings: String,
    pub connect_toggle: String,
    pub test: String,
    pub quit: String,
}

/// The payload of the test notification of the tray menu.
pub fn test_payload() -> (p: NotificationPayload)
    ensures
        p.sender@ == "System"@,
        p.message@ == "Test BozoChat !"@,
        p.media_type is None,
        p.media_filename is None,
        p.media_data is None,
        p.duration == Some(3000u64),
{
    NotificationPayload {
        sender: String::from_str("System"),
        message: String::from_str("Test BozoChat !"),
        media_type: None,
        media_filename: None,
        media_data: None,
        duration: Some(3000),
    }
}

} // verus!
