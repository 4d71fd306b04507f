# BozoChat client

BozoChat shows images, videos and messages sent from Discord on the screens
of a group of friends. A bot broadcasts each notification over a WebSocket;
this client, sitting in the Windows system tray, shows it in a transparent
always-on-top overlay.

## Layout

- `src/` — the library, verified with Verus:
  - `config.rs`: the configuration, its defaults and the completion of a
    partial file; the names of the overlay positions.
  - `websocket.rs`: the protocol messages, the decisions of a connection, and
    the connection loop that reconnects after 5000 ms.
  - `overlay.rs`: overlay placement, the auto-hide timer generations, the
    messages of the overlay page, and `OverlayCore`, which decides what every
    command does.
  - `settings.rs`: the messages of the settings page and the scripts fed to it.
  - `tray.rs`: the tray texts, the menu identifiers and the test notification.
  - `icon.rs`: choosing and decoding the widest image of the ICO icon.
  - `text.rs`: trimming, prefixes and decimal numbers.
  - `json.rs`: the calls into `serde_json`, with trusted contracts.
- `app/` — the program around it: windows, web views, tray, file and network
  I/O, and the JSON forms of the library's types.
- `tests/` — tests of the library.

The program expects its pages and icon in `app/assets/` (`overlay.html`,
`settings.html`, `bozoicon.ico`), embedded at build time.
