//! BozoChat client library: the configuration model, the WebSocket protocol
//! with its reconnection policy, the overlay and settings decisions, and the
//! tray state, each with its contract.
pub mod config;
pub mod text;
pub mod json;
pub mod websocket;
pub mod tray;
pub mod overlay;
pub mod settings;
pub mod icon;
