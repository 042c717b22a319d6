//! Wakezilla: wake-on-LAN proxy core logic with machine-checked contracts.

pub mod access_log;
pub mod detail;
pub mod models;
pub mod parse;
pub mod text;
pub mod forward;
pub mod ip;
pub mod laws;
pub mod screens;
pub mod tray;
pub mod tui;
pub mod usage;
pub mod validation;
