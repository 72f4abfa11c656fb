//! Hotkey-driven window tiling: which rectangle the focused window should
//! take, and which key binding an activation belongs to.

pub mod autostart;
pub mod config;
pub mod dispatch;
pub mod int_map;
pub mod keys;
pub mod label;
pub mod layout;
pub mod registry;
