//! Decision logic of a minimize-to-tray daemon for one window of the
//! Hyprland compositor: the toggle state machine, the dispatch commands it
//! issues, the single-instance lock token, the tray menu and the exit gate.

pub mod text;
pub mod hyprland;
pub mod lock;
pub mod tray;
pub mod exit;
pub mod config;
