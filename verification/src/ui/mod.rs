//! Tray icon state and status text for the desktop shell.
pub mod commands;
pub mod state;
pub mod tray;
