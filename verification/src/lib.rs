//! A verified model of a menu-bar companion application: a system tray icon
//! with a mutable title, and a single popup window whose visibility is
//! toggled by clicks on the tray icon.
//!
//! The library holds the decision and state-transition logic; the host
//! framework's event loop and the operating-system calls live outside it and
//! report their outcomes back as plain values.

pub mod app;
pub mod policy;
pub mod tray;
pub mod window;
