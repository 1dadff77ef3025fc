//! Keep Awake: the decisions behind a small tray tool that keeps the
//! machine from locking or sleeping.
//!
//! The library holds the settings and their defaults, the localised tray
//! texts, the pixel art of the sun icon and its ICO encoding, the
//! interpretation of the operating system's sleep-inhibition replies, the
//! mouse-nudge schedule, the autostart files, and the controller that turns
//! menu commands into settings changes and side effects.

pub mod config;
pub mod lang;
pub mod icon;
pub mod tray;
pub mod notify;
pub mod inhibit;
pub mod mouse;
pub mod autostart;
pub mod controller;
pub mod laws;
pub mod symmetry;
pub mod behaviour;
