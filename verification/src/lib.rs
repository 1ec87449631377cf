//! Verified core of a system-tray hardware monitor: number and text formatting,
//! tray icon rasterisation, tray menu state handling and HUD/dashboard layout.

pub mod config;
pub mod numfmt;
pub mod text;
pub mod network;
pub mod icon;
pub mod dashboard;
pub mod hud;
pub mod metrics;
pub mod monitors;
pub mod tray;
pub mod layout;
