//! Verified core of the NativePHP desktop bridge: the decisions that the
//! Tauri shell makes when it starts the PHP sidecar, serves the native API
//! and translates menus and windows.
pub mod api;
pub mod boot;
pub mod laws;
pub mod menu;
pub mod php;
pub mod ports;
pub mod text;
pub mod window;
