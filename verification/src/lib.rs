//! Verified core of a cursor-trail overlay: configuration values, the
//! cursor-visibility tracker, the ARGB frame buffer and sprite model, the
//! overlay window style bits and the tray icon bitmap.

pub mod config;
pub mod cursor;
pub mod icon;
pub mod overlay;
pub mod render;
pub mod trail;
pub mod tray;
