//! The verified core of WallLit, an animated wallpaper for Windows.

pub mod apply;
pub mod autostart;
pub mod cache;
pub mod canvas;
pub mod config;
pub mod diagnostics;
pub mod display;
pub mod engine;
pub mod icon;
pub mod image;
pub mod import;
pub mod language;
pub mod library;
pub mod maintenance;
pub mod occlusion;
pub mod playback;
pub mod poster;
pub mod recovery;
pub mod rotation;
pub mod session;
pub mod stats;
pub mod text;
