//! Settings, key bindings and image paths of a small image viewer.
//!
//! The viewer shows one image at a time. This library holds what it decides
//! before and while a window is open: how a color is written and read, which
//! settings are in effect once the defaults, the settings file and the command
//! line have been combined, which keys trigger which action, which of the
//! paths it was given are shown, and which image is selected.

pub mod text;
pub mod color;
pub mod actions;
pub mod config;
pub mod paths;
pub mod image_info;
pub mod navigation;
