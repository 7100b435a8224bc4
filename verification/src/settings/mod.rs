//! User settings.
pub mod keybinding;
