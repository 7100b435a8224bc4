//! The decisions and texts behind the game's windows and item slots.
pub mod components;
pub mod resource;
pub mod windows;
