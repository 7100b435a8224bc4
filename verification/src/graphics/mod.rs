//! Frame timing helpers for the renderer.
pub mod framepace;
