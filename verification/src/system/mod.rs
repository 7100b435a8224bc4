//! Game-wide systems.
pub mod event_bus;
