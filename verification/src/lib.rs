//! Verified core logic of the Korangar Ragnarok Online client.
pub mod graphics;
pub mod interface;
pub mod inventory;
pub mod loaders;
pub mod networking;
pub mod settings;
pub mod system;
pub mod text;
pub mod world;
