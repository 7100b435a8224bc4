//! The game world: tables of game data and the weather.
pub mod skill_name;
pub mod weather;
