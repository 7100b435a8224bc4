//! Loaders for client-side game data tables.
pub mod archive;
pub mod map_name_table;
pub mod skill_tree;
