//! What the player has: the skill tree.
pub mod skills;
