//! Where items and skills shown in the interface come from.
use vstd::prelude::*;

verus! {

/// Where an item is shown, and so where it moves from or to.
#[derive(Debug, Clone, Copy, PartialEq, Eq, Structural)]
pub enum ItemSource {
    Inventory,
    Storage,
    /// An equipment slot, by its equip position.
    Equipment { position: u32 },
}

/// Where a skill is shown.
#[derive(Debug, Clone, Copy, PartialEq, Eq, Structural)]
pub enum SkillSource {
    SkillTree,
    /// A hotbar slot, by its number.
    Hotbar { slot: u16 },
}

} // verus!
