//! The inventory window: a grid of item slots, the weight and the zeny.
use super::WindowClass;
use crate::text::{decimal, push_decimal};
use vstd::prelude::*;

verus! {

/// The rows of item slots in the inventory window.
pub const INVENTORY_ROWS: usize = 4;
/// The item slots in each row of the inventory window.
pub const INVENTORY_COLUMNS: usize = 10;

/// A window with the items and the player that the paths point to.
pub struct InventoryWindow<P, A> {
    pub items_path: P,
    pub player_path: A,
}

impl<P, A> InventoryWindow<P, A> {
    pub fn new(items_path: P, player_path: A) -> (window: Self)
        ensures
            window.items_path == items_path,
            window.player_path == player_path,
    {
        Self { items_path, player_path }
    }

    pub fn window_class() -> (class: Option<WindowClass>)
        ensures
            class == Some(WindowClass::Inventory),
    {
        Some(WindowClass::Inventory)
    }

    /// The index of the item shown in the slot at `row` and `column`: the
    /// slots are filled row by row.
    pub fn slot_index(row: usize, column: usize) -> (index: usize)
        requires
            row < INVENTORY_ROWS,
            column < INVENTORY_COLUMNS,
        ensures
            index == row * INVENTORY_COLUMNS + column,
    {
        row * INVENTORY_COLUMNS + column
    }

    /// The weight line.
    pub fn weight_text(weight: u32, max_weight: u32) -> (text: String)
        ensures
            text@ == "Weight: "@ + decimal(weight as nat) + " / "@ + decimal(max_weight as nat),
    {
        let mut text = String::from_str("Weight: ");
        push_decimal(&mut text, weight as u64);
        text.append(" / ");
        push_decimal(&mut text, max_weight as u64);
        text
    }

    /// The zeny line.
    pub fn zeny_text(zeny: u32) -> (text: String)
        ensures
            text@ == "Zeny: "@ + decimal(zeny as nat),
    {
        let mut text = String::from_str("Zeny: ");
        push_decimal(&mut text, zeny as u64);
        text
    }
}

} // verus!
