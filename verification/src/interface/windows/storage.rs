//! The storage window: a grid of item slots.
use super::WindowClass;
use crate::text::{starts_with, starts_with_str};
use vstd::prelude::*;

verus! {

/// The rows of item slots in the storage window.
pub const STORAGE_ROWS: usize = 6;
/// The item slots in each row of the storage window.
pub const STORAGE_COLUMNS: usize = 10;

/// A window with the stored items that the path points to.
pub struct StorageWindow<P> {
    pub items_path: P,
}

impl<P> StorageWindow<P> {
    pub fn new(items_path: P) -> (window: Self)
        ensures
            window.items_path == items_path,
    {
        Self { items_path }
    }

    pub fn window_class() -> (class: Option<WindowClass>)
        ensures
            class == Some(WindowClass::Storage),
    {
        Some(WindowClass::Storage)
    }

    /// The index of the item shown in the slot at `row` and `column`: the
    /// slots are filled row by row.
    pub fn slot_index(row: usize, column: usize) -> (index: usize)
        requires
            row < STORAGE_ROWS,
            column < STORAGE_COLUMNS,
        ensures
            index == row * STORAGE_COLUMNS + column,
    {
        row * STORAGE_COLUMNS + column
    }
}

/// The window of a player's vending shop.
pub struct VendingWindow;

impl VendingWindow {
    pub fn window_class() -> (class: Option<WindowClass>)
        ensures
            class == Some(WindowClass::Vending),
    {
        Some(WindowClass::Vending)
    }
}

/// The window that edits the keybindings that the first path points to,
/// offering the keys that the second path points to.
pub struct KeybindingSettingsWindow<A, B> {
    pub settings_path: A,
    pub capabilities_path: B,
}

impl<A, B> KeybindingSettingsWindow<A, B> {
    pub fn new(settings_path: A, capabilities_path: B) -> (window: Self)
        ensures
            window.settings_path == settings_path,
            window.capabilities_path == capabilities_path,
    {
        Self { settings_path, capabilities_path }
    }

    pub fn window_class() -> (class: Option<WindowClass>)
        ensures
            class == Some(WindowClass::KeybindingSettings),
    {
        Some(WindowClass::KeybindingSettings)
    }
}

/// The window with the player's pet and homunculus, where they have one.
pub struct PetInfoWindow<P, H> {
    pub pet_info: Option<P>,
    pub homunculus_info: Option<H>,
}

impl<P, H> PetInfoWindow<P, H> {
    pub fn new(pet_info: Option<P>, homunculus_info: Option<H>) -> (window: Self)
        ensures
            window.pet_info == pet_info,
            window.homunculus_info == homunculus_info,
    {
        Self { pet_info, homunculus_info }
    }

    pub fn window_class() -> (class: Option<WindowClass>)
        ensures
            class == Some(WindowClass::PetInfo),
    {
        Some(WindowClass::PetInfo)
    }

    /// The color of a line of the window: headings (which start with the
    /// orange color code) are orange, other lines light gray.
    pub fn line_color(line: &str) -> (color: (u8, u8, u8))
        ensures
            color == (if starts_with(line@, "^ff8800"@) {
                (255u8, 136u8, 0u8)
            } else {
                (220u8, 220u8, 220u8)
            }),
    {
        if starts_with_str(line, "^ff8800") {
            (255, 136, 0)
        } else {
            (220, 220, 220)
        }
    }
}

} // verus!
