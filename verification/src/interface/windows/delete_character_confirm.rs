//! The window that confirms the deletion of a character.
use super::WindowClass;
use vstd::prelude::*;

verus! {

/// Asks whether to delete the character `character_name`.
pub struct DeleteCharacterConfirmWindow {
    pub character_id: u32,
    pub character_name: String,
}

impl DeleteCharacterConfirmWindow {
    pub fn new(character_id: u32, character_name: String) -> (window: Self)
        ensures
            window.character_id == character_id,
            window.character_name == character_name,
    {
        Self { character_id, character_name }
    }

    pub fn window_class() -> (class: Option<WindowClass>)
        ensures
            class == Some(WindowClass::DeleteCharacterConfirm),
    {
        Some(WindowClass::DeleteCharacterConfirm)
    }

    /// The question that the window asks, with the name in red.
    pub fn prompt(&self) -> (text: String)
        ensures
            text@ == "Are you sure you want to delete ^FF0000"@ + self.character_name@
                + "^000000?"@,
    {
        let mut text = String::from_str("Are you sure you want to delete ^FF0000");
        text.append(self.character_name.as_str());
        text.append("^000000?");
        text
    }
}

} // verus!
