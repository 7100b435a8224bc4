//! The heads-up display with the player's levels and zeny.
use super::WindowClass;
use crate::text::{decimal, push_decimal};
use vstd::prelude::*;

verus! {

/// The heads-up display of the player that the path points to.
pub struct HudWindow<A> {
    pub player_path: A,
}

impl<A> HudWindow<A> {
    pub fn new(player_path: A) -> (window: Self)
        ensures
            window.player_path == player_path,
    {
        Self { player_path }
    }

    pub fn window_class() -> (class: Option<WindowClass>)
        ensures
            class == Some(WindowClass::Hud),
    {
        Some(WindowClass::Hud)
    }

    /// The level line: base level and job level.
    pub fn level_text(base_level: usize, job_level: usize) -> (text: String)
        ensures
            text@ == "Lv "@ + decimal(base_level as nat) + " / Job "@ + decimal(job_level as nat),
    {
        let mut text = String::from_str("Lv ");
        push_decimal(&mut text, base_level as u64);
        text.append(" / Job ");
        push_decimal(&mut text, job_level as u64);
        text
    }

    /// The zeny line.
    pub fn zeny_text(zeny: u32) -> (text: String)
        ensures
            text@ == "Zeny: "@ + decimal(zeny as nat),
    {
        let mut text = String::from_str("Zeny: ");
        push_decimal(&mut text, zeny as u64);
        text
    }
}

} // verus!
