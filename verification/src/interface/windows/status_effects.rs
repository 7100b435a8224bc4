//! The list of the player's active status effects.
use super::WindowClass;
use vstd::prelude::*;

verus! {

/// A window with the status effects that the path points to.
pub struct StatusEffectsWindow<P> {
    pub effects_path: P,
}

impl<P> StatusEffectsWindow<P> {
    pub fn new(effects_path: P) -> (window: Self)
        ensures
            window.effects_path == effects_path,
    {
        Self { effects_path }
    }

    pub fn window_class() -> (class: Option<WindowClass>)
        ensures
            class == Some(WindowClass::StatusEffects),
    {
        Some(WindowClass::StatusEffects)
    }

    /// The line of an effect: its name, with the remaining time in
    /// parentheses where there is one to show.
    pub fn effect_text(name: &str, remaining: &str) -> (text: String)
        ensures
            text@ == (if remaining@.len() == 0 {
                name@
            } else {
                name@ + " ("@ + remaining@ + ")"@
            }),
    {
        if remaining.is_empty() {
            String::from_str(name)
        } else {
            let mut text = String::from_str(name);
            text.append(" (");
            text.append(remaining);
            text.append(")");
            text
        }
    }
}

} // verus!
