//! The window in which a new character is named and styled.
use super::WindowClass;
use vstd::prelude::*;

verus! {

/// The fewest bytes that a character name can have.
pub const MINIMUM_NAME_LENGTH: usize = 4;
/// The most characters that the name field takes.
pub const MAXIMUM_NAME_LENGTH: usize = 24;
/// The highest hair style.
pub const MAXIMUM_HAIR_STYLE: u16 = 25;
/// The highest hair color.
pub const MAXIMUM_HAIR_COLOR: u16 = 8;

/// The value before `value` in the cycle `0..=maximum`: from 0 the cycle
/// wraps to `maximum`.
pub open spec fn previous_in_cycle(value: u16, maximum: u16) -> u16 {
    if value == 0 {
        maximum
    } else {
        (value - 1) as u16
    }
}

/// The value after `value` in the cycle `0..=maximum`: from `maximum` (or
/// beyond) the cycle wraps to 0.
pub open spec fn next_in_cycle(value: u16, maximum: u16) -> u16 {
    if value >= maximum {
        0
    } else {
        (value + 1) as u16
    }
}

fn step_back(value: u16, maximum: u16) -> (previous: u16)
    ensures
        previous == previous_in_cycle(value, maximum),
{
    match value.checked_sub(1) {
        Some(v) => v,
        None => maximum,
    }
}

fn step_forward(value: u16, maximum: u16) -> (next: u16)
    ensures
        next == next_in_cycle(value, maximum),
{
    if value >= maximum {
        0
    } else {
        value + 1
    }
}

/// Within `0..=maximum`, stepping back and then forward (or forward and
/// then back) returns to the value it started from.
pub proof fn law_cycle_steps_undo(value: u16, maximum: u16)
    requires
        value <= maximum,
    ensures
        next_in_cycle(previous_in_cycle(value, maximum), maximum) == value,
        previous_in_cycle(next_in_cycle(value, maximum), maximum) == value,
        previous_in_cycle(value, maximum) <= maximum,
        next_in_cycle(value, maximum) <= maximum,
{
}

/// The request that the create button queues: make a character named
/// `name` with the hair style and color in `slot`.
pub struct CreateCharacter {
    pub slot: usize,
    pub name: String,
    pub hair_style: u16,
    pub hair_color: u16,
}

/// The window for creating a character in a slot: it edits the name, hair
/// style and hair color that the three paths point to.
pub struct CharacterCreationWindow<A, B, C> {
    pub character_name_path: A,
    pub hair_style_path: B,
    pub hair_color_path: C,
    pub slot: usize,
}

impl<A, B, C> CharacterCreationWindow<A, B, C> {
    pub fn new(character_name_path: A, hair_style_path: B, hair_color_path: C, slot: usize) -> (window:
        Self)
        ensures
            window.character_name_path == character_name_path,
            window.hair_style_path == hair_style_path,
            window.hair_color_path == hair_color_path,
            window.slot == slot,
    {
        Self { character_name_path, hair_style_path, hair_color_path, slot }
    }

    pub fn window_class() -> (class: Option<WindowClass>)
        ensures
            class == Some(WindowClass::CharacterCreation),
    {
        Some(WindowClass::CharacterCreation)
    }

    /// The hair style that the "<" button selects after `style`.
    pub fn previous_hair_style(style: u16) -> (previous: u16)
        ensures
            previous == previous_in_cycle(style, MAXIMUM_HAIR_STYLE),
    {
        step_back(style, MAXIMUM_HAIR_STYLE)
    }

    /// The hair style that the ">" button selects after `style`.
    pub fn next_hair_style(style: u16) -> (next: u16)
        ensures
            next == next_in_cycle(style, MAXIMUM_HAIR_STYLE),
    {
        step_forward(style, MAXIMUM_HAIR_STYLE)
    }

    /// The hair color that the "<" button selects after `color`.
    pub fn previous_hair_color(color: u16) -> (previous: u16)
        ensures
            previous == previous_in_cycle(color, MAXIMUM_HAIR_COLOR),
    {
        step_back(color, MAXIMUM_HAIR_COLOR)
    }

    /// The hair color that the ">" button selects after `color`.
    pub fn next_hair_color(color: u16) -> (next: u16)
        ensures
            next == next_in_cycle(color, MAXIMUM_HAIR_COLOR),
    {
        step_forward(color, MAXIMUM_HAIR_COLOR)
    }

    /// Whether the create button is disabled for `name`: it is while the
    /// name is shorter than [`MINIMUM_NAME_LENGTH`] bytes.
    pub fn is_creation_disabled(name: &str) -> (disabled: bool)
        ensures
            disabled == (name.len() < MINIMUM_NAME_LENGTH),
    {
        name.len() < MINIMUM_NAME_LENGTH
    }

    /// The request that creating the character queues (by the create
    /// button, or by confirming the name field): this window's slot with
    /// the name, hair style and hair color that the state holds.
    pub fn create_request(&self, name: &str, hair_style: u16, hair_color: u16) -> (request:
        CreateCharacter)
        ensures
            request.slot == self.slot,
            request.name@ == name@,
            request.hair_style == hair_style,
            request.hair_color == hair_color,
    {
        CreateCharacter {
            slot: self.slot,
            name: String::from_str(name),
            hair_style,
            hair_color,
        }
    }

    /// What pressing the create button does: nothing while it is disabled
    /// (the name is shorter than [`MINIMUM_NAME_LENGTH`] bytes), otherwise
    /// it queues the [`create_request`](Self::create_request).
    pub fn press_create_button(&self, name: &str, hair_style: u16, hair_color: u16) -> (request:
        Option<CreateCharacter>)
        ensures
            match request {
                None => name.len() < MINIMUM_NAME_LENGTH,
                Some(r) => {
                    &&& name.len() >= MINIMUM_NAME_LENGTH
                    &&& r.slot == self.slot
                    &&& r.name@ == name@
                    &&& r.hair_style == hair_style
                    &&& r.hair_color == hair_color
                },
            },
    {
        if Self::is_creation_disabled(name) {
            None
        } else {
            Some(self.create_request(name, hair_style, hair_color))
        }
    }
}

} // verus!
