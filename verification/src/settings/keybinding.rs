//! Configurable keybindings: which key triggers each hotbar slot and each
//! window toggle.
use vstd::prelude::*;

verus! {

/// Represents a key that can be bound to an action.
#[derive(Debug, Clone, Copy, PartialEq, Eq, Structural)]
pub enum BoundKey {
    F1,
    F2,
    F3,
    F4,
    F5,
    F6,
    F7,
    F8,
    F9,
    F10,
    F11,
    F12,
    A,
    B,
    C,
    D,
    E,
    F,
    G,
    H,
    I,
    J,
    K,
    L,
    M,
    N,
    O,
    P,
    Q,
    R,
    S,
    T,
    U,
    V,
    W,
    X,
    Y,
    Z,
    Num0,
    Num1,
    Num2,
    Num3,
    Num4,
    Num5,
    Num6,
    Num7,
    Num8,
    Num9,
}

/// A physical keyboard key. The keys that can be bound have a variant of
/// their own; every other key is [`KeyCode::Other`].
#[derive(Debug, Clone, Copy, PartialEq, Eq, Structural)]
pub enum KeyCode {
    F1,
    F2,
    F3,
    F4,
    F5,
    F6,
    F7,
    F8,
    F9,
    F10,
    F11,
    F12,
    KeyA,
    KeyB,
    KeyC,
    KeyD,
    KeyE,
    KeyF,
    KeyG,
    KeyH,
    KeyI,
    KeyJ,
    KeyK,
    KeyL,
    KeyM,
    KeyN,
    KeyO,
    KeyP,
    KeyQ,
    KeyR,
    KeyS,
    KeyT,
    KeyU,
    KeyV,
    KeyW,
    KeyX,
    KeyY,
    KeyZ,
    Digit0,
    Digit1,
    Digit2,
    Digit3,
    Digit4,
    Digit5,
    Digit6,
    Digit7,
    Digit8,
    Digit9,
    Other,
}

/// The number of keys that can be bound.
pub const BOUND_KEY_COUNT: usize = 48;

/// The position of a key in the list of bindable keys (F1-F12, A-Z, 0-9).
pub open spec fn bound_key_index(key: BoundKey) -> int {
    match key {
        BoundKey::F1 => 0,
        BoundKey::F2 => 1,
        BoundKey::F3 => 2,
        BoundKey::F4 => 3,
        BoundKey::F5 => 4,
        BoundKey::F6 => 5,
        BoundKey::F7 => 6,
        BoundKey::F8 => 7,
        BoundKey::F9 => 8,
        BoundKey::F10 => 9,
        BoundKey::F11 => 10,
        BoundKey::F12 => 11,
        BoundKey::A => 12,
        BoundKey::B => 13,
        BoundKey::C => 14,
        BoundKey::D => 15,
        BoundKey::E => 16,
        BoundKey::F => 17,
        BoundKey::G => 18,
        BoundKey::H => 19,
        BoundKey::I => 20,
        BoundKey::J => 21,
        BoundKey::K => 22,
        BoundKey::L => 23,
        BoundKey::M => 24,
        BoundKey::N => 25,
        BoundKey::O => 26,
        BoundKey::P => 27,
        BoundKey::Q => 28,
        BoundKey::R => 29,
        BoundKey::S => 30,
        BoundKey::T => 31,
        BoundKey::U => 32,
        BoundKey::V => 33,
        BoundKey::W => 34,
        BoundKey::X => 35,
        BoundKey::Y => 36,
        BoundKey::Z => 37,
        BoundKey::Num0 => 38,
        BoundKey::Num1 => 39,
        BoundKey::Num2 => 40,
        BoundKey::Num3 => 41,
        BoundKey::Num4 => 42,
        BoundKey::Num5 => 43,
        BoundKey::Num6 => 44,
        BoundKey::Num7 => 45,
        BoundKey::Num8 => 46,
        BoundKey::Num9 => 47,
    }
}

/// The physical key that a bound key stands for.
pub open spec fn bound_key_code(key: BoundKey) -> KeyCode {
    match key {
        BoundKey::F1 => KeyCode::F1,
        BoundKey::F2 => KeyCode::F2,
        BoundKey::F3 => KeyCode::F3,
        BoundKey::F4 => KeyCode::F4,
        BoundKey::F5 => KeyCode::F5,
        BoundKey::F6 => KeyCode::F6,
        BoundKey::F7 => KeyCode::F7,
        BoundKey::F8 => KeyCode::F8,
        BoundKey::F9 => KeyCode::F9,
        BoundKey::F10 => KeyCode::F10,
        BoundKey::F11 => KeyCode::F11,
        BoundKey::F12 => KeyCode::F12,
        BoundKey::A => KeyCode::KeyA,
        BoundKey::B => KeyCode::KeyB,
        BoundKey::C => KeyCode::KeyC,
        BoundKey::D => KeyCode::KeyD,
        BoundKey::E => KeyCode::KeyE,
        BoundKey::F => KeyCode::KeyF,
        BoundKey::G => KeyCode::KeyG,
        BoundKey::H => KeyCode::KeyH,
        BoundKey::I => KeyCode::KeyI,
        BoundKey::J => KeyCode::KeyJ,
        BoundKey::K => KeyCode::KeyK,
        BoundKey::L => KeyCode::KeyL,
        BoundKey::M => KeyCode::KeyM,
        BoundKey::N => KeyCode::KeyN,
        BoundKey::O => KeyCode::KeyO,
        BoundKey::P => KeyCode::KeyP,
        BoundKey::Q => KeyCode::KeyQ,
        BoundKey::R => KeyCode::KeyR,
        BoundKey::S => KeyCode::KeyS,
        BoundKey::T => KeyCode::KeyT,
        BoundKey::U => KeyCode::KeyU,
        BoundKey::V => KeyCode::KeyV,
        BoundKey::W => KeyCode::KeyW,
        BoundKey::X => KeyCode::KeyX,
        BoundKey::Y => KeyCode::KeyY,
        BoundKey::Z => KeyCode::KeyZ,
        BoundKey::Num0 => KeyCode::Digit0,
        BoundKey::Num1 => KeyCode::Digit1,
        BoundKey::Num2 => KeyCode::Digit2,
        BoundKey::Num3 => KeyCode::Digit3,
        BoundKey::Num4 => KeyCode::Digit4,
        BoundKey::Num5 => KeyCode::Digit5,
        BoundKey::Num6 => KeyCode::Digit6,
        BoundKey::Num7 => KeyCode::Digit7,
        BoundKey::Num8 => KeyCode::Digit8,
        BoundKey::Num9 => KeyCode::Digit9,
    }
}

/// The text shown for a bound key.
pub open spec fn bound_key_text(key: BoundKey) -> Seq<char> {
    match key {
        BoundKey::F1 => "F1"@,
        BoundKey::F2 => "F2"@,
        BoundKey::F3 => "F3"@,
        BoundKey::F4 => "F4"@,
        BoundKey::F5 => "F5"@,
        BoundKey::F6 => "F6"@,
        BoundKey::F7 => "F7"@,
        BoundKey::F8 => "F8"@,
        BoundKey::F9 => "F9"@,
        BoundKey::F10 => "F10"@,
        BoundKey::F11 => "F11"@,
        BoundKey::F12 => "F12"@,
        BoundKey::A => "A"@,
        BoundKey::B => "B"@,
        BoundKey::C => "C"@,
        BoundKey::D => "D"@,
        BoundKey::E => "E"@,
        BoundKey::F => "F"@,
        BoundKey::G => "G"@,
        BoundKey::H => "H"@,
        BoundKey::I => "I"@,
        BoundKey::J => "J"@,
        BoundKey::K => "K"@,
        BoundKey::L => "L"@,
        BoundKey::M => "M"@,
        BoundKey::N => "N"@,
        BoundKey::O => "O"@,
        BoundKey::P => "P"@,
        BoundKey::Q => "Q"@,
        BoundKey::R => "R"@,
        BoundKey::S => "S"@,
        BoundKey::T => "T"@,
        BoundKey::U => "U"@,
        BoundKey::V => "V"@,
        BoundKey::W => "W"@,
        BoundKey::X => "X"@,
        BoundKey::Y => "Y"@,
        BoundKey::Z => "Z"@,
        BoundKey::Num0 => "0"@,
        BoundKey::Num1 => "1"@,
        BoundKey::Num2 => "2"@,
        BoundKey::Num3 => "3"@,
        BoundKey::Num4 => "4"@,
        BoundKey::Num5 => "5"@,
        BoundKey::Num6 => "6"@,
        BoundKey::Num7 => "7"@,
        BoundKey::Num8 => "8"@,
        BoundKey::Num9 => "9"@,
    }
}

impl BoundKey {
    /// Convert a `BoundKey` to the corresponding physical key.
    pub fn to_key_code(self) -> (code: KeyCode)
        ensures
            code == bound_key_code(self),
    {
        match self {
            BoundKey::F1 => KeyCode::F1,
            BoundKey::F2 => KeyCode::F2,
            BoundKey::F3 => KeyCode::F3,
            BoundKey::F4 => KeyCode::F4,
            BoundKey::F5 => KeyCode::F5,
            BoundKey::F6 => KeyCode::F6,
            BoundKey::F7 => KeyCode::F7,
            BoundKey::F8 => KeyCode::F8,
            BoundKey::F9 => KeyCode::F9,
            BoundKey::F10 => KeyCode::F10,
            BoundKey::F11 => KeyCode::F11,
            BoundKey::F12 => KeyCode::F12,
            BoundKey::A => KeyCode::KeyA,
            BoundKey::B => KeyCode::KeyB,
            BoundKey::C => KeyCode::KeyC,
            BoundKey::D => KeyCode::KeyD,
            BoundKey::E => KeyCode::KeyE,
            BoundKey::F => KeyCode::KeyF,
            BoundKey::G => KeyCode::KeyG,
            BoundKey::H => KeyCode::KeyH,
            BoundKey::I => KeyCode::KeyI,
            BoundKey::J => KeyCode::KeyJ,
            BoundKey::K => KeyCode::KeyK,
            BoundKey::L => KeyCode::KeyL,
            BoundKey::M => KeyCode::KeyM,
            BoundKey::N => KeyCode::KeyN,
            BoundKey::O => KeyCode::KeyO,
            BoundKey::P => KeyCode::KeyP,
            BoundKey::Q => KeyCode::KeyQ,
            BoundKey::R => KeyCode::KeyR,
            BoundKey::S => KeyCode::KeyS,
            BoundKey::T => KeyCode::KeyT,
            BoundKey::U => KeyCode::KeyU,
            BoundKey::V => KeyCode::KeyV,
            BoundKey::W => KeyCode::KeyW,
            BoundKey::X => KeyCode::KeyX,
            BoundKey::Y => KeyCode::KeyY,
            BoundKey::Z => KeyCode::KeyZ,
            BoundKey::Num0 => KeyCode::Digit0,
            BoundKey::Num1 => KeyCode::Digit1,
            BoundKey::Num2 => KeyCode::Digit2,
            BoundKey::Num3 => KeyCode::Digit3,
            BoundKey::Num4 => KeyCode::Digit4,
            BoundKey::Num5 => KeyCode::Digit5,
            BoundKey::Num6 => KeyCode::Digit6,
            BoundKey::Num7 => KeyCode::Digit7,
            BoundKey::Num8 => KeyCode::Digit8,
            BoundKey::Num9 => KeyCode::Digit9,
        }
    }

    /// Try to match a physical key to a `BoundKey`.
    pub fn from_key_code(key_code: KeyCode) -> (key: Option<Self>)
        ensures
            key matches Some(k) ==> bound_key_code(k) == key_code,
            key is None ==> forall|k: BoundKey| bound_key_code(k) != key_code,
    {
        match key_code {
            KeyCode::F1 => Some(BoundKey::F1),
            KeyCode::F2 => Some(BoundKey::F2),
            KeyCode::F3 => Some(BoundKey::F3),
            KeyCode::F4 => Some(BoundKey::F4),
            KeyCode::F5 => Some(BoundKey::F5),
            KeyCode::F6 => Some(BoundKey::F6),
            KeyCode::F7 => Some(BoundKey::F7),
            KeyCode::F8 => Some(BoundKey::F8),
            KeyCode::F9 => Some(BoundKey::F9),
            KeyCode::F10 => Some(BoundKey::F10),
            KeyCode::F11 => Some(BoundKey::F11),
            KeyCode::F12 => Some(BoundKey::F12),
            KeyCode::KeyA => Some(BoundKey::A),
            KeyCode::KeyB => Some(BoundKey::B),
            KeyCode::KeyC => Some(BoundKey::C),
            KeyCode::KeyD => Some(BoundKey::D),
            KeyCode::KeyE => Some(BoundKey::E),
            KeyCode::KeyF => Some(BoundKey::F),
            KeyCode::KeyG => Some(BoundKey::G),
            KeyCode::KeyH => Some(BoundKey::H),
            KeyCode::KeyI => Some(BoundKey::I),
            KeyCode::KeyJ => Some(BoundKey::J),
            KeyCode::KeyK => Some(BoundKey::K),
            KeyCode::KeyL => Some(BoundKey::L),
            KeyCode::KeyM => Some(BoundKey::M),
            KeyCode::KeyN => Some(BoundKey::N),
            KeyCode::KeyO => Some(BoundKey::O),
            KeyCode::KeyP => Some(BoundKey::P),
            KeyCode::KeyQ => Some(BoundKey::Q),
            KeyCode::KeyR => Some(BoundKey::R),
            KeyCode::KeyS => Some(BoundKey::S),
            KeyCode::KeyT => Some(BoundKey::T),
            KeyCode::KeyU => Some(BoundKey::U),
            KeyCode::KeyV => Some(BoundKey::V),
            KeyCode::KeyW => Some(BoundKey::W),
            KeyCode::KeyX => Some(BoundKey::X),
            KeyCode::KeyY => Some(BoundKey::Y),
            KeyCode::KeyZ => Some(BoundKey::Z),
            KeyCode::Digit0 => Some(BoundKey::Num0),
            KeyCode::Digit1 => Some(BoundKey::Num1),
            KeyCode::Digit2 => Some(BoundKey::Num2),
            KeyCode::Digit3 => Some(BoundKey::Num3),
            KeyCode::Digit4 => Some(BoundKey::Num4),
            KeyCode::Digit5 => Some(BoundKey::Num5),
            KeyCode::Digit6 => Some(BoundKey::Num6),
            KeyCode::Digit7 => Some(BoundKey::Num7),
            KeyCode::Digit8 => Some(BoundKey::Num8),
            KeyCode::Digit9 => Some(BoundKey::Num9),
            KeyCode::Other => None,
        }
    }

    /// The text shown for this key, e.g. in drop-down menus.
    pub fn text(&self) -> (text: &'static str)
        ensures
            text@ == bound_key_text(*self),
    {
        match self {
            BoundKey::F1 => "F1",
            BoundKey::F2 => "F2",
            BoundKey::F3 => "F3",
            BoundKey::F4 => "F4",
            BoundKey::F5 => "F5",
            BoundKey::F6 => "F6",
            BoundKey::F7 => "F7",
            BoundKey::F8 => "F8",
            BoundKey::F9 => "F9",
            BoundKey::F10 => "F10",
            BoundKey::F11 => "F11",
            BoundKey::F12 => "F12",
            BoundKey::A => "A",
            BoundKey::B => "B",
            BoundKey::C => "C",
            BoundKey::D => "D",
            BoundKey::E => "E",
            BoundKey::F => "F",
            BoundKey::G => "G",
            BoundKey::H => "H",
            BoundKey::I => "I",
            BoundKey::J => "J",
            BoundKey::K => "K",
            BoundKey::L => "L",
            BoundKey::M => "M",
            BoundKey::N => "N",
            BoundKey::O => "O",
            BoundKey::P => "P",
            BoundKey::Q => "Q",
            BoundKey::R => "R",
            BoundKey::S => "S",
            BoundKey::T => "T",
            BoundKey::U => "U",
            BoundKey::V => "V",
            BoundKey::W => "W",
            BoundKey::X => "X",
            BoundKey::Y => "Y",
            BoundKey::Z => "Z",
            BoundKey::Num0 => "0",
            BoundKey::Num1 => "1",
            BoundKey::Num2 => "2",
            BoundKey::Num3 => "3",
            BoundKey::Num4 => "4",
            BoundKey::Num5 => "5",
            BoundKey::Num6 => "6",
            BoundKey::Num7 => "7",
            BoundKey::Num8 => "8",
            BoundKey::Num9 => "9",
        }
    }

    /// The value represented by this key in a drop-down menu: the key itself.
    pub fn value(&self) -> (key: BoundKey)
        ensures
            key == *self,
    {
        *self
    }
}

/// The position of a physical key among the keys that can be bound, in
/// the keyboard's order F1-F12, A-Z, 0-9; every other key comes after them.
pub open spec fn key_code_index(code: KeyCode) -> int {
    match code {
        KeyCode::F1 => 0,
        KeyCode::F2 => 1,
        KeyCode::F3 => 2,
        KeyCode::F4 => 3,
        KeyCode::F5 => 4,
        KeyCode::F6 => 5,
        KeyCode::F7 => 6,
        KeyCode::F8 => 7,
        KeyCode::F9 => 8,
        KeyCode::F10 => 9,
        KeyCode::F11 => 10,
        KeyCode::F12 => 11,
        KeyCode::KeyA => 12,
        KeyCode::KeyB => 13,
        KeyCode::KeyC => 14,
        KeyCode::KeyD => 15,
        KeyCode::KeyE => 16,
        KeyCode::KeyF => 17,
        KeyCode::KeyG => 18,
        KeyCode::KeyH => 19,
        KeyCode::KeyI => 20,
        KeyCode::KeyJ => 21,
        KeyCode::KeyK => 22,
        KeyCode::KeyL => 23,
        KeyCode::KeyM => 24,
        KeyCode::KeyN => 25,
        KeyCode::KeyO => 26,
        KeyCode::KeyP => 27,
        KeyCode::KeyQ => 28,
        KeyCode::KeyR => 29,
        KeyCode::KeyS => 30,
        KeyCode::KeyT => 31,
        KeyCode::KeyU => 32,
        KeyCode::KeyV => 33,
        KeyCode::KeyW => 34,
        KeyCode::KeyX => 35,
        KeyCode::KeyY => 36,
        KeyCode::KeyZ => 37,
        KeyCode::Digit0 => 38,
        KeyCode::Digit1 => 39,
        KeyCode::Digit2 => 40,
        KeyCode::Digit3 => 41,
        KeyCode::Digit4 => 42,
        KeyCode::Digit5 => 43,
        KeyCode::Digit6 => 44,
        KeyCode::Digit7 => 45,
        KeyCode::Digit8 => 46,
        KeyCode::Digit9 => 47,
        KeyCode::Other => 48,
    }
}

/// The label printed on a physical key that can be bound.
pub open spec fn key_code_label(code: KeyCode) -> Option<Seq<char>> {
    match code {
        KeyCode::F1 => Some("F1"@),
        KeyCode::F2 => Some("F2"@),
        KeyCode::F3 => Some("F3"@),
        KeyCode::F4 => Some("F4"@),
        KeyCode::F5 => Some("F5"@),
        KeyCode::F6 => Some("F6"@),
        KeyCode::F7 => Some("F7"@),
        KeyCode::F8 => Some("F8"@),
        KeyCode::F9 => Some("F9"@),
        KeyCode::F10 => Some("F10"@),
        KeyCode::F11 => Some("F11"@),
        KeyCode::F12 => Some("F12"@),
        KeyCode::KeyA => Some("A"@),
        KeyCode::KeyB => Some("B"@),
        KeyCode::KeyC => Some("C"@),
        KeyCode::KeyD => Some("D"@),
        KeyCode::KeyE => Some("E"@),
        KeyCode::KeyF => Some("F"@),
        KeyCode::KeyG => Some("G"@),
        KeyCode::KeyH => Some("H"@),
        KeyCode::KeyI => Some("I"@),
        KeyCode::KeyJ => Some("J"@),
        KeyCode::KeyK => Some("K"@),
        KeyCode::KeyL => Some("L"@),
        KeyCode::KeyM => Some("M"@),
        KeyCode::KeyN => Some("N"@),
        KeyCode::KeyO => Some("O"@),
        KeyCode::KeyP => Some("P"@),
        KeyCode::KeyQ => Some("Q"@),
        KeyCode::KeyR => Some("R"@),
        KeyCode::KeyS => Some("S"@),
        KeyCode::KeyT => Some("T"@),
        KeyCode::KeyU => Some("U"@),
        KeyCode::KeyV => Some("V"@),
        KeyCode::KeyW => Some("W"@),
        KeyCode::KeyX => Some("X"@),
        KeyCode::KeyY => Some("Y"@),
        KeyCode::KeyZ => Some("Z"@),
        KeyCode::Digit0 => Some("0"@),
        KeyCode::Digit1 => Some("1"@),
        KeyCode::Digit2 => Some("2"@),
        KeyCode::Digit3 => Some("3"@),
        KeyCode::Digit4 => Some("4"@),
        KeyCode::Digit5 => Some("5"@),
        KeyCode::Digit6 => Some("6"@),
        KeyCode::Digit7 => Some("7"@),
        KeyCode::Digit8 => Some("8"@),
        KeyCode::Digit9 => Some("9"@),
        KeyCode::Other => None,
    }
}

/// Each bound key stands for the physical key of the same function key,
/// letter or digit: the physical key has the bound key's position in the
/// order F1-F12, A-Z, 0-9, and carries the label that the bound key is
/// shown with. So a physical key is taken for a bound key exactly where it
/// is that key's physical key.
pub proof fn law_bound_key_is_its_physical_key(key: BoundKey, code: KeyCode)
    ensures
        key_code_index(bound_key_code(key)) == bound_key_index(key),
        key_code_label(bound_key_code(key)) == Some(bound_key_text(key)),
        bound_key_code(key) == code <==> key_code_index(code) == bound_key_index(key),
{
}

/// Converting a bound key to its physical key and back gives the bound key
/// again.
pub proof fn law_key_code_round_trip(key: BoundKey)
    ensures
        forall|other: BoundKey| bound_key_code(other) == bound_key_code(key) ==> other == key,
        bound_key_code(key) != KeyCode::Other,
{
}

/// Every bound key has its own position in the list of bindable keys.
pub proof fn law_bound_key_index_injective(a: BoundKey, b: BoundKey)
    ensures
        0 <= bound_key_index(a) < BOUND_KEY_COUNT,
        bound_key_index(a) == bound_key_index(b) ==> a == b,
{
}

/// A window that a keybinding can open or close.
#[derive(Debug, Clone, Copy, PartialEq, Eq, Structural)]
pub enum WindowToggle {
    Inventory,
    Equipment,
    SkillTree,
    Stats,
    FriendList,
    Party,
    Guild,
    Quest,
    Minimap,
}

/// The order in which window toggles are matched against a pressed key.
pub open spec fn window_toggle_rank(toggle: WindowToggle) -> int {
    match toggle {
        WindowToggle::Inventory => 0,
        WindowToggle::Equipment => 1,
        WindowToggle::SkillTree => 2,
        WindowToggle::Stats => 3,
        WindowToggle::FriendList => 4,
        WindowToggle::Party => 5,
        WindowToggle::Guild => 6,
        WindowToggle::Quest => 7,
        WindowToggle::Minimap => 8,
    }
}

/// Configurable keybinding settings with named fields for each hotbar slot.
#[derive(Clone, Copy, Debug)]
pub struct KeybindingSettings {
    pub hotbar_slot_1: BoundKey,
    pub hotbar_slot_2: BoundKey,
    pub hotbar_slot_3: BoundKey,
    pub hotbar_slot_4: BoundKey,
    pub hotbar_slot_5: BoundKey,
    pub hotbar_slot_6: BoundKey,
    pub hotbar_slot_7: BoundKey,
    pub hotbar_slot_8: BoundKey,
    pub hotbar_slot_9: BoundKey,
    pub hotbar_slot_10: BoundKey,
    pub toggle_inventory: BoundKey,
    pub toggle_equipment: BoundKey,
    pub toggle_skill_tree: BoundKey,
    pub toggle_stats: BoundKey,
    pub toggle_friend_list: BoundKey,
    pub toggle_party: BoundKey,
    pub toggle_guild: BoundKey,
    pub toggle_quest: BoundKey,
    pub toggle_minimap: BoundKey,
}

impl KeybindingSettings {
    /// The key bound to a window toggle.
    pub open spec fn toggle_binding(&self, toggle: WindowToggle) -> BoundKey {
        match toggle {
            WindowToggle::Inventory => self.toggle_inventory,
            WindowToggle::Equipment => self.toggle_equipment,
            WindowToggle::SkillTree => self.toggle_skill_tree,
            WindowToggle::Stats => self.toggle_stats,
            WindowToggle::FriendList => self.toggle_friend_list,
            WindowToggle::Party => self.toggle_party,
            WindowToggle::Guild => self.toggle_guild,
            WindowToggle::Quest => self.toggle_quest,
            WindowToggle::Minimap => self.toggle_minimap,
        }
    }

    /// The hotbar slot bindings in slot order.
    pub open spec fn hotbar_bindings(&self) -> Seq<BoundKey> {
        seq![
            self.hotbar_slot_1,
            self.hotbar_slot_2,
            self.hotbar_slot_3,
            self.hotbar_slot_4,
            self.hotbar_slot_5,
            self.hotbar_slot_6,
            self.hotbar_slot_7,
            self.hotbar_slot_8,
            self.hotbar_slot_9,
            self.hotbar_slot_10,
        ]
    }

}

impl Default for KeybindingSettings {
    /// The default bindings: F1-F10 for the hotbar, E/Q/T/A/Z/P/G/U/M for the
    /// window toggles.
    fn default() -> (settings: Self)
        ensures
            settings.hotbar_bindings() == seq![
                BoundKey::F1, BoundKey::F2, BoundKey::F3, BoundKey::F4, BoundKey::F5, BoundKey::F6, BoundKey::F7, BoundKey::F8, BoundKey::F9, BoundKey::F10,
            ],
            settings.toggle_inventory == BoundKey::E,
            settings.toggle_equipment == BoundKey::Q,
            settings.toggle_skill_tree == BoundKey::T,
            settings.toggle_stats == BoundKey::A,
            settings.toggle_friend_list == BoundKey::Z,
            settings.toggle_party == BoundKey::P,
            settings.toggle_guild == BoundKey::G,
            settings.toggle_quest == BoundKey::U,
            settings.toggle_minimap == BoundKey::M,
    {
        Self {
            hotbar_slot_1: BoundKey::F1,
            hotbar_slot_2: BoundKey::F2,
            hotbar_slot_3: BoundKey::F3,
            hotbar_slot_4: BoundKey::F4,
            hotbar_slot_5: BoundKey::F5,
            hotbar_slot_6: BoundKey::F6,
            hotbar_slot_7: BoundKey::F7,
            hotbar_slot_8: BoundKey::F8,
            hotbar_slot_9: BoundKey::F9,
            hotbar_slot_10: BoundKey::F10,
            toggle_inventory: BoundKey::E,
            toggle_equipment: BoundKey::Q,
            toggle_skill_tree: BoundKey::T,
            toggle_stats: BoundKey::A,
            toggle_friend_list: BoundKey::Z,
            toggle_party: BoundKey::P,
            toggle_guild: BoundKey::G,
            toggle_quest: BoundKey::U,
            toggle_minimap: BoundKey::M,
        }
    }
}

impl KeybindingSettings {
    /// Returns all hotbar slot bindings as an array for iteration.
    pub fn hotbar_slots(&self) -> (slots: [BoundKey; 10])
        ensures
            slots@ == self.hotbar_bindings(),
    {
        [
            self.hotbar_slot_1,
            self.hotbar_slot_2,
            self.hotbar_slot_3,
            self.hotbar_slot_4,
            self.hotbar_slot_5,
            self.hotbar_slot_6,
            self.hotbar_slot_7,
            self.hotbar_slot_8,
            self.hotbar_slot_9,
            self.hotbar_slot_10,
        ]
    }

    /// Find the window toggle that the given key triggers (using the Alt
    /// modifier). When several toggles share the key, the one first in
    /// the order inventory, equipment, skill tree, stats, friend list, party,
    /// guild, quest, minimap wins.
    pub fn find_window_toggle(&self, key_code: KeyCode) -> (toggle: Option<WindowToggle>)
        ensures
            toggle matches Some(t) ==> {
                &&& bound_key_code(self.toggle_binding(t)) == key_code
                &&& forall|u: WindowToggle|
                    window_toggle_rank(u) < window_toggle_rank(t) ==> bound_key_code(self.toggle_binding(u)) != key_code
            },
            toggle is None ==> forall|u: WindowToggle| bound_key_code(#[trigger] self.toggle_binding(u)) != key_code,
    {
        if let Some(bound_key) = BoundKey::from_key_code(key_code) {
            if self.toggle_inventory == bound_key {
                return Some(WindowToggle::Inventory);
            }
            if self.toggle_equipment == bound_key {
                return Some(WindowToggle::Equipment);
            }
            if self.toggle_skill_tree == bound_key {
                return Some(WindowToggle::SkillTree);
            }
            if self.toggle_stats == bound_key {
                return Some(WindowToggle::Stats);
            }
            if self.toggle_friend_list == bound_key {
                return Some(WindowToggle::FriendList);
            }
            if self.toggle_party == bound_key {
                return Some(WindowToggle::Party);
            }
            if self.toggle_guild == bound_key {
                return Some(WindowToggle::Guild);
            }
            if self.toggle_quest == bound_key {
                return Some(WindowToggle::Quest);
            }
            if self.toggle_minimap == bound_key {
                return Some(WindowToggle::Minimap);
            }
        }
        None
    }
}

/// Available key options for the keybinding settings drop-downs.
pub struct KeybindingCapabilities {
    available_keys: Vec<BoundKey>,
}

impl KeybindingCapabilities {
    /// The keys offered in the drop-downs.
    pub closed spec fn keys(&self) -> Seq<BoundKey> {
        self.available_keys@
    }

}

impl Default for KeybindingCapabilities {
    /// All bindable keys, in the order F1-F12, A-Z, 0-9.
    fn default() -> (capabilities: Self)
        ensures
            capabilities.keys().len() == BOUND_KEY_COUNT,
            forall|i: int| 0 <= i < BOUND_KEY_COUNT ==> bound_key_index(#[trigger] capabilities.keys()[i]) == i,
    {
        Self {
            available_keys: vec![
                BoundKey::F1, BoundKey::F2, BoundKey::F3, BoundKey::F4, BoundKey::F5, BoundKey::F6, BoundKey::F7, BoundKey::F8, BoundKey::F9, BoundKey::F10, BoundKey::F11, BoundKey::F12, BoundKey::A, BoundKey::B, BoundKey::C, BoundKey::D, BoundKey::E, BoundKey::F, BoundKey::G, BoundKey::H, BoundKey::I, BoundKey::J, BoundKey::K, BoundKey::L, BoundKey::M, BoundKey::N, BoundKey::O, BoundKey::P, BoundKey::Q, BoundKey::R, BoundKey::S, BoundKey::T, BoundKey::U, BoundKey::V, BoundKey::W, BoundKey::X, BoundKey::Y, BoundKey::Z, BoundKey::Num0, BoundKey::Num1, BoundKey::Num2, BoundKey::Num3, BoundKey::Num4, BoundKey::Num5, BoundKey::Num6, BoundKey::Num7, BoundKey::Num8, BoundKey::Num9,
            ],
        }
    }
}

impl KeybindingCapabilities {
    /// The keys offered in the drop-downs.
    pub fn available_keys(&self) -> (keys: &Vec<BoundKey>)
        ensures
            keys@ == self.keys(),
    {
        &self.available_keys
    }
}

} // verus!
