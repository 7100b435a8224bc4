//! The game's windows.
use vstd::prelude::*;

pub mod character_creation;
pub mod context_menu;
pub mod cutin;
pub mod delete_character_confirm;
pub mod guild;
pub mod hud;
pub mod inventory;
pub mod mail;
pub mod minimap;
pub mod party;
pub mod pet_egg_select;
pub mod quest;
pub mod status_effects;
pub mod storage;
pub mod tooltip;
pub mod trade;
pub mod trade_request;

verus! {

/// The kind of a window; at most one window of each kind is open.
#[derive(Debug, Clone, Copy, Hash, PartialEq, Eq, Structural)]
pub enum WindowClass {
    AudioSettings,
    Buy,
    BuyCart,
    BuyOrSell,
    Chat,
    CharacterCreation,
    CharacterOverview,
    CharacterSelection,
    DeleteCharacterConfirm,
    Dialog,
    GameSettings,
    InterfaceSettings,
    GraphicsSettings,
    Hotbar,
    Hud,
    Inventory,
    Equipment,
    Guild,
    KeybindingSettings,
    Mail,
    Minimap,
    PetInfo,
    Quest,
    SkillTree,
    Stats,
    StatusEffects,
    FriendList,
    FriendRequest,
    Login,
    Storage,
    Vending,
    Menu,
    Respawn,
    SelectServer,
    Sell,
    SellCart,
    Party,
    PartyInvite,
    Trade,
    TradeRequest,
    PetEggSelect,
    Cutin,
    ContextMenu,
    Tooltip,
}

} // verus!
