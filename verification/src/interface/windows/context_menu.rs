//! The menu shown on a right click on an entity.
use super::minimap::EntityType;
use super::WindowClass;
use vstd::prelude::*;

verus! {

/// What a menu entry asks for.
#[derive(Debug, Clone, PartialEq, Eq)]
pub enum MenuAction {
    RequestTrade { entity_id: u32 },
    InviteToParty { character_name: String },
    PlayerInteract { entity_id: u32 },
}

/// One button of the menu.
#[derive(Debug, Clone)]
pub struct MenuEntry {
    pub label: String,
    pub action: MenuAction,
}

/// Whether `entry` is labeled `label` and asks for `action`.
pub open spec fn is_entry(entry: MenuEntry, label: Seq<char>, action: MenuAction) -> bool {
    entry.label@ == label && entry.action == action
}

/// Whether `entries` are the menu of an entity: a player can be traded
/// with, invited to the party (by name) or attacked; a monster attacked; an
/// NPC talked to; anything else interacted with.
pub open spec fn is_entity_menu(
    entries: Seq<MenuEntry>,
    entity_name: String,
    entity_id: u32,
    entity_type: EntityType,
) -> bool {
    match entity_type {
        EntityType::Player => {
            &&& entries.len() == 3
            &&& is_entry(entries[0], "Trade"@, MenuAction::RequestTrade { entity_id })
            &&& entries[1].label@ == "Party Invite"@
            &&& entries[1].action matches MenuAction::InviteToParty { character_name }
                && character_name@ == entity_name@
            &&& is_entry(entries[2], "Attack"@, MenuAction::PlayerInteract { entity_id })
        },
        EntityType::Monster => entries.len() == 1 && is_entry(
            entries[0],
            "Attack"@,
            MenuAction::PlayerInteract { entity_id },
        ),
        EntityType::Npc => entries.len() == 1 && is_entry(
            entries[0],
            "Talk"@,
            MenuAction::PlayerInteract { entity_id },
        ),
        _ => entries.len() == 1 && is_entry(
            entries[0],
            "Interact"@,
            MenuAction::PlayerInteract { entity_id },
        ),
    }
}

/// The context menu of an entity, titled with its name.
pub struct ContextMenuWindow {
    pub entries: Vec<MenuEntry>,
    pub title: String,
}

fn entry(label: &str, action: MenuAction) -> (entry: MenuEntry)
    ensures
        is_entry(entry, label@, action),
{
    MenuEntry { label: String::from_str(label), action }
}

impl ContextMenuWindow {
    pub fn new(entity_name: String, entity_id: u32, entity_type: EntityType) -> (window: Self)
        ensures
            window.title == entity_name,
            is_entity_menu(window.entries@, entity_name, entity_id, entity_type),
    {
        let mut entries = Vec::new();
        match entity_type {
            EntityType::Player => {
                entries.push(entry("Trade", MenuAction::RequestTrade { entity_id }));
                let character_name = entity_name.clone();
                entries.push(
                    entry("Party Invite", MenuAction::InviteToParty { character_name }),
                );
                entries.push(entry("Attack", MenuAction::PlayerInteract { entity_id }));
            },
            EntityType::Monster => {
                entries.push(entry("Attack", MenuAction::PlayerInteract { entity_id }));
            },
            EntityType::Npc => {
                entries.push(entry("Talk", MenuAction::PlayerInteract { entity_id }));
            },
            _ => {
                entries.push(entry("Interact", MenuAction::PlayerInteract { entity_id }));
            },
        }
        Self { entries, title: entity_name }
    }

    pub fn window_class() -> (class: Option<WindowClass>)
        ensures
            class == Some(WindowClass::ContextMenu),
    {
        Some(WindowClass::ContextMenu)
    }
}

} // verus!
