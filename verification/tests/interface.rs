use korangar::interface::components::element_list::sync_element_count;
use korangar::interface::components::item_box::{
    slot_background, trade_offer_amount, AmountDisplay, DetailedTooltip, ItemBox, ItemRequest,
};
use korangar::interface::resource::ItemSource;
use korangar::interface::windows::character_creation::{
    CharacterCreationWindow, MAXIMUM_HAIR_COLOR, MAXIMUM_HAIR_STYLE,
};
use korangar::interface::windows::context_menu::{ContextMenuWindow, MenuAction};
use korangar::interface::windows::cutin::CutinWindow;
use korangar::interface::windows::delete_character_confirm::DeleteCharacterConfirmWindow;
use korangar::interface::windows::guild::{GuildInfo, GuildWindow};
use korangar::interface::windows::hud::HudWindow;
use korangar::interface::windows::inventory::InventoryWindow;
use korangar::interface::windows::mail::{MailEntry, MailWindow};
use korangar::interface::windows::minimap::{EntityType, MinimapDraw, MinimapEntity, MinimapWindow};
use korangar::interface::windows::party::PartyWindow;
use korangar::interface::windows::pet_egg_select::PetEggSelectWindow;
use korangar::interface::windows::quest::QuestWindow;
use korangar::interface::windows::status_effects::StatusEffectsWindow;
use korangar::interface::windows::storage::{PetInfoWindow, StorageWindow, VendingWindow};
use korangar::interface::windows::tooltip::TooltipWindow;
use korangar::interface::windows::trade::{TradeItem, TradeItemsElement, TradeState};
use korangar::interface::windows::trade_request::TradeRequestWindow;
use korangar::interface::windows::WindowClass;
use korangar::networking::items::{EquipPosition, InventoryItem, InventoryItemDetails};

type CreationWindow = CharacterCreationWindow<(), (), ()>;

#[test]
fn hair_style_cycles() {
    assert_eq!(CreationWindow::next_hair_style(0), 1);
    assert_eq!(CreationWindow::next_hair_style(MAXIMUM_HAIR_STYLE), 0);
    assert_eq!(CreationWindow::previous_hair_style(0), MAXIMUM_HAIR_STYLE);
    assert_eq!(CreationWindow::previous_hair_style(5), 4);
    assert_eq!(CreationWindow::next_hair_style(40), 0);
}

#[test]
fn hair_color_cycles() {
    assert_eq!(CreationWindow::next_hair_color(7), 8);
    assert_eq!(CreationWindow::next_hair_color(MAXIMUM_HAIR_COLOR), 0);
    assert_eq!(CreationWindow::previous_hair_color(0), MAXIMUM_HAIR_COLOR);
}

#[test]
fn hair_steps_undo_each_other() {
    for style in 0..=MAXIMUM_HAIR_STYLE {
        assert_eq!(CreationWindow::next_hair_style(CreationWindow::previous_hair_style(style)), style);
        assert_eq!(CreationWindow::previous_hair_style(CreationWindow::next_hair_style(style)), style);
    }
    for color in 0..=MAXIMUM_HAIR_COLOR {
        assert_eq!(CreationWindow::previous_hair_color(CreationWindow::next_hair_color(color)), color);
    }
}

#[test]
fn character_name_needs_four_bytes() {
    assert!(CreationWindow::is_creation_disabled(""));
    assert!(CreationWindow::is_creation_disabled("abc"));
    assert!(!CreationWindow::is_creation_disabled("abcd"));
    // Length is counted in bytes: two Korean characters are six bytes.
    assert!(!CreationWindow::is_creation_disabled("가나"));
    let window = CharacterCreationWindow::new(1u8, 2u8, 3u8, 4);
    assert_eq!(window.slot, 4);
    assert_eq!(CreationWindow::window_class(), Some(WindowClass::CharacterCreation));
}

#[test]
fn tooltips_for_entities_and_items() {
    let entity = TooltipWindow::entity_tooltip("Poring".to_string(), "Monster", Some(3));
    assert_eq!(entity.title, "Poring");
    assert_eq!(entity.lines, vec!["Type: Monster".to_string(), "Level: 3".to_string()]);
    assert_eq!(entity.description(), "Type: Monster\nLevel: 3");
    let npc = TooltipWindow::entity_tooltip("Kafra".to_string(), "Npc", None);
    assert_eq!(npc.lines, vec!["Type: Npc".to_string()]);
    let item = TooltipWindow::item_tooltip("Apple".to_string(), "Healing", Some("Tasty.".to_string()));
    assert_eq!(item.lines, vec!["Type: Healing".to_string(), "Tasty.".to_string()]);
    let plain = TooltipWindow::item_tooltip("Jellopy".to_string(), "Etc", None);
    assert_eq!(plain.lines.len(), 1);
    assert_eq!(TooltipWindow::window_class(), Some(WindowClass::Tooltip));
}

#[test]
fn context_menus_by_entity_type() {
    let player = ContextMenuWindow::new("Bob".to_string(), 7, EntityType::Player);
    assert_eq!(player.title, "Bob");
    let labels: Vec<&str> = player.entries.iter().map(|entry| entry.label.as_str()).collect();
    assert_eq!(labels, vec!["Trade", "Party Invite", "Attack"]);
    assert_eq!(player.entries[0].action, MenuAction::RequestTrade { entity_id: 7 });
    assert_eq!(player.entries[1].action, MenuAction::InviteToParty { character_name: "Bob".to_string() });
    assert_eq!(player.entries[2].action, MenuAction::PlayerInteract { entity_id: 7 });
    let monster = ContextMenuWindow::new("Poring".to_string(), 8, EntityType::Monster);
    assert_eq!(monster.entries.len(), 1);
    assert_eq!(monster.entries[0].label, "Attack");
    let npc = ContextMenuWindow::new("Kafra".to_string(), 9, EntityType::Npc);
    assert_eq!(npc.entries[0].label, "Talk");
    let warp = ContextMenuWindow::new("warp".to_string(), 10, EntityType::Warp);
    assert_eq!(warp.entries[0].label, "Interact");
    assert_eq!(warp.entries[0].action, MenuAction::PlayerInteract { entity_id: 10 });
}

#[test]
fn window_titles() {
    assert_eq!(CutinWindow::new((), "kafra_01".to_string()).title(), "Cutin - kafra_01");
    let minimap = MinimapWindow::new("prontera".to_string(), 300, 300, None::<()>);
    assert_eq!(minimap.title(), "Minimap - prontera");
    assert!(minimap.draws_markers());
    assert!(!MinimapWindow::new("x".to_string(), 0, 5, None::<()>).draws_markers());
}

#[test]
fn minimap_markers() {
    type Minimap = MinimapWindow<()>;
    assert_eq!(Minimap::marker_color(EntityType::Player, true), Some((255, 255, 0)));
    assert_eq!(Minimap::marker_color(EntityType::Player, false), Some((0, 255, 0)));
    assert_eq!(Minimap::marker_color(EntityType::Monster, false), Some((255, 0, 0)));
    assert_eq!(Minimap::marker_color(EntityType::Npc, false), Some((0, 100, 255)));
    assert_eq!(Minimap::marker_color(EntityType::Warp, false), None);
    assert_eq!(Minimap::marker_color(EntityType::Hidden, true), None);
    assert!(!Minimap::shows_party_member(0, 0));
    assert!(Minimap::shows_party_member(0, 3));
}

#[test]
fn selector_texts() {
    let info = GuildInfo {
        guild_name: "Knights".to_string(),
        guild_level: 3,
        master_name: "Ann".to_string(),
        member_count: 12,
        max_member_count: 16,
    };
    type Guild = GuildWindow<(), ()>;
    assert_eq!(Guild::header_text(&info), "Knights (Lv.3) - Master: Ann - Members: 12/16");
    let none = GuildInfo { guild_name: String::new(), ..info };
    assert_eq!(Guild::header_text(&none), "Not in a guild");
    assert_eq!(Guild::level_text(42), "Level: 42");
    assert_eq!(Guild::job_text(-3), "Job: -3");
    assert_eq!(Guild::online_text(true), "Status: Online");
    assert_eq!(PartyWindow::<()>::level_text(99), "Level: 99");
    assert_eq!(PartyWindow::<()>::job_text(i16::MIN), "Job: -32768");
    assert_eq!(HudWindow::<()>::level_text(99, 50), "Lv 99 / Job 50");
    assert_eq!(HudWindow::<()>::zeny_text(0), "Zeny: 0");
    assert_eq!(InventoryWindow::<(), ()>::weight_text(120, 2400), "Weight: 120 / 2400");
    assert_eq!(InventoryWindow::<(), ()>::zeny_text(4294967295), "Zeny: 4294967295");
    assert_eq!(InventoryWindow::<(), ()>::slot_index(3, 9), 39);
    assert_eq!(StorageWindow::<()>::slot_index(5, 9), 59);
    assert_eq!(QuestWindow::<()>::status_text(false), "Inactive");
    assert_eq!(StatusEffectsWindow::<()>::effect_text("Blessing", ""), "Blessing");
    assert_eq!(StatusEffectsWindow::<()>::effect_text("Blessing", "1m 20s"), "Blessing (1m 20s)");
    assert_eq!(VendingWindow::window_class(), Some(WindowClass::Vending));
}

#[test]
fn mail_texts() {
    let mail = MailEntry {
        sender_name: "Kafra".to_string(),
        title: "Welcome".to_string(),
        body: "Hello".to_string(),
        read: false,
        zeny: 500,
        has_item: true,
    };
    type Mail = MailWindow<(), ()>;
    assert_eq!(Mail::header_text(&mail), "[NEW] From: Kafra - Welcome");
    assert_eq!(Mail::body_text(&mail), "Hello\nZeny: 500\n[Has attached item]");
    let read = MailEntry { read: true, zeny: 0, has_item: false, ..mail };
    assert_eq!(Mail::header_text(&read), "From: Kafra - Welcome");
    assert_eq!(Mail::body_text(&read), "Hello");
    assert_eq!(Mail::status_text(true), "You have new mail!");
    assert_eq!(Mail::status_text(false), "No new mail.");
}

#[test]
fn pet_egg_selection() {
    let empty = PetEggSelectWindow::new(vec![]);
    assert_eq!(empty.description(), "No pet eggs found.");
    assert_eq!(empty.first_egg(), 0);
    assert_eq!(empty.hatch_label(), "Hatch Egg #0");
    let eggs = PetEggSelectWindow::new(vec![4, 12]);
    assert_eq!(eggs.description(), "Available eggs: Egg #4, Egg #12");
    assert_eq!(eggs.first_egg(), 4);
    assert_eq!(eggs.hatch_label(), "Hatch Egg #4");
}

#[test]
fn request_and_confirmation_prompts() {
    let request = TradeRequestWindow::new("Ann".to_string(), 2000001, 55);
    assert_eq!(request.prompt(), "Ann (Lv.55) wants to trade with you.");
    let confirm = DeleteCharacterConfirmWindow::new(150000, "Bob".to_string());
    assert_eq!(confirm.prompt(), "Are you sure you want to delete ^FF0000Bob^000000?");
}

fn trade_item(name: &str, amount: u32, refine: u8, identified: bool) -> TradeItem {
    TradeItem { name: name.to_string(), amount, refinement_level: refine, identified }
}

#[test]
fn trade_lines() {
    let state = TradeState {
        player_items: vec![trade_item("Sword", 1, 7, true), trade_item("Apple", 30, 0, false)],
        player_zeny: 1000,
        player_locked: true,
        partner_items: vec![],
        partner_zeny: 0,
        partner_locked: false,
    };
    assert_eq!(
        TradeItemsElement::build_lines(&state),
        vec![
            "--- Your Items [LOCKED] ---".to_string(),
            "  +7 Sword x1".to_string(),
            "  Apple x30 (unid)".to_string(),
            "  Zeny: 1000".to_string(),
            "--- Partner Items ---".to_string(),
            "  (none)".to_string(),
        ]
    );
    let zeny_only = TradeState { player_items: vec![], player_zeny: 5, player_locked: false, ..state };
    assert_eq!(TradeItemsElement::build_lines(&zeny_only)[1], "  Zeny: 5");
}

#[test]
fn trade_line_colors() {
    assert_eq!(TradeItemsElement::line_color("--- Your Items ---"), (255, 200, 100));
    assert_eq!(TradeItemsElement::line_color("  +7 Sword x1"), (240, 240, 240));
    assert_eq!(TradeItemsElement::line_color("  Apple x30"), (240, 240, 240));
    assert_eq!(TradeItemsElement::line_color("  Zeny: 5"), (200, 200, 200));
}

fn item(details: InventoryItemDetails, slot: [u32; 4]) -> InventoryItem {
    InventoryItem { index: 5, item_id: 1201, item_type: 4, name: "Knife".to_string(), details, slot }
}

#[test]
fn detailed_tooltip_of_equipment() {
    let knife = item(
        InventoryItemDetails::Equippable {
            refinement_level: 4,
            enchantment_level: 0,
            equip_position: EquipPosition::RIGHT_HAND | EquipPosition::LEFT_ACCESSORY,
        },
        [4001, 0, 4002, 0],
    );
    let mut tooltip = DetailedTooltip::default();
    tooltip.update(&knife);
    assert_eq!(tooltip.item_id, 1201);
    assert_eq!(tooltip.text, "Knife\nType: Weapon\nRefine: +4\nEquip: Weapon, Accessory\nCards: 2/4\nID: 1201");
}

#[test]
fn detailed_tooltip_of_stack() {
    let mut apples = item(InventoryItemDetails::Regular { amount: 30 }, [0; 4]);
    apples.item_type = 0;
    apples.item_id = 512;
    apples.name = "Apple".to_string();
    let mut tooltip = DetailedTooltip::default();
    tooltip.update(&apples);
    assert_eq!(tooltip.text, "Apple\nType: Healing\nAmount: 30\nID: 512");
    // The same item id keeps the cached text.
    apples.name = "Renamed".to_string();
    tooltip.update(&apples);
    assert_eq!(tooltip.text, "Apple\nType: Healing\nAmount: 30\nID: 512");
    let mut single = item(InventoryItemDetails::Regular { amount: 1 }, [0; 4]);
    single.item_type = 99;
    single.item_id = 909;
    tooltip.update(&single);
    assert_eq!(tooltip.text, "Knife\nType: Item\nID: 909");
}

#[test]
fn amount_display_tracks_amount() {
    let mut display = AmountDisplay::default();
    assert_eq!(display.text(), None);
    display.update(12);
    assert_eq!(display.text().map(|s| s.as_str()), Some("12"));
    display.update(12);
    assert_eq!(display.text().map(|s| s.as_str()), Some("12"));
    display.update(0);
    assert_eq!(display.text().map(|s| s.as_str()), Some("0"));
}

#[test]
fn double_click_requests() {
    let sword = item(
        InventoryItemDetails::Equippable { refinement_level: 0, enchantment_level: 0, equip_position: EquipPosition::RIGHT_HAND },
        [0; 4],
    );
    let potion = item(InventoryItemDetails::Regular { amount: 3 }, [0; 4]);
    assert_eq!(
        ItemSource::Inventory.double_click(&sword),
        ItemRequest::MoveItem {
            source: ItemSource::Inventory,
            destination: ItemSource::Equipment { position: EquipPosition::RIGHT_HAND },
        }
    );
    assert_eq!(ItemSource::Inventory.double_click(&potion), ItemRequest::UseItem { item_index: 5 });
    assert_eq!(
        ItemSource::Equipment { position: 2 }.double_click(&sword),
        ItemRequest::MoveItem { source: ItemSource::Equipment { position: 2 }, destination: ItemSource::Inventory }
    );
    assert_eq!(
        ItemSource::Storage.double_click(&potion),
        ItemRequest::MoveItem { source: ItemSource::Storage, destination: ItemSource::Inventory }
    );
    assert_eq!(
        ItemSource::Storage.drop_from(ItemSource::Inventory),
        ItemRequest::MoveItem { source: ItemSource::Inventory, destination: ItemSource::Storage }
    );
}

#[test]
fn trade_offers_and_slot_backgrounds() {
    assert_eq!(trade_offer_amount(InventoryItemDetails::Regular { amount: 17 }), 17);
    assert_eq!(
        trade_offer_amount(InventoryItemDetails::Equippable { refinement_level: 0, enchantment_level: 0, equip_position: 0 }),
        1
    );
    assert_eq!(slot_background(true, true), (true, (80, 180, 180)));
    assert_eq!(slot_background(true, false), (false, (180, 180, 80)));
    assert_eq!(slot_background(false, true), (true, (60, 60, 60)));
    assert_eq!(slot_background(false, false), (false, (40, 40, 40)));
}

#[test]
fn element_lists_follow_the_shown_count() {
    let mut elements = vec![10usize, 11, 12];
    sync_element_count(&mut elements, 5, &|index: usize| index * 100);
    assert_eq!(elements, vec![10, 11, 12, 300, 400]);
    sync_element_count(&mut elements, 2, &|index: usize| index);
    assert_eq!(elements, vec![10, 11]);
    sync_element_count(&mut elements, 2, &|index: usize| index);
    assert_eq!(elements, vec![10, 11]);
}

#[test]
fn item_box_refreshes_label_and_tooltip() {
    let mut slot = ItemBox::component_new(3u8, ItemSource::Inventory);
    assert_eq!(slot.source, ItemSource::Inventory);
    let mut potion = item(InventoryItemDetails::Regular { amount: 7 }, [0; 4]);
    potion.item_type = 0;
    slot.refresh(Some(&potion), false);
    assert_eq!(slot.amount_display.text(), None);
    slot.refresh(Some(&potion), true);
    assert_eq!(slot.amount_display.text().map(|s| s.as_str()), Some("7"));
    assert_eq!(slot.tooltip.text, "Knife\nType: Healing\nAmount: 7\nID: 1201");
    slot.refresh(None, true);
    assert_eq!(slot.amount_display.text().map(|s| s.as_str()), Some("7"));
}

#[test]
fn companion_line_colors() {
    type Pets = PetInfoWindow<(), ()>;
    assert_eq!(Pets::line_color("^ff8800--- Pet: Poring ---^000000"), (255, 136, 0));
    assert_eq!(Pets::line_color("Level: 3"), (220, 220, 220));
    let window = PetInfoWindow::new(Some(1u8), None::<u8>);
    assert_eq!(window.pet_info, Some(1));
    assert_eq!(Pets::window_class(), Some(WindowClass::PetInfo));
}

#[test]
fn create_button_queues_the_request() {
    let window = CharacterCreationWindow::new((), (), (), 2);
    let request = window.create_request("Alice", 25, 8);
    assert_eq!(request.slot, 2);
    assert_eq!(request.name, "Alice");
    assert_eq!(request.hair_style, 25);
    assert_eq!(request.hair_color, 8);
    assert!(window.press_create_button("Ann", 1, 1).is_none());
    let pressed = window.press_create_button("Anna", 3, 4).expect("enabled");
    assert_eq!((pressed.slot, pressed.name.as_str(), pressed.hair_style, pressed.hair_color), (2, "Anna", 3, 4));
}

fn entity(entity_id: u32, entity_type: EntityType, x: u16, y: u16) -> MinimapEntity {
    MinimapEntity { entity_id, entity_type, x, y }
}

#[test]
fn minimap_draw_order() {
    let entities = vec![
        entity(7, EntityType::Player, 10, 20),
        entity(8, EntityType::Player, 11, 21),
        entity(9, EntityType::Warp, 1, 1),
        entity(10, EntityType::Monster, 5, 6),
        entity(11, EntityType::Hidden, 2, 2),
        entity(12, EntityType::Npc, 3, 4),
    ];
    let party = vec![(0, 0), (30, 40)];
    let with_texture = MinimapWindow::new("prontera".to_string(), 300, 300, Some(()));
    assert_eq!(
        with_texture.lay_out(&entities, &party),
        vec![
            MinimapDraw::Texture,
            MinimapDraw::Marker { x: 10, y: 20, color: (255, 255, 0) },
            MinimapDraw::Marker { x: 11, y: 21, color: (0, 255, 0) },
            MinimapDraw::Marker { x: 5, y: 6, color: (255, 0, 0) },
            MinimapDraw::Marker { x: 3, y: 4, color: (0, 100, 255) },
            MinimapDraw::Marker { x: 30, y: 40, color: (0, 255, 255) },
        ]
    );
    let without_texture = MinimapWindow::new("x".to_string(), 300, 300, None::<()>);
    assert_eq!(without_texture.lay_out(&Vec::new(), &Vec::new()), vec![MinimapDraw::Rectangle]);
    let empty_map = MinimapWindow::new("x".to_string(), 300, 0, Some(()));
    assert!(empty_map.lay_out(&entities, &party).is_empty());
}
