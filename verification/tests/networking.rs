use korangar::networking::connection::PolledEvent;
use korangar::networking::failure::{CharacterSlotSwitch, SwitchCharacterSlotResponseStatus};
use korangar::networking::items::{ItemListBuilder, ItemListEvent, STORAGE_INVENTORY_TYPE};
use korangar::networking::connection::{
    DisconnectReason, NotConnectedError, PollAction, ReceiveOutcome, ServerConnection,
    NetworkingSystem, SupportedPacketVersion,
};
use korangar::networking::event::{
    changed_map_name, dialog_choices, item_list_kind, quest_objectives, report_damage,
    DamageReport, DamageType, ItemListKind, QuestObjectiveDetail, VisualEffect,
};
use korangar::networking::failure::{
    CharacterCreationFailedReason, CharacterDeletionFailedReason, CharacterSelectionFailedReason,
    LoginFailedReason, LoginFailedReason2, UnifiedCharacterSelectionFailedReason,
    UnifiedLoginFailedReason,
};
use korangar::networking::message::{
    ammunition_action_message, feed_pet_message, guild_chat_message, message_table_message,
    navigate_to_message, party_chat_message, party_join_message, pk_mode_message,
    refuse_enter_message, whisper_ack_message, whisper_message, AmmunitionActionType,
    FriendRequestResult, MessageColor,
};
use korangar::networking::stream::{
    keep_cut_off, next_stream_step, try_skip_packet, PacketProblem, ReadEnd, ReceiveCursor, ServerKind,
    StreamStep,
};

#[test]
fn connection_lifecycle() {
    let mut system = NetworkingSystem::new();
    assert!(!system.is_map_server_connected());
    assert_eq!(system.map_server_packet_version(), Err(NotConnectedError));
    assert!(system.connect_to_map_server(SupportedPacketVersion::_20220406));
    assert!(system.is_map_server_connected());
    assert_eq!(system.map_server_packet_version(), Ok(SupportedPacketVersion::_20220406));
    // Connecting again while connected does nothing.
    assert!(!system.connect_to_map_server(SupportedPacketVersion::_20220406));
    assert!(!system.is_login_server_connected());
    assert!(!system.is_character_server_connected());
    assert_eq!(system.character_server_packet_version(), Err(NotConnectedError));
    assert!(system.connect_to_login_server(SupportedPacketVersion::_20220406));
    assert!(system.connect_to_character_server(SupportedPacketVersion::_20220406));
    assert_eq!(system.character_server_packet_version(), Ok(SupportedPacketVersion::_20220406));
    system.disconnect_from_map_server();
    assert!(!system.is_map_server_connected());
    assert_eq!(system.map_server_connection, ServerConnection::ClosingManually);
    system.disconnect_from_login_server();
    system.disconnect_from_character_server();
    assert!(!system.is_login_server_connected());
    assert!(!system.is_character_server_connected());
}

#[test]
fn closed_connection_is_reported_once() {
    let mut connection = ServerConnection::Disconnected;
    connection.connect(SupportedPacketVersion::_20220406);
    connection.disconnect();
    assert!(!connection.is_connected());
    assert_eq!(connection.start_poll(), PollAction::ReportDisconnect(DisconnectReason::ClosedByClient));
    assert_eq!(connection, ServerConnection::Disconnected);
    assert_eq!(connection.start_poll(), PollAction::Stop);
    // A closing connection cannot be reconnected before the poll reports it.
    let mut closing = ServerConnection::ClosingManually;
    assert!(!closing.connect(SupportedPacketVersion::_20220406));
}

#[test]
fn polling_an_established_connection() {
    let mut connection = ServerConnection::Connected { packet_version: SupportedPacketVersion::_20220406 };
    assert_eq!(connection.start_poll(), PollAction::Receive);
    assert_eq!(connection.receive_outcome(ReceiveOutcome::Received), PollAction::Forward);
    assert_eq!(connection.receive_outcome(ReceiveOutcome::Empty), PollAction::Stop);
    assert!(connection.is_connected());
    assert_eq!(
        connection.receive_outcome(ReceiveOutcome::ChannelClosed),
        PollAction::ReportDisconnect(DisconnectReason::ConnectionError)
    );
    assert_eq!(connection, ServerConnection::Disconnected);
}

#[test]
fn fixed_length_packets_are_skipped() {
    let data = [0u8; 10];
    assert_eq!(try_skip_packet(2, Some(6), &data), Some(6));
    assert_eq!(try_skip_packet(2, Some(9), &data), None);
    assert_eq!(try_skip_packet(0, None, &data), None);
}

#[test]
fn variable_length_packets_declare_their_length() {
    // Header 0x0a0b, length 6 (little endian), two bytes of body, then more.
    let data = [0x0b, 0x0a, 6, 0, 1, 2, 9, 9];
    assert_eq!(try_skip_packet(0, Some(-1), &data), Some(6));
    assert_eq!(try_skip_packet(0, Some(0), &data), Some(6));
    // A declared length over 255 uses the high byte.
    let mut long = vec![0u8; 300];
    long[2] = 0x2c;
    long[3] = 0x01;
    assert_eq!(try_skip_packet(0, Some(-1), &long), Some(300));
    // Too short a declared length, or a length field that is cut off.
    assert_eq!(try_skip_packet(0, Some(-1), &[0, 0, 3, 0]), None);
    assert_eq!(try_skip_packet(0, Some(-1), &[0, 0, 9]), None);
    // A packet longer than the data is cut off.
    assert_eq!(try_skip_packet(0, Some(-1), &[0, 0, 8, 0, 1]), None);
}

#[test]
fn stream_steps_after_packet_problems() {
    let data = [0u8, 0, 6, 0, 1, 2, 0xff, 0xff];
    assert_eq!(next_stream_step(PacketProblem::CutOff, 0, None, &data), StreamStep::Discard);
    assert_eq!(next_stream_step(PacketProblem::CutOff, 4, None, &data), StreamStep::KeepCutOff(4));
    assert_eq!(next_stream_step(PacketProblem::Unhandled, 0, Some(-1), &data), StreamStep::ContinueAt(6));
    assert_eq!(next_stream_step(PacketProblem::InternalError, 6, Some(2), &data), StreamStep::ContinueAt(8));
    assert_eq!(next_stream_step(PacketProblem::Unhandled, 6, None, &data), StreamStep::Discard);
}

#[test]
fn cut_off_packets_move_to_the_buffer_start() {
    let mut buffer = vec![1u8, 2, 3, 4, 5, 6, 7, 8];
    let base = keep_cut_off(&mut buffer, 5, 8);
    assert_eq!(base, 3);
    assert_eq!(buffer, vec![6, 7, 8, 4, 5, 6, 7, 8]);
    let mut overlapping = vec![1u8, 2, 3, 4, 5];
    assert_eq!(keep_cut_off(&mut overlapping, 1, 5), 4);
    assert_eq!(overlapping, vec![2, 3, 4, 5, 5]);
}

#[test]
fn keepalive_schedules() {
    let login = ServerKind::LoginServer.connection_settings();
    assert_eq!((login.keepalive_seconds, login.reads_account_id), (58, false));
    let character = ServerKind::CharacterServer.connection_settings();
    assert_eq!((character.keepalive_seconds, character.reads_account_id), (10, true));
    let map = ServerKind::MapServer.connection_settings();
    assert_eq!((map.keepalive_seconds, map.reads_account_id), (10, false));
}

#[test]
fn message_table_entries() {
    let message = message_table_message(0).unwrap();
    assert_eq!(message.text, "Your HP is fully restored.");
    assert_eq!(message.color, MessageColor::Server);
    assert_eq!(message_table_message(1484).unwrap().text, "Please wait a moment.");
    assert_eq!(message_table_message(292).unwrap().text, "You cannot attack in this area.");
    assert!(message_table_message(8).is_none());
    assert!(message_table_message(1483).is_none());
}

#[test]
fn refused_connection_messages() {
    assert_eq!(refuse_enter_message(0).text, "Server refused connection (banned).");
    assert_eq!(refuse_enter_message(1).text, "Server is full.");
    assert_eq!(refuse_enter_message(2).text, "You are not authorized to connect.");
    assert_eq!(refuse_enter_message(77).text, "Server refused connection.");
    assert_eq!(refuse_enter_message(77).color, MessageColor::Error);
}

#[test]
fn chat_messages_drop_nul_padding() {
    let whisper = whisper_message("\0Alice\0\0", "hi there\0\0");
    assert_eq!(whisper.text, "Alice: hi there");
    assert_eq!(whisper.color, MessageColor::Whisper);
    let party = party_chat_message("go\0");
    assert_eq!(party.text, "[Party] go");
    assert_eq!(party.color, MessageColor::Party);
    let guild = guild_chat_message("\0\0");
    assert_eq!(guild.text, "[Guild] ");
    assert_eq!(guild.color, MessageColor::Guild);
}

#[test]
fn pet_whisper_and_mode_messages() {
    assert_eq!(feed_pet_message(1).text, "Your pet refuses the food.");
    assert_eq!(feed_pet_message(0).text, "Your pet happily ate the food.");
    assert!(whisper_ack_message(0).is_none());
    assert_eq!(whisper_ack_message(1).unwrap().text, "That player is not online.");
    assert_eq!(whisper_ack_message(3).unwrap().text, "Whisper failed.");
    assert!(pk_mode_message(0).is_none());
    assert_eq!(pk_mode_message(1).unwrap().text, "PK Mode is enabled on this map.");
    assert!(ammunition_action_message(AmmunitionActionType::Equipped).is_none());
    assert_eq!(
        ammunition_action_message(AmmunitionActionType::WeightLimitExceeded2).unwrap().text,
        "You are carrying too many items."
    );
}

#[test]
fn party_join_messages() {
    assert_eq!(party_join_message("Bob", 0).text, "Bob has joined the party.");
    assert_eq!(party_join_message("Bob", 1).text, "Bob rejected the party invitation.");
    assert_eq!(party_join_message("Bob", 2).text, "Bob's party is full.");
    assert_eq!(party_join_message("Bob", 255).text, "Party join failed for Bob (code 255).");
    assert_eq!(party_join_message("Bob", 7).color, MessageColor::Information);
}

#[test]
fn friend_request_messages() {
    assert_eq!(FriendRequestResult::Accepted.message("Ann").text, "You have become friends with Ann.");
    assert_eq!(FriendRequestResult::Rejected.message("Ann").text, "Ann does not want to be friends with you.");
    assert_eq!(FriendRequestResult::OwnFriendListFull.message("Ann").text, "Your Friend List is full.");
    assert_eq!(FriendRequestResult::OtherFriendListFull.message("Ann").text, "Ann's Friend List is full.");
    assert!(FriendRequestResult::Accepted.adds_friend());
    assert!(!FriendRequestResult::Rejected.adds_friend());
}

#[test]
fn navigation_message() {
    let message = navigate_to_message("prontera\0\0", 150, 7);
    assert_eq!(message.text, "Navigate to: prontera (150, 7)");
    assert_eq!(message.color, MessageColor::Information);
}

#[test]
fn map_change_drops_gat_extension() {
    assert_eq!(changed_map_name("prontera.gat"), "prontera");
    assert_eq!(changed_map_name("a.gat.gatb.gat"), "ab");
    assert_eq!(changed_map_name("geffen"), "geffen");
    assert_eq!(changed_map_name(".ga"), ".ga");
}

#[test]
fn dialog_choices_skip_empty_pieces() {
    assert_eq!(dialog_choices("Yes:No"), vec!["Yes".to_string(), "No".to_string()]);
    assert_eq!(dialog_choices("::Buy::Sell:"), vec!["Buy".to_string(), "Sell".to_string()]);
    assert!(dialog_choices("").is_empty());
    assert!(dialog_choices(":::").is_empty());
}

#[test]
fn quest_objectives_keep_hunted_monsters() {
    let details = vec![
        QuestObjectiveDetail { mob_id: 1002, mob_name: "Poring\0\0".to_string(), kill_count: 3, total_count: 10 },
        QuestObjectiveDetail { mob_id: 0, mob_name: String::new(), kill_count: 0, total_count: 0 },
        QuestObjectiveDetail { mob_id: 1113, mob_name: "Drops".to_string(), kill_count: 1, total_count: 5 },
    ];
    let objectives = quest_objectives(&details, 3);
    assert_eq!(objectives.len(), 2);
    assert_eq!(objectives[0].mob_name, "Poring");
    assert_eq!((objectives[0].kill_count, objectives[0].total_count), (3, 10));
    assert_eq!(objectives[1].mob_name, "Drops");
    let first_only = quest_objectives(&details, 1);
    assert_eq!(first_only.len(), 1);
    let beyond = quest_objectives(&details, 9);
    assert_eq!(beyond.len(), 2);
}

#[test]
fn inventory_end_type_selects_list() {
    assert_eq!(item_list_kind(0), ItemListKind::Inventory);
    assert_eq!(item_list_kind(1), ItemListKind::Inventory);
    assert_eq!(item_list_kind(2), ItemListKind::Storage);
}

#[test]
fn failure_reasons() {
    assert_eq!(
        LoginFailedReason::AlreadyLoggedIn.unified(),
        (UnifiedLoginFailedReason::AlreadyLoggedIn, "Someone has already logged in with this id")
    );
    assert_eq!(LoginFailedReason::ServerClosed.message(), "Server closed");
    assert_eq!(
        LoginFailedReason2::ServerFull.unified(),
        (UnifiedLoginFailedReason::ServerFull, "Server is full")
    );
    assert_eq!(
        LoginFailedReason2::CompanyAccountLimitReached.unified(),
        (UnifiedLoginFailedReason::CompanyAccountLimitReached, "Company account limit reached")
    );
    assert_eq!(
        CharacterSelectionFailedReason::RejectedFromServer.unified(),
        (UnifiedCharacterSelectionFailedReason::RejectedFromServer, "Rejected from server")
    );
    assert_eq!(
        UnifiedCharacterSelectionFailedReason::map_server_unavailable(),
        (UnifiedCharacterSelectionFailedReason::MapServerUnavailable, "Map server currently unavailable")
    );
    assert_eq!(CharacterCreationFailedReason::NotOldEnough.message(), "You are not old enough to create a character");
    assert_eq!(CharacterDeletionFailedReason::CharacterNotFound.message(), "Character was not found");
}

#[test]
fn visual_effect_files() {
    assert_eq!(VisualEffect::BaseLevelUp.effect_path(), "angel.str");
    assert_eq!(VisualEffect::RefineSuccess.effect_path(), "bs_refinesuccess.str");
    assert_eq!(VisualEffect::GameOver.effect_path(), "help_angel\\help_angel\\help_angel.str");
    assert_eq!(VisualEffect::BaseLevelUpTaekwon.effect_path(), "help_angel\\help_angel\\help_angel.str");
}

#[test]
fn damage_reports() {
    assert_eq!(
        report_damage(DamageType::Damage, 1, 2, 35, 400),
        Some(DamageReport::DamageEffect {
            source_entity_id: 1,
            destination_entity_id: 2,
            damage_amount: Some(35),
            attack_duration: 400,
            is_critical: false,
        })
    );
    assert_eq!(
        report_damage(DamageType::CriticalHit, 1, 2, 0, 400),
        Some(DamageReport::DamageEffect {
            source_entity_id: 1,
            destination_entity_id: 2,
            damage_amount: None,
            attack_duration: 400,
            is_critical: true,
        })
    );
    assert_eq!(
        report_damage(DamageType::PickUpItem, 1, 2, 0, 0),
        Some(DamageReport::EntityPickUpItem { entity_id: 1, item_entity_id: 2 })
    );
    assert_eq!(report_damage(DamageType::SitDown, 1, 2, 0, 0), Some(DamageReport::PlayerSitDown { entity_id: 1 }));
    assert_eq!(report_damage(DamageType::StandUp, 1, 2, 0, 0), Some(DamageReport::PlayerStandUp { entity_id: 2 }));
    assert_eq!(report_damage(DamageType::Other, 1, 2, 10, 0), None);
}

#[test]
fn receive_cursor_walks_the_packets() {
    // Two packets of 4 bytes, then an unknown packet of declared length 6
    // that is cut off after 3 bytes.
    let data = [1u8, 0, 0, 0, 2, 0, 0, 0, 9, 9, 6];
    let mut cursor = ReceiveCursor::new(0, data.len());
    assert_eq!(cursor.next_packet(), Some(0));
    cursor.packet_read(4);
    assert_eq!(cursor.next_packet(), Some(4));
    cursor.packet_read(8);
    assert_eq!(cursor.next_packet(), Some(8));
    cursor.packet_failed(PacketProblem::CutOff, None, &data);
    assert_eq!(cursor.next_packet(), None);
    assert_eq!(cursor.end(), ReadEnd::KeepCutOff(8));
}

#[test]
fn receive_cursor_skips_and_completes() {
    let data = [7u8, 7, 1, 2, 3];
    let mut cursor = ReceiveCursor::new(0, data.len());
    cursor.packet_failed(PacketProblem::Unhandled, Some(2), &data);
    assert_eq!(cursor.next_packet(), Some(2));
    cursor.packet_read(5);
    assert_eq!(cursor.next_packet(), None);
    assert_eq!(cursor.end(), ReadEnd::Complete);
    let mut lost = ReceiveCursor::new(1, data.len());
    lost.packet_failed(PacketProblem::InternalError, None, &data);
    assert_eq!(lost.end(), ReadEnd::Discard);
    assert_eq!(lost.next_packet(), None);
}

#[test]
fn map_server_request_payloads() {
    let mut system = NetworkingSystem::new();
    assert_eq!(system.chat_message_payload("Ann", "hello"), Err(NotConnectedError));
    assert_eq!(system.trade_response_code(true), Err(NotConnectedError));
    assert_eq!(system.party_response_flag(true), Err(NotConnectedError));
    system.connect_to_map_server(SupportedPacketVersion::_20220406);
    assert_eq!(system.chat_message_payload("Ann", "hello"), Ok("Ann : hello".to_string()));
    assert_eq!(system.trade_response_code(true), Ok(3));
    assert_eq!(system.trade_response_code(false), Ok(4));
    assert_eq!(system.party_response_flag(true), Ok(1));
    assert_eq!(system.party_response_flag(false), Ok(0));
}

#[test]
fn polling_hands_on_pending_events_then_the_end() {
    let version = SupportedPacketVersion::_20220406;
    let mut connection = ServerConnection::Connected { packet_version: version };
    let mut buffer = vec![PolledEvent::Received(0u32)];
    connection.handle_connection(vec![1u32, 2], true, &mut buffer);
    assert_eq!(connection, ServerConnection::Connected { packet_version: version });
    let received: Vec<u32> = buffer
        .iter()
        .map(|event| match event {
            PolledEvent::Received(value) => *value,
            PolledEvent::Disconnected(_) => 99,
        })
        .collect();
    assert_eq!(received, vec![0, 1, 2]);

    let mut buffer = Vec::new();
    connection.handle_connection(vec![3u32], false, &mut buffer);
    assert_eq!(connection, ServerConnection::Disconnected);
    assert!(matches!(buffer[0], PolledEvent::Received(3)));
    assert!(matches!(buffer[1], PolledEvent::Disconnected(DisconnectReason::ConnectionError)));
    assert_eq!(buffer.len(), 2);

    let mut closing = ServerConnection::ClosingManually;
    let mut buffer = Vec::new();
    closing.handle_connection(vec![7u32], true, &mut buffer);
    assert_eq!(closing, ServerConnection::Disconnected);
    assert_eq!(buffer.len(), 1);
    assert!(matches!(buffer[0], PolledEvent::Disconnected(DisconnectReason::ClosedByClient)));

    let mut buffer: Vec<PolledEvent<u32>> = Vec::new();
    closing.handle_connection(vec![], false, &mut buffer);
    assert!(buffer.is_empty());
    assert_eq!(closing, ServerConnection::Disconnected);
}

#[test]
fn item_lists_are_gathered_between_start_and_end() {
    let mut builder: ItemListBuilder<u16> = ItemListBuilder::new();
    assert!(!builder.is_open());
    builder.start(0);
    builder.extend(vec![1, 2]);
    builder.extend(vec![3]);
    match builder.end() {
        ItemListEvent::SetInventory { items } => assert_eq!(items, vec![1, 2, 3]),
        ItemListEvent::StorageItemList { .. } => panic!("not the storage"),
    }
    assert!(!builder.is_open());
    builder.start(STORAGE_INVENTORY_TYPE);
    builder.extend(vec![9]);
    match builder.end() {
        ItemListEvent::StorageItemList { items } => assert_eq!(items, vec![9]),
        ItemListEvent::SetInventory { .. } => panic!("the storage"),
    }
}

#[test]
fn slot_switch_answers() {
    assert_eq!(SwitchCharacterSlotResponseStatus::Success.event(), CharacterSlotSwitch::Switched);
    assert_eq!(SwitchCharacterSlotResponseStatus::Error.event(), CharacterSlotSwitch::SwitchFailed);
}
