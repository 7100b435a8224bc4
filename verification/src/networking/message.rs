//! Chat messages, and the messages that server packets are reported as.
use crate::text::{decimal, push_decimal, strip_leading, strip_trailing, trim_nul, trim_nul_end};
use vstd::prelude::*;

verus! {

/// The color of a chat message.
#[derive(Debug, Clone, Copy, PartialEq, Eq, Structural)]
pub enum MessageColor {
    Rgb { red: u8, green: u8, blue: u8 },
    Broadcast,
    Server,
    Error,
    Information,
    Whisper,
    Party,
    Guild,
    Battle,
}

/// A line for the chat window.
#[derive(Debug, Clone)]
pub struct ChatMessage {
    pub text: String,
    pub color: MessageColor,
}

/// `s` without NUL characters at either end.
pub open spec fn without_nul(s: Seq<char>) -> Seq<char> {
    strip_trailing(strip_leading(s, '\0'), '\0')
}

/// The text of the server's message table entry `message_id`, for the
/// entries that the client knows.
pub open spec fn message_table_text(message_id: u16) -> Option<Seq<char>> {
    if message_id == 0 {
        Some("Your HP is fully restored."@)
    } else if message_id == 1 {
        Some("Your SP is fully restored."@)
    } else if message_id == 2 {
        Some("The storage is full."@)
    } else if message_id == 3 {
        Some("Unable to use that item."@)
    } else if message_id == 4 {
        Some("You can't use this item from your current location."@)
    } else if message_id == 5 {
        Some("This item cannot be dropped."@)
    } else if message_id == 6 {
        Some("This item cannot be traded."@)
    } else if message_id == 7 {
        Some("This item cannot be stored."@)
    } else if message_id == 28 {
        Some("You are overweight."@)
    } else if message_id == 43 {
        Some("Your session has expired."@)
    } else if message_id == 44 {
        Some("Another user is using this account."@)
    } else if message_id == 292 {
        Some("You cannot attack in this area."@)
    } else if message_id == 1484 {
        Some("Please wait a moment."@)
    } else {
        None
    }
}

fn message_table_str(message_id: u16) -> (text: Option<&'static str>)
    ensures
        match text {
            Some(t) => message_table_text(message_id) == Some(t@),
            None => message_table_text(message_id) is None,
        },
{
    if message_id == 0 {
        Some("Your HP is fully restored.")
    } else if message_id == 1 {
        Some("Your SP is fully restored.")
    } else if message_id == 2 {
        Some("The storage is full.")
    } else if message_id == 3 {
        Some("Unable to use that item.")
    } else if message_id == 4 {
        Some("You can't use this item from your current location.")
    } else if message_id == 5 {
        Some("This item cannot be dropped.")
    } else if message_id == 6 {
        Some("This item cannot be traded.")
    } else if message_id == 7 {
        Some("This item cannot be stored.")
    } else if message_id == 28 {
        Some("You are overweight.")
    } else if message_id == 43 {
        Some("Your session has expired.")
    } else if message_id == 44 {
        Some("Another user is using this account.")
    } else if message_id == 292 {
        Some("You cannot attack in this area.")
    } else if message_id == 1484 {
        Some("Please wait a moment.")
    } else {
        None
    }
}

/// The server message for message table entry `message_id`; none for an
/// entry that the client does not know.
pub fn message_table_message(message_id: u16) -> (message: Option<ChatMessage>)
    ensures
        match message {
            Some(m) => message_table_text(message_id) == Some(m.text@) && m.color
                == MessageColor::Server,
            None => message_table_text(message_id) is None,
        },
{
    match message_table_str(message_id) {
        Some(text) => Some(ChatMessage { text: String::from_str(text), color: MessageColor::Server }),
        None => None,
    }
}

/// The text for a refused connection with this error code.
pub open spec fn refuse_enter_text(error_code: u8) -> Seq<char> {
    if error_code == 0 {
        "Server refused connection (banned)."@
    } else if error_code == 1 {
        "Server is full."@
    } else if error_code == 2 {
        "You are not authorized to connect."@
    } else {
        "Server refused connection."@
    }
}

/// The error message for a refused connection.
pub fn refuse_enter_message(error_code: u8) -> (message: ChatMessage)
    ensures
        message.text@ == refuse_enter_text(error_code),
        message.color == MessageColor::Error,
{
    let text = if error_code == 0 {
        "Server refused connection (banned)."
    } else if error_code == 1 {
        "Server is full."
    } else if error_code == 2 {
        "You are not authorized to connect."
    } else {
        "Server refused connection."
    };
    ChatMessage { text: String::from_str(text), color: MessageColor::Error }
}

/// The message after feeding the pet: result 1 means that it refused.
pub fn feed_pet_message(result: u8) -> (message: ChatMessage)
    ensures
        message.text@ == (if result == 1 {
            "Your pet refuses the food."@
        } else {
            "Your pet happily ate the food."@
        }),
        message.color == MessageColor::Information,
{
    let text = if result == 1 {
        "Your pet refuses the food."
    } else {
        "Your pet happily ate the food."
    };
    ChatMessage { text: String::from_str(text), color: MessageColor::Information }
}

/// The error message for the answer to a whisper: none where it was
/// delivered (result 0).
pub fn whisper_ack_message(result: u8) -> (message: Option<ChatMessage>)
    ensures
        result == 0 <==> message is None,
        message matches Some(m) ==> m.color == MessageColor::Error && m.text@ == (if result
            == 1 {
            "That player is not online."@
        } else {
            "Whisper failed."@
        }),
{
    if result == 0 {
        None
    } else if result == 1 {
        Some(
            ChatMessage {
                text: String::from_str("That player is not online."),
                color: MessageColor::Error,
            },
        )
    } else {
        Some(ChatMessage { text: String::from_str("Whisper failed."), color: MessageColor::Error })
    }
}

/// A whisper that `sender` sent: `sender: message`, both without their NUL
/// padding.
pub fn whisper_message(sender: &str, message: &str) -> (chat: ChatMessage)
    ensures
        chat.text@ == without_nul(sender@) + ": "@ + without_nul(message@),
        chat.color == MessageColor::Whisper,
{
    let mut text = trim_nul(sender);
    text.append(": ");
    let body = trim_nul(message);
    text.append(body.as_str());
    ChatMessage { text, color: MessageColor::Whisper }
}

/// A message of the party chat, without its NUL padding.
pub fn party_chat_message(message: &str) -> (chat: ChatMessage)
    ensures
        chat.text@ == "[Party] "@ + without_nul(message@),
        chat.color == MessageColor::Party,
{
    let mut text = String::from_str("[Party] ");
    let body = trim_nul(message);
    text.append(body.as_str());
    ChatMessage { text, color: MessageColor::Party }
}

/// A message of the guild chat, without its NUL padding.
pub fn guild_chat_message(message: &str) -> (chat: ChatMessage)
    ensures
        chat.text@ == "[Guild] "@ + without_nul(message@),
        chat.color == MessageColor::Guild,
{
    let mut text = String::from_str("[Guild] ");
    let body = trim_nul(message);
    text.append(body.as_str());
    ChatMessage { text, color: MessageColor::Guild }
}

/// The text for the result of inviting `name` into the party.
pub open spec fn party_join_text(name: Seq<char>, result: u8) -> Seq<char> {
    if result == 0 {
        name + " has joined the party."@
    } else if result == 1 {
        name + " rejected the party invitation."@
    } else if result == 2 {
        name + "'s party is full."@
    } else {
        "Party join failed for "@ + name + " (code "@ + decimal(result as nat) + ")."@
    }
}

/// The message for the result of inviting `character_name` into the party.
pub fn party_join_message(character_name: &str, result: u8) -> (chat: ChatMessage)
    ensures
        chat.text@ == party_join_text(character_name@, result),
        chat.color == MessageColor::Information,
{
    let text = if result == 0 {
        String::from_str(character_name).concat(" has joined the party.")
    } else if result == 1 {
        String::from_str(character_name).concat(" rejected the party invitation.")
    } else if result == 2 {
        String::from_str(character_name).concat("'s party is full.")
    } else {
        let mut text = String::from_str("Party join failed for ");
        text.append(character_name);
        text.append(" (code ");
        push_decimal(&mut text, result as u64);
        text.append(").");
        text
    };
    ChatMessage { text, color: MessageColor::Information }
}

/// How the other player answered a friend request.
#[derive(Debug, Clone, Copy, PartialEq, Eq, Structural)]
pub enum FriendRequestResult {
    Accepted,
    Rejected,
    OwnFriendListFull,
    OtherFriendListFull,
}

/// The text for the answer to a friend request to `name`.
pub open spec fn friend_request_text(result: FriendRequestResult, name: Seq<char>) -> Seq<char> {
    match result {
        FriendRequestResult::Accepted => "You have become friends with "@ + name + "."@,
        FriendRequestResult::Rejected => name + " does not want to be friends with you."@,
        FriendRequestResult::OwnFriendListFull => "Your Friend List is full."@,
        FriendRequestResult::OtherFriendListFull => name + "'s Friend List is full."@,
    }
}

impl FriendRequestResult {
    /// The message for this answer to a friend request to `name`.
    pub fn message(self, name: &str) -> (chat: ChatMessage)
        ensures
            chat.text@ == friend_request_text(self, name@),
            chat.color == MessageColor::Information,
    {
        let text = match self {
            FriendRequestResult::Accepted => {
                let mut text = String::from_str("You have become friends with ");
                text.append(name);
                text.append(".");
                text
            },
            FriendRequestResult::Rejected => String::from_str(name).concat(
                " does not want to be friends with you.",
            ),
            FriendRequestResult::OwnFriendListFull => String::from_str("Your Friend List is full."),
            FriendRequestResult::OtherFriendListFull => String::from_str(name).concat(
                "'s Friend List is full.",
            ),
        };
        ChatMessage { text, color: MessageColor::Information }
    }

    /// Whether the friend joins the friend list: only where accepted.
    pub fn adds_friend(self) -> (adds: bool)
        ensures
            adds == (self == FriendRequestResult::Accepted),
    {
        match self {
            FriendRequestResult::Accepted => true,
            _ => false,
        }
    }
}

/// The message that points the player to a monster on `map_name` (without
/// its NUL padding) at (`x`, `y`).
pub fn navigate_to_message(map_name: &str, x: u16, y: u16) -> (chat: ChatMessage)
    ensures
        chat.text@ == "Navigate to: "@ + strip_trailing(map_name@, '\0') + " ("@ + decimal(
            x as nat,
        ) + ", "@ + decimal(y as nat) + ")"@,
        chat.color == MessageColor::Information,
{
    let mut text = String::from_str("Navigate to: ");
    let name = trim_nul_end(map_name);
    text.append(name.as_str());
    text.append(" (");
    push_decimal(&mut text, x as u64);
    text.append(", ");
    push_decimal(&mut text, y as u64);
    text.append(")");
    ChatMessage { text, color: MessageColor::Information }
}

/// The notice that PK mode is on, where the state change says so.
pub fn pk_mode_message(is_pk_mode_on: u8) -> (chat: Option<ChatMessage>)
    ensures
        chat is Some <==> is_pk_mode_on != 0,
        chat matches Some(m) ==> m.text@ == "PK Mode is enabled on this map."@ && m.color
            == MessageColor::Server,
{
    if is_pk_mode_on != 0 {
        Some(
            ChatMessage {
                text: String::from_str("PK Mode is enabled on this map."),
                color: MessageColor::Server,
            },
        )
    } else {
        None
    }
}

/// What the server says of an ammunition request.
#[derive(Debug, Clone, Copy, PartialEq, Eq, Structural)]
pub enum AmmunitionActionType {
    EquipProperAmmunitionFirst,
    WeightLimitExceeded1,
    WeightLimitExceeded2,
    Equipped,
}

/// The error message for an ammunition request; none where it was
/// equipped.
pub fn ammunition_action_message(action: AmmunitionActionType) -> (chat: Option<ChatMessage>)
    ensures
        chat is None <==> action == AmmunitionActionType::Equipped,
        chat matches Some(m) ==> m.color == MessageColor::Error && m.text@ == (if action
            == AmmunitionActionType::EquipProperAmmunitionFirst {
            "Please equip the proper ammunition first."@
        } else {
            "You are carrying too many items."@
        }),
{
    let text = match action {
        AmmunitionActionType::EquipProperAmmunitionFirst => "Please equip the proper ammunition first.",
        AmmunitionActionType::WeightLimitExceeded1 | AmmunitionActionType::WeightLimitExceeded2 =>
            "You are carrying too many items.",
        AmmunitionActionType::Equipped => return None,
    };
    Some(ChatMessage { text: String::from_str(text), color: MessageColor::Error })
}

} // verus!
