//! The guild window: the guild's header line and its member list.
use super::WindowClass;
use crate::text::{decimal, push_decimal, push_signed_decimal, signed_decimal};
use vstd::prelude::*;

verus! {

/// What the guild window shows of the player's guild.
#[derive(Debug, Clone)]
pub struct GuildInfo {
    pub guild_name: String,
    pub guild_level: u32,
    pub master_name: String,
    pub member_count: u32,
    pub max_member_count: u32,
}

/// The header line for `info`.
pub open spec fn guild_header(info: GuildInfo) -> Seq<char> {
    if info.guild_name@.len() == 0 {
        "Not in a guild"@
    } else {
        info.guild_name@ + " (Lv."@ + decimal(info.guild_level as nat) + ") - Master: "@
            + info.master_name@ + " - Members: "@ + decimal(info.member_count as nat) + "/"@
            + decimal(info.max_member_count as nat)
    }
}

/// A window with the guild's header and the members that the paths point
/// to.
pub struct GuildWindow<P, I> {
    pub members_path: P,
    pub guild_info_path: I,
}

impl<P, I> GuildWindow<P, I> {
    pub fn new(members_path: P, guild_info_path: I) -> (window: Self)
        ensures
            window.members_path == members_path,
            window.guild_info_path == guild_info_path,
    {
        Self { members_path, guild_info_path }
    }

    pub fn window_class() -> (class: Option<WindowClass>)
        ensures
            class == Some(WindowClass::Guild),
    {
        Some(WindowClass::Guild)
    }

    /// The header line: the guild's name, level, master and member count,
    /// or that the player is in no guild.
    pub fn header_text(info: &GuildInfo) -> (text: String)
        ensures
            text@ == guild_header(*info),
    {
        if info.guild_name.as_str().is_empty() {
            return String::from_str("Not in a guild");
        }
        let mut text = info.guild_name.clone();
        text.append(" (Lv.");
        push_decimal(&mut text, info.guild_level as u64);
        text.append(") - Master: ");
        text.append(info.master_name.as_str());
        text.append(" - Members: ");
        push_decimal(&mut text, info.member_count as u64);
        text.append("/");
        push_decimal(&mut text, info.max_member_count as u64);
        text
    }

    /// The level line of a member.
    pub fn level_text(level: u16) -> (text: String)
        ensures
            text@ == "Level: "@ + decimal(level as nat),
    {
        let mut text = String::from_str("Level: ");
        push_decimal(&mut text, level as u64);
        text
    }

    /// The job line of a member.
    pub fn job_text(job: i16) -> (text: String)
        ensures
            text@ == "Job: "@ + signed_decimal(job as int),
    {
        let mut text = String::from_str("Job: ");
        push_signed_decimal(&mut text, job as i64);
        text
    }

    /// The status line of a member.
    pub fn online_text(online: bool) -> (text: String)
        ensures
            text@ == (if online {
                "Status: Online"@
            } else {
                "Status: Offline"@
            }),
    {
        if online {
            String::from_str("Status: Online")
        } else {
            String::from_str("Status: Offline")
        }
    }
}

} // verus!
