//! The reasons that the login and character servers give for refusing a
//! request, and the message that the client shows for each.
use vstd::prelude::*;

verus! {

/// Why the login (or character) server refused a login, in its first
/// form.
#[derive(Debug, Clone, Copy, PartialEq, Eq, Structural)]
pub enum LoginFailedReason {
    ServerClosed,
    AlreadyLoggedIn,
    AlreadyOnline,
}

/// Why the login server refused a login, in its second form.
#[derive(Debug, Clone, Copy, PartialEq, Eq, Structural)]
pub enum LoginFailedReason2 {
    UnregisteredId,
    IncorrectPassword,
    IdExpired,
    RejectedFromServer,
    BlockedByGMTeam,
    GameOutdated,
    LoginProhibitedUntil,
    ServerFull,
    CompanyAccountLimitReached,
}

/// Why a login failed, whichever form the server used.
#[derive(Debug, Clone, Copy, PartialEq, Eq, Structural)]
pub enum UnifiedLoginFailedReason {
    ServerClosed,
    AlreadyLoggedIn,
    AlreadyOnline,
    UnregisteredId,
    IncorrectPassword,
    IdExpired,
    RejectedFromServer,
    BlockedByGMTeam,
    GameOutdated,
    LoginProhibitedUntil,
    ServerFull,
    CompanyAccountLimitReached,
}

/// The message for a login refused in the first form.
pub open spec fn login_failed_text(reason: LoginFailedReason) -> Seq<char> {
    match reason {
        LoginFailedReason::ServerClosed => "Server closed"@,
        LoginFailedReason::AlreadyLoggedIn => "Someone has already logged in with this id"@,
        LoginFailedReason::AlreadyOnline => "Already online"@,
    }
}

/// The message for a login refused in the second form.
pub open spec fn login_failed2_text(reason: LoginFailedReason2) -> Seq<char> {
    match reason {
        LoginFailedReason2::UnregisteredId => "Unregistered id"@,
        LoginFailedReason2::IncorrectPassword => "Incorrect password"@,
        LoginFailedReason2::IdExpired => "Id has expired"@,
        LoginFailedReason2::RejectedFromServer => "Rejected from server"@,
        LoginFailedReason2::BlockedByGMTeam => "Blocked by gm team"@,
        LoginFailedReason2::GameOutdated => "Game outdated"@,
        LoginFailedReason2::LoginProhibitedUntil => "Login prohibited until"@,
        LoginFailedReason2::ServerFull => "Server is full"@,
        LoginFailedReason2::CompanyAccountLimitReached => "Company account limit reached"@,
    }
}

impl LoginFailedReason {
    /// The message that the client shows for this reason.
    pub fn message(self) -> (text: &'static str)
        ensures
            text@ == login_failed_text(self),
    {
        match self {
            LoginFailedReason::ServerClosed => "Server closed",
            LoginFailedReason::AlreadyLoggedIn => "Someone has already logged in with this id",
            LoginFailedReason::AlreadyOnline => "Already online",
        }
    }

    /// The unified reason, with its message.
    pub fn unified(self) -> (failure: (UnifiedLoginFailedReason, &'static str))
        ensures
            failure.1@ == login_failed_text(self),
            failure.0 == match self {
                LoginFailedReason::ServerClosed => UnifiedLoginFailedReason::ServerClosed,
                LoginFailedReason::AlreadyLoggedIn => UnifiedLoginFailedReason::AlreadyLoggedIn,
                LoginFailedReason::AlreadyOnline => UnifiedLoginFailedReason::AlreadyOnline,
            },
    {
        let reason = match self {
            LoginFailedReason::ServerClosed => UnifiedLoginFailedReason::ServerClosed,
            LoginFailedReason::AlreadyLoggedIn => UnifiedLoginFailedReason::AlreadyLoggedIn,
            LoginFailedReason::AlreadyOnline => UnifiedLoginFailedReason::AlreadyOnline,
        };
        (reason, self.message())
    }
}

impl LoginFailedReason2 {
    /// The unified reason, with its message.
    pub fn unified(self) -> (failure: (UnifiedLoginFailedReason, &'static str))
        ensures
            failure.1@ == login_failed2_text(self),
            failure.0 == match self {
                LoginFailedReason2::UnregisteredId => UnifiedLoginFailedReason::UnregisteredId,
                LoginFailedReason2::IncorrectPassword => UnifiedLoginFailedReason::IncorrectPassword,
                LoginFailedReason2::IdExpired => UnifiedLoginFailedReason::IdExpired,
                LoginFailedReason2::RejectedFromServer => UnifiedLoginFailedReason::RejectedFromServer,
                LoginFailedReason2::BlockedByGMTeam => UnifiedLoginFailedReason::BlockedByGMTeam,
                LoginFailedReason2::GameOutdated => UnifiedLoginFailedReason::GameOutdated,
                LoginFailedReason2::LoginProhibitedUntil => UnifiedLoginFailedReason::LoginProhibitedUntil,
                LoginFailedReason2::ServerFull => UnifiedLoginFailedReason::ServerFull,
                LoginFailedReason2::CompanyAccountLimitReached => UnifiedLoginFailedReason::CompanyAccountLimitReached,
            },
    {
        match self {
            LoginFailedReason2::UnregisteredId => (
                UnifiedLoginFailedReason::UnregisteredId,
                "Unregistered id",
            ),
            LoginFailedReason2::IncorrectPassword => (
                UnifiedLoginFailedReason::IncorrectPassword,
                "Incorrect password",
            ),
            LoginFailedReason2::IdExpired => (UnifiedLoginFailedReason::IdExpired, "Id has expired"),
            LoginFailedReason2::RejectedFromServer => (
                UnifiedLoginFailedReason::RejectedFromServer,
                "Rejected from server",
            ),
            LoginFailedReason2::BlockedByGMTeam => (
                UnifiedLoginFailedReason::BlockedByGMTeam,
                "Blocked by gm team",
            ),
            LoginFailedReason2::GameOutdated => (
                UnifiedLoginFailedReason::GameOutdated,
                "Game outdated",
            ),
            LoginFailedReason2::LoginProhibitedUntil => (
                UnifiedLoginFailedReason::LoginProhibitedUntil,
                "Login prohibited until",
            ),
            LoginFailedReason2::ServerFull => (UnifiedLoginFailedReason::ServerFull, "Server is full"),
            LoginFailedReason2::CompanyAccountLimitReached => (
                UnifiedLoginFailedReason::CompanyAccountLimitReached,
                "Company account limit reached",
            ),
        }
    }
}

/// Why the character server refused to select a character.
#[derive(Debug, Clone, Copy, PartialEq, Eq, Structural)]
pub enum CharacterSelectionFailedReason {
    RejectedFromServer,
}

/// Why selecting a character failed.
#[derive(Debug, Clone, Copy, PartialEq, Eq, Structural)]
pub enum UnifiedCharacterSelectionFailedReason {
    RejectedFromServer,
    MapServerUnavailable,
}

impl CharacterSelectionFailedReason {
    /// The unified reason, with its message.
    pub fn unified(self) -> (failure: (UnifiedCharacterSelectionFailedReason, &'static str))
        ensures
            failure.0 == UnifiedCharacterSelectionFailedReason::RejectedFromServer,
            failure.1@ == "Rejected from server"@,
    {
        match self {
            CharacterSelectionFailedReason::RejectedFromServer => (
                UnifiedCharacterSelectionFailedReason::RejectedFromServer,
                "Rejected from server",
            ),
        }
    }
}

impl UnifiedCharacterSelectionFailedReason {
    /// The failure for a selected character whose map server is
    /// unavailable, with its message.
    pub fn map_server_unavailable() -> (failure: (UnifiedCharacterSelectionFailedReason, &'static str))
        ensures
            failure.0 == UnifiedCharacterSelectionFailedReason::MapServerUnavailable,
            failure.1@ == "Map server currently unavailable"@,
    {
        (UnifiedCharacterSelectionFailedReason::MapServerUnavailable, "Map server currently unavailable")
    }
}

/// Why the character server refused to create a character.
#[derive(Debug, Clone, Copy, PartialEq, Eq, Structural)]
pub enum CharacterCreationFailedReason {
    CharacterNameAlreadyUsed,
    NotOldEnough,
    NotAllowedToUseSlot,
    CharacterCerationFailed,
}

/// The message for a refused character creation.
pub open spec fn creation_failed_text(reason: CharacterCreationFailedReason) -> Seq<char> {
    match reason {
        CharacterCreationFailedReason::CharacterNameAlreadyUsed => "Character name is already used"@,
        CharacterCreationFailedReason::NotOldEnough =>
            "You are not old enough to create a character"@,
        CharacterCreationFailedReason::NotAllowedToUseSlot =>
            "You are not allowed to use this character slot"@,
        CharacterCreationFailedReason::CharacterCerationFailed => "Character creation failed"@,
    }
}

impl CharacterCreationFailedReason {
    /// The message that the client shows for this reason.
    pub fn message(self) -> (text: &'static str)
        ensures
            text@ == creation_failed_text(self),
    {
        match self {
            CharacterCreationFailedReason::CharacterNameAlreadyUsed => "Character name is already used",
            CharacterCreationFailedReason::NotOldEnough => "You are not old enough to create a character",
            CharacterCreationFailedReason::NotAllowedToUseSlot =>
                "You are not allowed to use this character slot",
            CharacterCreationFailedReason::CharacterCerationFailed => "Character creation failed",
        }
    }
}

/// Why the character server refused to delete a character.
#[derive(Debug, Clone, Copy, PartialEq, Eq, Structural)]
pub enum CharacterDeletionFailedReason {
    NotAllowed,
    CharacterNotFound,
    NotEligible,
}

/// The message for a refused character deletion.
pub open spec fn deletion_failed_text(reason: CharacterDeletionFailedReason) -> Seq<char> {
    match reason {
        CharacterDeletionFailedReason::NotAllowed => "You are not allowed to delete this character"@,
        CharacterDeletionFailedReason::CharacterNotFound => "Character was not found"@,
        CharacterDeletionFailedReason::NotEligible => "Character is not eligible for deletion"@,
    }
}

impl CharacterDeletionFailedReason {
    /// The message that the client shows for this reason.
    pub fn message(self) -> (text: &'static str)
        ensures
            text@ == deletion_failed_text(self),
    {
        match self {
            CharacterDeletionFailedReason::NotAllowed => "You are not allowed to delete this character",
            CharacterDeletionFailedReason::CharacterNotFound => "Character was not found",
            CharacterDeletionFailedReason::NotEligible => "Character is not eligible for deletion",
        }
    }
}

/// The status with which the character server answers a request to move
/// a character to another slot.
#[derive(Debug, Clone, Copy, PartialEq, Eq, Structural)]
pub enum SwitchCharacterSlotResponseStatus {
    Success,
    Error,
}

/// What the client learns from the answer to a slot switch.
#[derive(Debug, Clone, Copy, PartialEq, Eq, Structural)]
pub enum CharacterSlotSwitch {
    Switched,
    SwitchFailed,
}

impl SwitchCharacterSlotResponseStatus {
    /// The event for this status: the character moved where the server
    /// reports success, otherwise the switch failed.
    pub fn event(self) -> (event: CharacterSlotSwitch)
        ensures
            event == (match self {
                SwitchCharacterSlotResponseStatus::Success => CharacterSlotSwitch::Switched,
                SwitchCharacterSlotResponseStatus::Error => CharacterSlotSwitch::SwitchFailed,
            }),
    {
        match self {
            SwitchCharacterSlotResponseStatus::Success => CharacterSlotSwitch::Switched,
            SwitchCharacterSlotResponseStatus::Error => CharacterSlotSwitch::SwitchFailed,
        }
    }
}

} // verus!
