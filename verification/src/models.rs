//! The rows of the persisted tables, as plain values.

use vstd::prelude::*;

verus! {

/// A guild's row: its settings for every feature.
#[derive(Debug, Clone)]
pub struct Guild {
    pub id: i64,
    pub name: String,
    pub prefix: String,
    pub language: String,
    pub welcome_channel_id: Option<i64>,
    pub welcome_message: Option<String>,
    pub welcome_enabled: i64,
    pub goodbye_channel_id: Option<i64>,
    pub goodbye_message: Option<String>,
    pub goodbye_enabled: i64,
    pub log_channel_id: Option<i64>,
    pub level_enabled: i64,
    pub level_channel_id: Option<i64>,
    pub level_message: Option<String>,
    pub moderation_enabled: i64,
    pub mute_role_id: Option<i64>,
    pub tickets_enabled: i64,
    pub tickets_category_id: Option<i64>,
    pub tickets_log_channel_id: Option<i64>,
    pub voice_channels_enabled: i64,
    pub voice_channels_category_id: Option<i64>,
    pub voice_channels_template: Option<String>,
    pub created_at: String,
    pub updated_at: String,
}

/// A member's row: experience, balances and moderation counters within one guild.
#[derive(Debug, Clone)]
pub struct Member {
    pub id: i64,
    pub guild_id: i64,
    pub user_id: i64,
    pub username: String,
    pub xp: i64,
    pub level: i64,
    pub messages_count: i64,
    pub voice_time: i64,
    pub coins: i64,
    pub bank: i64,
    pub last_daily: Option<String>,
    pub last_weekly: Option<String>,
    pub last_work: Option<String>,
    pub warnings_count: i64,
    pub is_banned: i64,
    pub created_at: String,
    pub updated_at: String,
}

/// A role that new members of a guild receive.
#[derive(Debug, Clone)]
pub struct AutoRole {
    pub id: i64,
    pub guild_id: i64,
    pub role_id: i64,
    pub enabled: i64,
    pub created_at: String,
}

/// A row of the channel registry: a lobby (owner `0`) or a voice channel made for its owner.
#[derive(Debug, Clone, PartialEq, Eq)]
pub struct VoiceChannel {
    pub id: i64,
    pub guild_id: i64,
    pub channel_id: i64,
    pub owner_id: i64,
    pub name: String,
    pub created_at: String,
}

/// What a registry row states, as mathematical values.
pub struct Row {
    pub id: i64,
    pub guild_id: i64,
    pub channel_id: i64,
    pub owner_id: i64,
    pub name: Seq<char>,
    pub created_at: Seq<char>,
}

/// Who a registry row belongs to.
#[derive(Debug, Clone, Copy, PartialEq, Eq, Structural)]
pub enum Owner {
    /// The row marks a lobby: joining its channel spawns a room.
    LobbyMarker,
    /// The row records a room made for this user.
    OwnedBy(i64),
}

impl Row {
    /// A lobby row carries the owner `0`.
    pub open spec fn is_lobby(self) -> bool {
        self.owner_id == 0
    }

    /// An active row records a room and its owner.
    pub open spec fn is_active(self) -> bool {
        self.owner_id != 0
    }

    pub open spec fn owner(self) -> Owner {
        if self.owner_id == 0 {
            Owner::LobbyMarker
        } else {
            Owner::OwnedBy(self.owner_id)
        }
    }
}

impl View for VoiceChannel {
    type V = Row;

    open spec fn view(&self) -> Row {
        Row {
            id: self.id,
            guild_id: self.guild_id,
            channel_id: self.channel_id,
            owner_id: self.owner_id,
            name: self.name@,
            created_at: self.created_at@,
        }
    }
}

/// The rows of `stored`, each by what it states.
pub open spec fn rows_of(stored: Seq<VoiceChannel>) -> Seq<Row> {
    Seq::new(stored.len(), |i: int| stored[i]@)
}

impl VoiceChannel {
    /// Whether the row marks a lobby.
    pub fn is_lobby(&self) -> (lobby: bool)
        ensures
            lobby == self@.is_lobby(),
    {
        self.owner_id == 0
    }

    /// Whether the row records a room that a user owns.
    pub fn is_active(&self) -> (active: bool)
        ensures
            active == self@.is_active(),
    {
        self.owner_id != 0
    }

    /// Who the row belongs to.
    pub fn owner(&self) -> (owner: Owner)
        ensures
            owner == self@.owner(),
    {
        if self.owner_id == 0 {
            Owner::LobbyMarker
        } else {
            Owner::OwnedBy(self.owner_id)
        }
    }

    /// A copy of the row.
    pub fn duplicate(&self) -> (copy: VoiceChannel)
        ensures
            copy@ == self@,
    {
        VoiceChannel {
            id: self.id,
            guild_id: self.guild_id,
            channel_id: self.channel_id,
            owner_id: self.owner_id,
            name: self.name.clone(),
            created_at: self.created_at.clone(),
        }
    }
}

} // verus!
