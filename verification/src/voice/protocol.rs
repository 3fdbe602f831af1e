//! The values that pass between the orchestrator and the outside: the notification it handles,
//! the calls it asks for, and the answers it is given.

use crate::models::{Guild, Row, VoiceChannel, rows_of};
use vstd::prelude::*;

verus! {

/// A change of a user's voice presence, as the platform reports it.
#[derive(Debug, Clone, Copy, PartialEq, Eq)]
pub struct VoicePresenceChange {
    /// The guild in which the change happened; none for a change outside any guild.
    pub guild_id: Option<u64>,
    pub user_id: u64,
    /// The channel the user was in before the change.
    pub old_channel_id: Option<u64>,
    /// The channel the user is in after the change.
    pub new_channel_id: Option<u64>,
}

/// A guild's settings for personal voice channels.
#[derive(Debug, Clone, PartialEq, Eq)]
pub struct VoiceSettings {
    pub enabled: bool,
    /// The category under which rooms are made, as stored.
    pub category_id: Option<i64>,
    /// The template of a room's name; none for the default.
    pub template: Option<String>,
}

/// What a guild's voice settings state.
pub struct VoiceSettingsView {
    pub enabled: bool,
    pub category_id: Option<i64>,
    pub template: Option<Seq<char>>,
}

/// The view of an optional text.
pub open spec fn text_of(text: Option<String>) -> Option<Seq<char>> {
    match text {
        Some(t) => Some(t@),
        None => None,
    }
}

impl View for VoiceSettings {
    type V = VoiceSettingsView;

    open spec fn view(&self) -> VoiceSettingsView {
        VoiceSettingsView {
            enabled: self.enabled,
            category_id: self.category_id,
            template: text_of(self.template),
        }
    }
}

/// A copy of an optional text.
pub fn copy_text(text: &Option<String>) -> (copy: Option<String>)
    ensures
        text_of(copy) == text_of(*text),
{
    match text {
        Some(t) => Some(t.clone()),
        None => None,
    }
}

impl Guild {
    /// The part of the guild's settings that governs personal voice channels.
    pub fn voice_settings(&self) -> (settings: VoiceSettings)
        ensures
            settings@ == (VoiceSettingsView {
                enabled: self.voice_channels_enabled != 0,
                category_id: self.voice_channels_category_id,
                template: text_of(self.voice_channels_template),
            }),
    {
        VoiceSettings {
            enabled: self.voice_channels_enabled != 0,
            category_id: self.voice_channels_category_id,
            template: copy_text(&self.voice_channels_template),
        }
    }
}

/// A call that the orchestrator asks its host to make, on the registry or on the platform.
#[allow(inconsistent_fields)]
#[derive(Debug, Clone, PartialEq, Eq)]
pub enum Request {
    /// Read the guild's voice settings.
    LoadSettings { guild_id: i64 },
    /// Read the guild's lobby rows.
    LoadLobbies { guild_id: i64 },
    /// Ask the platform for the user's name.
    ResolveUserName { user_id: u64 },
    /// Create a voice channel of this name in the guild, under the category if one is given.
    CreateVoiceChannel { guild_id: u64, category_id: Option<u64>, name: String },
    /// Move the user into the channel.
    MoveMember { guild_id: u64, user_id: u64, channel_id: u64 },
    /// Write the row of a room just made.
    InsertRow { guild_id: i64, channel_id: i64, owner_id: i64, name: String },
    /// Read the active row of the channel, if it has one.
    FindActiveRow { channel_id: i64 },
    /// Ask the platform how many members are in the channel now.
    QueryOccupancy { guild_id: u64, channel_id: u64 },
    /// Delete the channel on the platform.
    DeleteChannel { channel_id: u64 },
    /// Remove the channel's active row.
    DeleteRow { channel_id: i64 },
    /// Read the guild's active rows.
    LoadActiveRows { guild_id: i64 },
    /// Ask the platform for the guild's channels.
    ListLiveChannels { guild_id: u64 },
}

/// What a [`Request`] asks for.
#[allow(inconsistent_fields)]
pub enum RequestView {
    LoadSettings { guild_id: i64 },
    LoadLobbies { guild_id: i64 },
    ResolveUserName { user_id: u64 },
    CreateVoiceChannel { guild_id: u64, category_id: Option<u64>, name: Seq<char> },
    MoveMember { guild_id: u64, user_id: u64, channel_id: u64 },
    InsertRow { guild_id: i64, channel_id: i64, owner_id: i64, name: Seq<char> },
    FindActiveRow { channel_id: i64 },
    QueryOccupancy { guild_id: u64, channel_id: u64 },
    DeleteChannel { channel_id: u64 },
    DeleteRow { channel_id: i64 },
    LoadActiveRows { guild_id: i64 },
    ListLiveChannels { guild_id: u64 },
}

impl View for Request {
    type V = RequestView;

    open spec fn view(&self) -> RequestView {
        match *self {
            Request::LoadSettings { guild_id } => RequestView::LoadSettings { guild_id },
            Request::LoadLobbies { guild_id } => RequestView::LoadLobbies { guild_id },
            Request::ResolveUserName { user_id } => RequestView::ResolveUserName { user_id },
            Request::CreateVoiceChannel { guild_id, category_id, name } => {
                RequestView::CreateVoiceChannel { guild_id, category_id, name: name@ }
            },
            Request::MoveMember { guild_id, user_id, channel_id } => RequestView::MoveMember {
                guild_id,
                user_id,
                channel_id,
            },
            Request::InsertRow { guild_id, channel_id, owner_id, name } => RequestView::InsertRow {
                guild_id,
                channel_id,
                owner_id,
                name: name@,
            },
            Request::FindActiveRow { channel_id } => RequestView::FindActiveRow { channel_id },
            Request::QueryOccupancy { guild_id, channel_id } => RequestView::QueryOccupancy {
                guild_id,
                channel_id,
            },
            Request::DeleteChannel { channel_id } => RequestView::DeleteChannel { channel_id },
            Request::DeleteRow { channel_id } => RequestView::DeleteRow { channel_id },
            Request::LoadActiveRows { guild_id } => RequestView::LoadActiveRows { guild_id },
            Request::ListLiveChannels { guild_id } => RequestView::ListLiveChannels { guild_id },
        }
    }
}

impl RequestView {
    /// Whether the call changes the platform or the registry.
    pub open spec fn is_mutation(self) -> bool {
        self is CreateVoiceChannel || self is MoveMember || self is InsertRow
            || self is DeleteChannel || self is DeleteRow
    }
}

/// The answer to a [`Request`]. Each call has one answer that reports its success; `Failed`
/// stands for a call that failed, timed out, or whose outcome is not known.
#[derive(Debug, Clone, PartialEq, Eq)]
pub enum Reply {
    /// The guild's voice settings; none where the guild has no row.
    Settings(Option<VoiceSettings>),
    Lobbies(Vec<VoiceChannel>),
    UserName(String),
    /// The channel that was created.
    Created(u64),
    Moved,
    Inserted,
    ActiveRow(Option<VoiceChannel>),
    /// The number of members in the channel at the time of the answer.
    Occupancy(u64),
    Deleted,
    RowDeleted,
    ActiveRows(Vec<VoiceChannel>),
    LiveChannels(Vec<u64>),
    Failed,
}

/// What a [`Reply`] states.
pub enum ReplyView {
    Settings(Option<VoiceSettingsView>),
    Lobbies(Seq<Row>),
    UserName(Seq<char>),
    Created(u64),
    Moved,
    Inserted,
    ActiveRow(Option<Row>),
    Occupancy(u64),
    Deleted,
    RowDeleted,
    ActiveRows(Seq<Row>),
    LiveChannels(Seq<u64>),
    Failed,
}

impl View for Reply {
    type V = ReplyView;

    open spec fn view(&self) -> ReplyView {
        match *self {
            Reply::Settings(settings) => ReplyView::Settings(
                match settings {
                    Some(s) => Some(s@),
                    None => None,
                },
            ),
            Reply::Lobbies(rows) => ReplyView::Lobbies(rows_of(rows@)),
            Reply::UserName(name) => ReplyView::UserName(name@),
            Reply::Created(channel_id) => ReplyView::Created(channel_id),
            Reply::Moved => ReplyView::Moved,
            Reply::Inserted => ReplyView::Inserted,
            Reply::ActiveRow(row) => ReplyView::ActiveRow(
                match row {
                    Some(r) => Some(r@),
                    None => None,
                },
            ),
            Reply::Occupancy(members) => ReplyView::Occupancy(members),
            Reply::Deleted => ReplyView::Deleted,
            Reply::RowDeleted => ReplyView::RowDeleted,
            Reply::ActiveRows(rows) => ReplyView::ActiveRows(rows_of(rows@)),
            Reply::LiveChannels(channels) => ReplyView::LiveChannels(channels@),
            Reply::Failed => ReplyView::Failed,
        }
    }
}

} // verus!
