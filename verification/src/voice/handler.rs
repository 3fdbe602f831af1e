//! The handling of one voice-presence notification, step by step: each step names the call
//! the host is to make next, and the answer to that call decides the step after it.

use crate::models::{Row, VoiceChannel, rows_of};
use crate::text::{substitute, substituted};
use crate::utils::{db_id_of, from_db_id, platform_id_of, to_db_id};
use crate::voice::protocol::{text_of, Reply, ReplyView, Request, RequestView, VoicePresenceChange};
use vstd::prelude::*;

verus! {

/// A failed call that ends the handling of a notification.
#[derive(Debug, Clone, Copy, PartialEq, Eq, Structural)]
pub enum Failure {
    /// The guild's settings could not be read.
    Settings,
    /// The guild's lobby rows could not be read.
    Lobbies,
    /// The joining user's name could not be resolved.
    UserName,
    /// The row of a room just made could not be written.
    Insert,
    /// The departed channel's row could not be read.
    RowLookup,
    /// The row of a deleted channel could not be removed.
    RowDelete,
}

/// What the handling of one notification did.
#[derive(Debug, Clone, Copy, PartialEq, Eq)]
pub struct Summary {
    /// The channel created for the joining user.
    pub spawned: Option<u64>,
    /// The create call was made and did not succeed.
    pub create_failed: bool,
    /// The user was moved into the channel created.
    pub moved: bool,
    /// The row of the channel created was written.
    pub registered: bool,
    /// The departed channel that was deleted on the platform.
    pub reclaimed: Option<u64>,
    /// The delete call was made and did not succeed; the row stays.
    pub delete_failed: bool,
    /// The row of the deleted channel was removed.
    pub unregistered: bool,
    /// The failed call that ended the handling early.
    pub error: Option<Failure>,
}

/// The call a handler waits on, with what it must remember for the steps after it.
#[derive(Debug, Clone, PartialEq, Eq)]
pub enum Stage {
    Settings,
    Lobbies { category_id: Option<i64>, template: Option<String> },
    UserName { category_id: Option<i64>, template: Option<String> },
    Create { category_id: Option<u64>, name: String },
    Move { channel_id: u64, name: String },
    Insert { channel_id: u64, name: String },
    ActiveRow { channel_id: u64 },
    Occupancy { channel_id: u64 },
    Delete { channel_id: u64 },
    RowDelete { channel_id: u64 },
    Finished,
}

/// What a [`Stage`] states.
pub enum StageView {
    Settings,
    Lobbies { category_id: Option<i64>, template: Option<Seq<char>> },
    UserName { category_id: Option<i64>, template: Option<Seq<char>> },
    Create { category_id: Option<u64>, name: Seq<char> },
    Move { channel_id: u64, name: Seq<char> },
    Insert { channel_id: u64, name: Seq<char> },
    ActiveRow { channel_id: u64 },
    Occupancy { channel_id: u64 },
    Delete { channel_id: u64 },
    RowDelete { channel_id: u64 },
    Finished,
}

impl View for Stage {
    type V = StageView;

    open spec fn view(&self) -> StageView {
        match *self {
            Stage::Settings => StageView::Settings,
            Stage::Lobbies { category_id, template } => StageView::Lobbies {
                category_id,
                template: text_of(template),
            },
            Stage::UserName { category_id, template } => StageView::UserName {
                category_id,
                template: text_of(template),
            },
            Stage::Create { category_id, name } => StageView::Create { category_id, name: name@ },
            Stage::Move { channel_id, name } => StageView::Move { channel_id, name: name@ },
            Stage::Insert { channel_id, name } => StageView::Insert { channel_id, name: name@ },
            Stage::ActiveRow { channel_id } => StageView::ActiveRow { channel_id },
            Stage::Occupancy { channel_id } => StageView::Occupancy { channel_id },
            Stage::Delete { channel_id } => StageView::Delete { channel_id },
            Stage::RowDelete { channel_id } => StageView::RowDelete { channel_id },
            Stage::Finished => StageView::Finished,
        }
    }
}

/// The handling of one notification, as far as it has come.
#[derive(Debug, Clone, PartialEq, Eq)]
pub struct PresenceHandler {
    pub event: VoicePresenceChange,
    pub stage: Stage,
    pub summary: Summary,
}

/// What a [`PresenceHandler`] states.
pub struct HandlerView {
    pub event: VoicePresenceChange,
    pub stage: StageView,
    pub summary: Summary,
}

impl View for PresenceHandler {
    type V = HandlerView;

    open spec fn view(&self) -> HandlerView {
        HandlerView { event: self.event, stage: self.stage@, summary: self.summary }
    }
}

/// What the host is to do next.
#[derive(Debug, Clone, PartialEq, Eq)]
pub enum Step {
    /// Make this call and hand its answer to [`PresenceHandler::advance`].
    Call(Request),
    /// The handling is over.
    Done(Summary),
}

/// What a [`Step`] states.
pub enum StepView {
    Call(RequestView),
    Done(Summary),
}

impl View for Step {
    type V = StepView;

    open spec fn view(&self) -> StepView {
        match *self {
            Step::Call(request) => StepView::Call(request@),
            Step::Done(summary) => StepView::Done(summary),
        }
    }
}

/// The summary of a handling that has done nothing yet.
pub open spec fn nothing_done() -> Summary {
    Summary {
        spawned: None,
        create_failed: false,
        moved: false,
        registered: false,
        reclaimed: None,
        delete_failed: false,
        unregistered: false,
        error: None,
    }
}

/// The guild of a notification; `0` where it names none.
pub open spec fn guild_of(event: VoicePresenceChange) -> u64 {
    match event.guild_id {
        Some(g) => g,
        None => 0,
    }
}

/// The template of a room's name where the guild has set none.
pub open spec fn default_template() -> Seq<char> {
    "Voice room - {username}"@
}

/// The place in a template where the user's name goes.
pub open spec fn name_placeholder() -> Seq<char> {
    "{username}"@
}

/// The name of the room made for a user: the guild's template, or the default one, with the
/// user's name in the place of every placeholder.
pub open spec fn room_name(template: Option<Seq<char>>, user_name: Seq<char>) -> Seq<char> {
    substituted(
        match template {
            Some(t) => t,
            None => default_template(),
        },
        name_placeholder(),
        user_name,
    )
}

/// Whether `rows` holds a lobby row of the guild for the channel.
pub open spec fn is_trigger(rows: Seq<Row>, guild_id: i64, channel_id: i64) -> bool {
    exists|i: int|
        0 <= i < rows.len() && (#[trigger] rows[i]).guild_id == guild_id && rows[i].channel_id
            == channel_id && rows[i].owner_id == 0
}

impl HandlerView {
    /// The handler at another stage.
    pub open spec fn at(self, stage: StageView) -> HandlerView {
        HandlerView { stage, ..self }
    }

    /// The handler with another summary.
    pub open spec fn with(self, summary: Summary) -> HandlerView {
        HandlerView { summary, ..self }
    }

    /// The handling ends because a call failed.
    pub open spec fn failed(self, failure: Failure) -> HandlerView {
        HandlerView {
            stage: StageView::Finished,
            summary: Summary { error: Some(failure), ..self.summary },
            ..self
        }
    }

    /// The departure half of the handling: where the user left a channel, its active row is
    /// looked up; where the user left none, the handling is over.
    pub open spec fn departure(self) -> HandlerView {
        match self.event.old_channel_id {
            Some(channel_id) => self.at(StageView::ActiveRow { channel_id }),
            None => self.at(StageView::Finished),
        }
    }
}

/// The handler of a notification before any call was made. A notification outside any guild,
/// or of user `0` (which no user has and which the registry keeps for lobbies), is not handled.
pub open spec fn begin(event: VoicePresenceChange) -> HandlerView {
    HandlerView {
        event,
        stage: if event.guild_id is Some && event.user_id != 0 {
            StageView::Settings
        } else {
            StageView::Finished
        },
        summary: nothing_done(),
    }
}

/// What the handler asks of its host at its stage.
pub open spec fn pending(h: HandlerView) -> StepView {
    let guild_id = guild_of(h.event);
    match h.stage {
        StageView::Settings => StepView::Call(
            RequestView::LoadSettings { guild_id: db_id_of(guild_id) },
        ),
        StageView::Lobbies { .. } => StepView::Call(
            RequestView::LoadLobbies { guild_id: db_id_of(guild_id) },
        ),
        StageView::UserName { .. } => StepView::Call(
            RequestView::ResolveUserName { user_id: h.event.user_id },
        ),
        StageView::Create { category_id, name } => StepView::Call(
            RequestView::CreateVoiceChannel { guild_id, category_id, name },
        ),
        StageView::Move { channel_id, .. } => StepView::Call(
            RequestView::MoveMember { guild_id, user_id: h.event.user_id, channel_id },
        ),
        StageView::Insert { channel_id, name } => StepView::Call(
            RequestView::InsertRow {
                guild_id: db_id_of(guild_id),
                channel_id: db_id_of(channel_id),
                owner_id: db_id_of(h.event.user_id),
                name,
            },
        ),
        StageView::ActiveRow { channel_id } => StepView::Call(
            RequestView::FindActiveRow { channel_id: db_id_of(channel_id) },
        ),
        StageView::Occupancy { channel_id } => StepView::Call(
            RequestView::QueryOccupancy { guild_id, channel_id },
        ),
        StageView::Delete { channel_id } => StepView::Call(
            RequestView::DeleteChannel { channel_id },
        ),
        StageView::RowDelete { channel_id } => StepView::Call(
            RequestView::DeleteRow { channel_id: db_id_of(channel_id) },
        ),
        StageView::Finished => StepView::Done(h.summary),
    }
}

/// The handler after the answer to its pending call. An answer of another kind than the call
/// asks for counts as a failure of the call.
pub open spec fn advance(h: HandlerView, reply: ReplyView) -> HandlerView {
    match h.stage {
        StageView::Settings => match reply {
            ReplyView::Settings(Some(settings)) => if !settings.enabled {
                h.at(StageView::Finished)
            } else if h.event.new_channel_id is Some {
                h.at(
                    StageView::Lobbies {
                        category_id: settings.category_id,
                        template: settings.template,
                    },
                )
            } else {
                h.departure()
            },
            ReplyView::Settings(None) => h.at(StageView::Finished),
            _ => h.failed(Failure::Settings),
        },
        StageView::Lobbies { category_id, template } => match reply {
            ReplyView::Lobbies(rows) => if h.event.new_channel_id is Some && is_trigger(
                rows,
                db_id_of(guild_of(h.event)),
                db_id_of(h.event.new_channel_id->0),
            ) {
                h.at(StageView::UserName { category_id, template })
            } else {
                h.departure()
            },
            _ => h.failed(Failure::Lobbies),
        },
        StageView::UserName { category_id, template } => match reply {
            ReplyView::UserName(user_name) => h.at(
                StageView::Create {
                    category_id: match category_id {
                        Some(c) => Some(platform_id_of(c)),
                        None => None,
                    },
                    name: room_name(template, user_name),
                },
            ),
            _ => h.failed(Failure::UserName),
        },
        StageView::Create { name, .. } => match reply {
            ReplyView::Created(channel_id) => h.with(
                Summary { spawned: Some(channel_id), ..h.summary },
            ).at(StageView::Move { channel_id, name }),
            _ => h.with(Summary { create_failed: true, ..h.summary }).departure(),
        },
        StageView::Move { channel_id, name } => h.with(
            Summary { moved: reply is Moved, ..h.summary },
        ).at(StageView::Insert { channel_id, name }),
        StageView::Insert { .. } => match reply {
            ReplyView::Inserted => h.with(Summary { registered: true, ..h.summary }).departure(),
            _ => h.failed(Failure::Insert),
        },
        StageView::ActiveRow { channel_id } => match reply {
            ReplyView::ActiveRow(Some(row)) => if row.owner_id != 0 && row.channel_id == db_id_of(
                channel_id,
            ) {
                h.at(StageView::Occupancy { channel_id })
            } else {
                h.at(StageView::Finished)
            },
            ReplyView::ActiveRow(None) => h.at(StageView::Finished),
            _ => h.failed(Failure::RowLookup),
        },
        StageView::Occupancy { channel_id } => match reply {
            ReplyView::Occupancy(members) => if members == 0 {
                h.at(StageView::Delete { channel_id })
            } else {
                h.at(StageView::Finished)
            },
            _ => h.at(StageView::Finished),
        },
        StageView::Delete { channel_id } => match reply {
            ReplyView::Deleted => h.with(
                Summary { reclaimed: Some(channel_id), ..h.summary },
            ).at(StageView::RowDelete { channel_id }),
            _ => h.with(Summary { delete_failed: true, ..h.summary }).at(StageView::Finished),
        },
        StageView::RowDelete { .. } => match reply {
            ReplyView::RowDeleted => h.with(Summary { unregistered: true, ..h.summary }).at(
                StageView::Finished,
            ),
            _ => h.failed(Failure::RowDelete),
        },
        StageView::Finished => h,
    }
}

/// The name of the room made for a user.
pub fn room_name_of(template: &Option<String>, user_name: &str) -> (name: String)
    ensures
        name@ == room_name(text_of(*template), user_name@),
{
    match template {
        Some(t) => substitute(t.as_str(), "{username}", user_name),
        None => substitute("Voice room - {username}", "{username}", user_name),
    }
}

/// Whether `rows` holds a lobby row of the guild for the channel.
pub fn has_trigger(rows: &Vec<VoiceChannel>, guild_id: i64, channel_id: i64) -> (found: bool)
    ensures
        found == is_trigger(rows_of(rows@), guild_id, channel_id),
{
    let mut i: usize = 0;
    while i < rows.len()
        invariant
            i <= rows.len(),
            forall|j: int|
                0 <= j < i ==> !((#[trigger] rows_of(rows@)[j]).guild_id == guild_id && rows_of(
                    rows@,
                )[j].channel_id == channel_id && rows_of(rows@)[j].owner_id == 0),
        decreases rows.len() - i,
    {
        let row = &rows[i];
        if row.guild_id == guild_id && row.channel_id == channel_id && row.owner_id == 0 {
            assert(rows_of(rows@)[i as int] == rows@[i as int]@);
            return true;
        }
        assert(rows_of(rows@)[i as int] == rows@[i as int]@);
        i += 1;
    }
    false
}

impl PresenceHandler {
    /// Takes up a notification. Nothing has been asked of the host yet: [`Self::pending`]
    /// names the first call.
    pub fn begin(event: VoicePresenceChange) -> (handler: PresenceHandler)
        ensures
            handler@ == begin(event),
    {
        let handled = event.guild_id.is_some() && event.user_id != 0;
        PresenceHandler {
            event,
            stage: if handled {
                Stage::Settings
            } else {
                Stage::Finished
            },
            summary: Summary {
                spawned: None,
                create_failed: false,
                moved: false,
                registered: false,
                reclaimed: None,
                delete_failed: false,
                unregistered: false,
                error: None,
            },
        }
    }

    /// What the host is to do next: the call to make, or the summary once the handling is over.
    pub fn pending(&self) -> (step: Step)
        ensures
            step@ == pending(self@),
    {
        let guild_id: u64 = match self.event.guild_id {
            Some(g) => g,
            None => 0,
        };
        match &self.stage {
            Stage::Settings => Step::Call(Request::LoadSettings { guild_id: to_db_id(guild_id) }),
            Stage::Lobbies { .. } => Step::Call(
                Request::LoadLobbies { guild_id: to_db_id(guild_id) },
            ),
            Stage::UserName { .. } => Step::Call(
                Request::ResolveUserName { user_id: self.event.user_id },
            ),
            Stage::Create { category_id, name } => Step::Call(
                Request::CreateVoiceChannel {
                    guild_id,
                    category_id: *category_id,
                    name: name.clone(),
                },
            ),
            Stage::Move { channel_id, .. } => Step::Call(
                Request::MoveMember {
                    guild_id,
                    user_id: self.event.user_id,
                    channel_id: *channel_id,
                },
            ),
            Stage::Insert { channel_id, name } => Step::Call(
                Request::InsertRow {
                    guild_id: to_db_id(guild_id),
                    channel_id: to_db_id(*channel_id),
                    owner_id: to_db_id(self.event.user_id),
                    name: name.clone(),
                },
            ),
            Stage::ActiveRow { channel_id } => Step::Call(
                Request::FindActiveRow { channel_id: to_db_id(*channel_id) },
            ),
            Stage::Occupancy { channel_id } => Step::Call(
                Request::QueryOccupancy { guild_id, channel_id: *channel_id },
            ),
            Stage::Delete { channel_id } => Step::Call(
                Request::DeleteChannel { channel_id: *channel_id },
            ),
            Stage::RowDelete { channel_id } => Step::Call(
                Request::DeleteRow { channel_id: to_db_id(*channel_id) },
            ),
            Stage::Finished => Step::Done(self.summary),
        }
    }

    /// Whether the handling is over.
    pub fn is_finished(&self) -> (finished: bool)
        ensures
            finished == (self@.stage is Finished),
    {
        match &self.stage {
            Stage::Finished => true,
            _ => false,
        }
    }

    fn at(self, stage: Stage) -> (next: PresenceHandler)
        ensures
            next@ == self@.at(stage@),
    {
        PresenceHandler { event: self.event, stage, summary: self.summary }
    }

    fn failed(self, failure: Failure) -> (next: PresenceHandler)
        ensures
            next@ == self@.failed(failure),
    {
        let summary = Summary { error: Some(failure), ..self.summary };
        PresenceHandler { event: self.event, stage: Stage::Finished, summary }
    }

    fn departure(self) -> (next: PresenceHandler)
        ensures
            next@ == self@.departure(),
    {
        match self.event.old_channel_id {
            Some(channel_id) => self.at(Stage::ActiveRow { channel_id }),
            None => self.at(Stage::Finished),
        }
    }

    /// Takes the answer to the pending call and moves to the next stage.
    pub fn advance(self, reply: Reply) -> (next: PresenceHandler)
        ensures
            next@ == advance(self@, reply@),
    {
        let event = self.event;
        let summary = self.summary;
        let guild_id: u64 = match event.guild_id {
            Some(g) => g,
            None => 0,
        };
        match self.stage {
            Stage::Settings => match reply {
                Reply::Settings(Some(settings)) => {
                    let handler = PresenceHandler { event, stage: Stage::Settings, summary };
                    if !settings.enabled {
                        handler.at(Stage::Finished)
                    } else if event.new_channel_id.is_some() {
                        handler.at(
                            Stage::Lobbies {
                                category_id: settings.category_id,
                                template: settings.template,
                            },
                        )
                    } else {
                        handler.departure()
                    }
                },
                Reply::Settings(None) => PresenceHandler { event, stage: Stage::Finished, summary },
                _ => PresenceHandler { event, stage: Stage::Settings, summary }.failed(
                    Failure::Settings,
                ),
            },
            Stage::Lobbies { category_id, template } => match reply {
                Reply::Lobbies(rows) => {
                    let triggered = match event.new_channel_id {
                        Some(channel_id) => has_trigger(
                            &rows,
                            to_db_id(guild_id),
                            to_db_id(channel_id),
                        ),
                        None => false,
                    };
                    if triggered {
                        PresenceHandler {
                            event,
                            stage: Stage::UserName { category_id, template },
                            summary,
                        }
                    } else {
                        PresenceHandler { event, stage: Stage::Finished, summary }.departure()
                    }
                },
                _ => PresenceHandler { event, stage: Stage::Finished, summary }.failed(
                    Failure::Lobbies,
                ),
            },
            Stage::UserName { category_id, template } => match reply {
                Reply::UserName(user_name) => {
                    let name = room_name_of(&template, user_name.as_str());
                    let category_id = match category_id {
                        Some(c) => Some(from_db_id(c)),
                        None => None,
                    };
                    PresenceHandler { event, stage: Stage::Create { category_id, name }, summary }
                },
                _ => PresenceHandler { event, stage: Stage::Finished, summary }.failed(
                    Failure::UserName,
                ),
            },
            Stage::Create { category_id: _, name } => match reply {
                Reply::Created(channel_id) => PresenceHandler {
                    event,
                    stage: Stage::Move { channel_id, name },
                    summary: Summary { spawned: Some(channel_id), ..summary },
                },
                _ => PresenceHandler {
                    event,
                    stage: Stage::Finished,
                    summary: Summary { create_failed: true, ..summary },
                }.departure(),
            },
            Stage::Move { channel_id, name } => {
                let moved = match reply {
                    Reply::Moved => true,
                    _ => false,
                };
                PresenceHandler {
                    event,
                    stage: Stage::Insert { channel_id, name },
                    summary: Summary { moved, ..summary },
                }
            },
            Stage::Insert { .. } => match reply {
                Reply::Inserted => PresenceHandler {
                    event,
                    stage: Stage::Finished,
                    summary: Summary { registered: true, ..summary },
                }.departure(),
                _ => PresenceHandler { event, stage: Stage::Finished, summary }.failed(
                    Failure::Insert,
                ),
            },
            Stage::ActiveRow { channel_id } => match reply {
                Reply::ActiveRow(Some(row)) => {
                    if row.owner_id != 0 && row.channel_id == to_db_id(channel_id) {
                        PresenceHandler { event, stage: Stage::Occupancy { channel_id }, summary }
                    } else {
                        PresenceHandler { event, stage: Stage::Finished, summary }
                    }
                },
                Reply::ActiveRow(None) => PresenceHandler {
                    event,
                    stage: Stage::Finished,
                    summary,
                },
                _ => PresenceHandler { event, stage: Stage::Finished, summary }.failed(
                    Failure::RowLookup,
                ),
            },
            Stage::Occupancy { channel_id } => match reply {
                Reply::Occupancy(members) => {
                    if members == 0 {
                        PresenceHandler { event, stage: Stage::Delete { channel_id }, summary }
                    } else {
                        PresenceHandler { event, stage: Stage::Finished, summary }
                    }
                },
                _ => PresenceHandler { event, stage: Stage::Finished, summary },
            },
            Stage::Delete { channel_id } => match reply {
                Reply::Deleted => PresenceHandler {
                    event,
                    stage: Stage::RowDelete { channel_id },
                    summary: Summary { reclaimed: Some(channel_id), ..summary },
                },
                _ => PresenceHandler {
                    event,
                    stage: Stage::Finished,
                    summary: Summary { delete_failed: true, ..summary },
                },
            },
            Stage::RowDelete { .. } => match reply {
                Reply::RowDeleted => PresenceHandler {
                    event,
                    stage: Stage::Finished,
                    summary: Summary { unregistered: true, ..summary },
                },
                _ => PresenceHandler { event, stage: Stage::Finished, summary }.failed(
                    Failure::RowDelete,
                ),
            },
            Stage::Finished => PresenceHandler { event, stage: Stage::Finished, summary },
        }
    }
}

} // verus!
