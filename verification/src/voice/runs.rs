//! What holds of every run of a handler: of the calls it asks for, whatever the answers are
//! and in whatever order the host works on several notifications.

use crate::utils::{db_id_of, platform_id_of};
use crate::voice::handler::{
    advance,
    begin,
    guild_of,
    is_trigger,
    pending,
    room_name,
    Failure,
    HandlerView,
    StageView,
    StepView,
};
use crate::voice::protocol::{ReplyView, RequestView, VoicePresenceChange};
use vstd::prelude::*;

verus! {

/// The handler of `event` after the host has answered its calls with `replies`, in order.
pub open spec fn state_after(event: VoicePresenceChange, replies: Seq<ReplyView>) -> HandlerView
    decreases replies.len(),
{
    if replies.len() == 0 {
        begin(event)
    } else {
        advance(state_after(event, replies.drop_last()), replies.last())
    }
}

/// What the handler asks of the host once the first `answered` of `replies` are in.
pub open spec fn step_at(
    event: VoicePresenceChange,
    replies: Seq<ReplyView>,
    answered: int,
) -> StepView {
    pending(state_after(event, replies.take(answered)))
}

/// The place of a stage in the order in which a handling passes through its stages.
pub open spec fn rank(stage: StageView) -> nat {
    match stage {
        StageView::Settings => 0,
        StageView::Lobbies { .. } => 1,
        StageView::UserName { .. } => 2,
        StageView::Create { .. } => 3,
        StageView::Move { .. } => 4,
        StageView::Insert { .. } => 5,
        StageView::ActiveRow { .. } => 6,
        StageView::Occupancy { .. } => 7,
        StageView::Delete { .. } => 8,
        StageView::RowDelete { .. } => 9,
        StageView::Finished => 10,
    }
}

/// Every answer moves a handling forward: to a later stage, unless it is over already. The
/// notification it handles never changes.
pub proof fn answer_moves_forward(h: HandlerView, reply: ReplyView)
    ensures
        advance(h, reply).event == h.event,
        h.stage is Finished ==> advance(h, reply) == h,
        !(h.stage is Finished) ==> rank(advance(h, reply).stage) > rank(h.stage),
{
}

/// The state after the first `answered + 1` answers is the state after the first `answered`,
/// advanced by the next answer.
pub proof fn state_after_next(event: VoicePresenceChange, replies: Seq<ReplyView>, answered: int)
    requires
        0 <= answered < replies.len(),
    ensures
        state_after(event, replies.take(answered + 1)) == advance(
            state_after(event, replies.take(answered)),
            replies[answered],
        ),
        state_after(event, replies.take(answered)).event == event,
{
    let longer = replies.take(answered + 1);
    assert(longer.drop_last() == replies.take(answered));
    assert(longer.last() == replies[answered]);
    state_keeps_event(event, replies.take(answered));
}

/// A handler keeps the notification it began with.
pub proof fn state_keeps_event(event: VoicePresenceChange, replies: Seq<ReplyView>)
    ensures
        state_after(event, replies).event == event,
    decreases replies.len(),
{
    if replies.len() > 0 {
        state_keeps_event(event, replies.drop_last());
    }
}

/// After `n` answers a handling is over or has reached a stage of rank `n` at least.
pub proof fn rank_grows_with_answers(event: VoicePresenceChange, replies: Seq<ReplyView>)
    ensures
        state_after(event, replies).stage is Finished || rank(state_after(event, replies).stage)
            >= replies.len(),
    decreases replies.len(),
{
    if replies.len() > 0 {
        rank_grows_with_answers(event, replies.drop_last());
        answer_moves_forward(state_after(event, replies.drop_last()), replies.last());
    }
}

/// A handling is over after ten answers at most, whatever they are.
pub proof fn handling_ends(event: VoicePresenceChange, replies: Seq<ReplyView>)
    requires
        replies.len() >= 10,
    ensures
        state_after(event, replies).stage is Finished,
        pending(state_after(event, replies)) is Done,
{
    rank_grows_with_answers(event, replies);
}

/// Between two points of a run the stage's rank grows, unless the handling was over at the
/// first of them.
pub proof fn later_means_further(
    event: VoicePresenceChange,
    replies: Seq<ReplyView>,
    earlier: int,
    later: int,
)
    requires
        0 <= earlier < later <= replies.len(),
    ensures
        state_after(event, replies.take(earlier)).stage is Finished || rank(
            state_after(event, replies.take(earlier)).stage,
        ) < rank(state_after(event, replies.take(later)).stage),
    decreases later - earlier,
{
    state_after_next(event, replies, later - 1);
    answer_moves_forward(state_after(event, replies.take(later - 1)), replies[later - 1]);
    if earlier < later - 1 {
        later_means_further(event, replies, earlier, later - 1);
    }
}

/// No call is asked twice in the handling of one notification: two calls at different points
/// of a run are of different kinds. In particular a channel's deletion is asked once at most.
pub proof fn each_call_once(
    event: VoicePresenceChange,
    replies: Seq<ReplyView>,
    earlier: int,
    later: int,
)
    requires
        0 <= earlier < later <= replies.len(),
        step_at(event, replies, earlier) is Call,
        step_at(event, replies, later) is Call,
    ensures
        rank(state_after(event, replies.take(earlier)).stage) < rank(
            state_after(event, replies.take(later)).stage,
        ),
        (step_at(event, replies, earlier)->Call_0 is DeleteChannel) ==> !(step_at(
            event,
            replies,
            later,
        )->Call_0 is DeleteChannel),
        (step_at(event, replies, earlier)->Call_0 is InsertRow) ==> !(step_at(
            event,
            replies,
            later,
        )->Call_0 is InsertRow),
        (step_at(event, replies, earlier)->Call_0 is CreateVoiceChannel) ==> !(step_at(
            event,
            replies,
            later,
        )->Call_0 is CreateVoiceChannel),
{
    later_means_further(event, replies, earlier, later);
}

/// A channel is deleted only when it was just found empty: the call before the deletion asked
/// for the occupancy of that very channel, and the answer was zero.
pub proof fn delete_only_when_empty(
    event: VoicePresenceChange,
    replies: Seq<ReplyView>,
    answered: int,
    channel_id: u64,
)
    requires
        0 <= answered <= replies.len(),
        step_at(event, replies, answered) == StepView::Call(
            RequestView::DeleteChannel { channel_id },
        ),
    ensures
        answered >= 1,
        step_at(event, replies, answered - 1) == StepView::Call(
            RequestView::QueryOccupancy { guild_id: guild_of(event), channel_id },
        ),
        replies[answered - 1] == ReplyView::Occupancy(0),
        event.old_channel_id == Some(channel_id),
{
    if answered == 0 {
        assert(replies.take(0).len() == 0);
    } else {
        state_after_next(event, replies, answered - 1);
        departed_channel_is_checked(event, replies.take(answered - 1));
    }
}

/// The departure half of a handling works on the channel that the notification says the user
/// left, and on no other.
pub proof fn departed_channel_is_checked(event: VoicePresenceChange, replies: Seq<ReplyView>)
    ensures
        match state_after(event, replies).stage {
            StageView::ActiveRow { channel_id } => event.old_channel_id == Some(channel_id),
            StageView::Occupancy { channel_id } => event.old_channel_id == Some(channel_id),
            StageView::Delete { channel_id } => event.old_channel_id == Some(channel_id),
            StageView::RowDelete { channel_id } => event.old_channel_id == Some(channel_id),
            _ => true,
        },
    decreases replies.len(),
{
    if replies.len() > 0 {
        departed_channel_is_checked(event, replies.drop_last());
        state_keeps_event(event, replies.drop_last());
    }
}

/// A channel's occupancy is read, and so the channel can be reclaimed, only for an active
/// row: the call before asked for the row of that very channel, and the answer was a row
/// with an owner. A lobby's row, whose owner is `0`, never leads to a deletion.
pub proof fn reclaim_only_active_row(
    event: VoicePresenceChange,
    replies: Seq<ReplyView>,
    answered: int,
    channel_id: u64,
)
    requires
        0 <= answered <= replies.len(),
        step_at(event, replies, answered) is Call,
        step_at(event, replies, answered)->Call_0 == (RequestView::QueryOccupancy {
            guild_id: guild_of(event),
            channel_id,
        }),
    ensures
        answered >= 1,
        step_at(event, replies, answered - 1) == StepView::Call(
            RequestView::FindActiveRow { channel_id: db_id_of(channel_id) },
        ),
        replies[answered - 1] matches ReplyView::ActiveRow(Some(row)) && row.owner_id != 0
            && row.channel_id == db_id_of(channel_id),
        event.old_channel_id == Some(channel_id),
{
    if answered == 0 {
        assert(replies.take(0).len() == 0);
    } else {
        state_after_next(event, replies, answered - 1);
        departed_channel_is_checked(event, replies.take(answered - 1));
    }
}

/// A channel is created only for a user who joined a lobby: the creation is the fourth call,
/// after the guild's settings were read and found switched on, a lobby row of the guild was
/// found for the channel the user is now in, and the user's name was resolved. The channel's
/// name is made from the guild's template and that name, and its category is the guild's.
pub proof fn creation_only_on_lobby_join(
    event: VoicePresenceChange,
    replies: Seq<ReplyView>,
    answered: int,
)
    requires
        0 <= answered <= replies.len(),
        step_at(event, replies, answered) is Call,
        step_at(event, replies, answered)->Call_0 is CreateVoiceChannel,
    ensures
        answered == 3,
        event.guild_id is Some,
        event.user_id != 0,
        event.new_channel_id is Some,
        ({
            &&& replies[0] matches ReplyView::Settings(Some(settings))
            &&& settings.enabled
            &&& replies[1] matches ReplyView::Lobbies(rows)
            &&& is_trigger(rows, db_id_of(guild_of(event)), db_id_of(event.new_channel_id->0))
            &&& replies[2] matches ReplyView::UserName(user_name)
            &&& step_at(event, replies, 3) == StepView::Call(
                RequestView::CreateVoiceChannel {
                    guild_id: guild_of(event),
                    category_id: match settings.category_id {
                        Some(c) => Some(platform_id_of(c)),
                        None => None,
                    },
                    name: room_name(settings.template, user_name),
                },
            )
        }),
{
    rank_grows_with_answers(event, replies.take(answered));
    assert(answered <= 3);
    if answered == 0 {
        assert(replies.take(0).len() == 0);
    } else {
        state_after_next(event, replies, answered - 1);
        assert(state_after(event, replies.take(answered - 1)).stage is UserName);
        rank_grows_with_answers(event, replies.take(answered - 1));
        if answered == 1 {
            assert(replies.take(0).len() == 0);
        } else {
            state_after_next(event, replies, answered - 2);
            assert(state_after(event, replies.take(answered - 2)).stage is Lobbies);
            rank_grows_with_answers(event, replies.take(answered - 2));
            if answered == 2 {
                assert(replies.take(0).len() == 0);
            } else {
                state_after_next(event, replies, 0);
                assert(replies.take(0).len() == 0);
                assert(state_after(event, replies.take(0)) == begin(event));
            }
        }
    }
}

/// A row is removed only after its channel was deleted: the call before the removal asked for
/// the deletion of that channel, and it succeeded.
pub proof fn row_removed_only_after_delete(
    event: VoicePresenceChange,
    replies: Seq<ReplyView>,
    answered: int,
    channel_id: i64,
)
    requires
        0 <= answered <= replies.len(),
        step_at(event, replies, answered) == StepView::Call(RequestView::DeleteRow { channel_id }),
    ensures
        answered >= 1,
        replies[answered - 1] == ReplyView::Deleted,
        exists|deleted: u64|
            db_id_of(deleted) == channel_id && step_at(event, replies, answered - 1)
                == StepView::Call(RequestView::DeleteChannel { channel_id: deleted }),
{
    if answered == 0 {
        assert(replies.take(0).len() == 0);
    } else {
        state_after_next(event, replies, answered - 1);
        let before = state_after(event, replies.take(answered - 1));
        let deleted = before.stage->Delete_channel_id;
        assert(step_at(event, replies, answered - 1) == StepView::Call(
            RequestView::DeleteChannel { channel_id: deleted },
        ));
    }
}

/// A departure from a channel that has no active row does nothing: when the row's lookup
/// finds none, the handling is over at once, without an error and without a deletion, and
/// its summary is as it was before the lookup.
pub proof fn departure_without_row_does_nothing(
    event: VoicePresenceChange,
    replies: Seq<ReplyView>,
    answered: int,
)
    requires
        0 <= answered < replies.len(),
        step_at(event, replies, answered) is Call,
        step_at(event, replies, answered)->Call_0 is FindActiveRow,
        replies[answered] == ReplyView::ActiveRow(None),
    ensures
        forall|later: int|
            answered < later <= replies.len() ==> #[trigger] step_at(event, replies, later)
                == StepView::Done(state_after(event, replies.take(answered)).summary),
        forall|at: int|
            0 <= at <= replies.len() ==> !(#[trigger] step_at(event, replies, at)
                matches StepView::Call(request) && (request is QueryOccupancy
                || request is DeleteChannel || request is DeleteRow)),
        state_after(event, replies.take(answered)).summary.reclaimed is None,
        !state_after(event, replies.take(answered)).summary.delete_failed,
        !state_after(event, replies.take(answered)).summary.unregistered,
        state_after(event, replies.take(answered)).summary.error is None,
{
    let before = state_after(event, replies.take(answered));
    state_after_next(event, replies, answered);
    let over = state_after(event, replies.take(answered + 1));
    assert(over == before.at(StageView::Finished));
    untouched_before_departure(event, replies.take(answered));
    assert forall|later: int| answered < later <= replies.len() implies #[trigger] step_at(
        event,
        replies,
        later,
    ) == StepView::Done(before.summary) by {
        stays_finished(event, replies, answered + 1, later);
    }
    assert forall|at: int| 0 <= at <= replies.len() implies !(#[trigger] step_at(
        event,
        replies,
        at,
    ) matches StepView::Call(request) && (request is QueryOccupancy || request is DeleteChannel
        || request is DeleteRow)) by {
        if at < answered {
            later_means_further(event, replies, at, answered);
        } else if at > answered {
            stays_finished(event, replies, answered + 1, at);
        }
    }
}

/// Once a handling is over it stays as it is, whatever further answers come.
pub proof fn stays_finished(
    event: VoicePresenceChange,
    replies: Seq<ReplyView>,
    over: int,
    later: int,
)
    requires
        0 <= over <= later <= replies.len(),
        state_after(event, replies.take(over)).stage is Finished,
    ensures
        state_after(event, replies.take(later)) == state_after(event, replies.take(over)),
    decreases later - over,
{
    if over < later {
        stays_finished(event, replies, over, later - 1);
        state_after_next(event, replies, later - 1);
    }
}

/// Until the departure half has deleted something, the summary reports no deletion, and a
/// handling that has not ended reports no error.
pub proof fn untouched_before_departure(event: VoicePresenceChange, replies: Seq<ReplyView>)
    ensures
        rank(state_after(event, replies).stage) <= 8 ==> {
            &&& state_after(event, replies).summary.reclaimed is None
            &&& !state_after(event, replies).summary.delete_failed
            &&& !state_after(event, replies).summary.unregistered
        },
        !(state_after(event, replies).stage is Finished) ==> state_after(
            event,
            replies,
        ).summary.error is None,
    decreases replies.len(),
{
    if replies.len() > 0 {
        untouched_before_departure(event, replies.drop_last());
        answer_moves_forward(state_after(event, replies.drop_last()), replies.last());
    }
}

/// The channels created along a run: the create calls that succeeded.
pub open spec fn creations(event: VoicePresenceChange, replies: Seq<ReplyView>) -> nat
    decreases replies.len(),
{
    if replies.len() == 0 {
        0
    } else {
        creations(event, replies.drop_last()) + if state_after(
            event,
            replies.drop_last(),
        ).stage is Create && replies.last() is Created {
            1nat
        } else {
            0nat
        }
    }
}

/// The rows asked for along a run: the points at which a row's insertion is the pending call.
pub open spec fn rows_requested(event: VoicePresenceChange, replies: Seq<ReplyView>) -> nat
    decreases replies.len(),
{
    if replies.len() == 0 {
        0
    } else {
        rows_requested(event, replies.drop_last()) + if state_after(event, replies).stage
            is Insert {
            1nat
        } else {
            0nat
        }
    }
}

/// The rows written along a run: the insertions that succeeded.
pub open spec fn rows_written(event: VoicePresenceChange, replies: Seq<ReplyView>) -> nat
    decreases replies.len(),
{
    if replies.len() == 0 {
        0
    } else {
        rows_written(event, replies.drop_last()) + if state_after(
            event,
            replies.drop_last(),
        ).stage is Insert && replies.last() is Inserted {
            1nat
        } else {
            0nat
        }
    }
}

/// One row per channel created, and no row without one. Along every run at most one channel
/// is created; a row is asked for exactly when a channel was created, once the user's move
/// has been answered; and never more rows are written than channels were created. A finished
/// run has asked for as many rows as it created channels, and has written as many unless the
/// insertion itself failed. The summary reports the same: `spawned` is set exactly when a
/// channel was created, `registered` exactly when its row was written.
pub proof fn one_row_per_creation(event: VoicePresenceChange, replies: Seq<ReplyView>)
    ensures
        rows_written(event, replies) <= rows_requested(event, replies) <= creations(
            event,
            replies,
        ) <= 1,
        rank(state_after(event, replies).stage) <= 3 ==> creations(event, replies) == 0,
        state_after(event, replies).stage is Move ==> creations(event, replies) == 1
            && rows_requested(event, replies) == 0,
        rank(state_after(event, replies).stage) >= 5 ==> rows_requested(event, replies)
            == creations(event, replies),
        state_after(event, replies).stage is Insert ==> rows_written(event, replies) == 0
            && rows_requested(event, replies) == 1,
        rank(state_after(event, replies).stage) >= 6 && state_after(event, replies).summary.error
            != Some(Failure::Insert) ==> rows_written(event, replies) == creations(
            event,
            replies,
        ),
        state_after(event, replies).summary.spawned is Some <==> creations(event, replies) == 1,
        state_after(event, replies).summary.registered <==> rows_written(event, replies) == 1,
        state_after(event, replies).summary.error == Some(Failure::Insert) ==> rows_written(
            event,
            replies,
        ) == 0 && state_after(event, replies).stage is Finished,
    decreases replies.len(),
{
    if replies.len() > 0 {
        one_row_per_creation(event, replies.drop_last());
        answer_moves_forward(state_after(event, replies.drop_last()), replies.last());
        untouched_before_departure(event, replies.drop_last());
    }
}

/// The row asked for is the row of the channel just created: its insertion comes two calls
/// after the creation that succeeded, names that channel, the guild of the notification and
/// the joining user as owner, who is never the lobby marker `0`, and carries the name the
/// channel was created with.
pub proof fn row_names_created_channel(
    event: VoicePresenceChange,
    replies: Seq<ReplyView>,
    answered: int,
)
    requires
        0 <= answered <= replies.len(),
        step_at(event, replies, answered) is Call,
        step_at(event, replies, answered)->Call_0 is InsertRow,
    ensures
        answered >= 2,
        replies[answered - 2] is Created,
        step_at(event, replies, answered - 2) is Call,
        step_at(event, replies, answered - 1) == StepView::Call(
            RequestView::MoveMember {
                guild_id: guild_of(event),
                user_id: event.user_id,
                channel_id: replies[answered - 2]->Created_0,
            },
        ),
        ({
            let created = step_at(event, replies, answered - 2)->Call_0;
            let row = step_at(event, replies, answered)->Call_0;
            &&& created is CreateVoiceChannel
            &&& created->CreateVoiceChannel_guild_id == guild_of(event)
            &&& row->InsertRow_guild_id == db_id_of(guild_of(event))
            &&& row->InsertRow_channel_id == db_id_of(replies[answered - 2]->Created_0)
            &&& row->InsertRow_owner_id == db_id_of(event.user_id)
            &&& row->InsertRow_owner_id != 0
            &&& row->InsertRow_name == created->CreateVoiceChannel_name
        }),
{
    if answered == 0 {
        assert(replies.take(0).len() == 0);
    } else {
        state_after_next(event, replies, answered - 1);
        let moving = state_after(event, replies.take(answered - 1));
        assert(moving.stage is Move);
        if answered == 1 {
            assert(replies.take(0).len() == 0);
        } else {
            state_after_next(event, replies, answered - 2);
        }
        handled_user_is_real(event, replies.take(answered));
    }
}

/// A notification that is handled at all names a guild and a user other than `0`.
pub proof fn handled_user_is_real(event: VoicePresenceChange, replies: Seq<ReplyView>)
    ensures
        !(state_after(event, replies).stage is Finished) ==> event.guild_id is Some
            && event.user_id != 0,
    decreases replies.len(),
{
    if replies.len() > 0 {
        handled_user_is_real(event, replies.drop_last());
        answer_moves_forward(state_after(event, replies.drop_last()), replies.last());
    }
}

/// The handling of one notification from its beginning: the notification and the answers the
/// host gave, in order.
pub struct Run {
    pub event: VoicePresenceChange,
    pub replies: Seq<ReplyView>,
}

impl Run {
    /// The run has reached the end of its handling.
    pub open spec fn is_complete(self) -> bool {
        state_after(self.event, self.replies).stage is Finished
    }

    /// The run ended because the row of a channel it had created could not be written.
    pub open spec fn insertion_failed(self) -> bool {
        state_after(self.event, self.replies).summary.error == Some(Failure::Insert)
    }
}

/// The channels created over several runs.
pub open spec fn total_creations(runs: Seq<Run>) -> nat
    decreases runs.len(),
{
    if runs.len() == 0 {
        0
    } else {
        total_creations(runs.drop_last()) + creations(runs.last().event, runs.last().replies)
    }
}

/// The rows written over several runs.
pub open spec fn total_rows_written(runs: Seq<Run>) -> nat
    decreases runs.len(),
{
    if runs.len() == 0 {
        0
    } else {
        total_rows_written(runs.drop_last()) + rows_written(
            runs.last().event,
            runs.last().replies,
        )
    }
}

/// Over any notifications, handled in any order and with any answers, never more rows are
/// written than channels were created, and no run writes more than one. Where every run is
/// complete and no insertion failed, the rows written are exactly as many as the channels
/// created.
pub proof fn rows_match_creations(runs: Seq<Run>)
    ensures
        total_rows_written(runs) <= total_creations(runs) <= runs.len(),
        (forall|i: int|
            0 <= i < runs.len() ==> (#[trigger] runs[i]).is_complete()
                && !runs[i].insertion_failed()) ==> total_rows_written(runs) == total_creations(
            runs,
        ),
    decreases runs.len(),
{
    if runs.len() > 0 {
        rows_match_creations(runs.drop_last());
        one_row_per_creation(runs.last().event, runs.last().replies);
        assert(forall|i: int|
            0 <= i < runs.len() - 1 ==> (#[trigger] runs.drop_last()[i]) == runs[i]);
    }
}

} // verus!
