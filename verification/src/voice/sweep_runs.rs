//! What holds of every run of a sweep, whatever the answers are.

use crate::models::Row;
use crate::utils::{db_id_of, lemma_id_round_trip, platform_id_of};
use crate::voice::protocol::{ReplyView, RequestView};
use crate::voice::sweep::{
    active_channels,
    active_channels_are_of_rows,
    sweep_advance,
    sweep_begin,
    sweep_pending,
    SweepStage,
    SweepStepView,
    SweepView,
};
use vstd::prelude::*;

verus! {

/// The sweep of the guild after the host has answered its calls with `replies`, in order.
pub open spec fn sweep_after(guild_id: u64, replies: Seq<ReplyView>) -> SweepView
    decreases replies.len(),
{
    if replies.len() == 0 {
        sweep_begin(guild_id)
    } else {
        sweep_advance(sweep_after(guild_id, replies.drop_last()), replies.last())
    }
}

/// What the sweep asks of the host once the first `answered` of `replies` are in.
pub open spec fn sweep_step_at(guild_id: u64, replies: Seq<ReplyView>, answered: int)
    -> SweepStepView {
    sweep_pending(sweep_after(guild_id, replies.take(answered)))
}

/// The state after the first `answered + 1` answers is the state after the first `answered`,
/// advanced by the next answer.
pub proof fn sweep_after_next(guild_id: u64, replies: Seq<ReplyView>, answered: int)
    requires
        0 <= answered < replies.len(),
    ensures
        sweep_after(guild_id, replies.take(answered + 1)) == sweep_advance(
            sweep_after(guild_id, replies.take(answered)),
            replies[answered],
        ),
{
    let longer = replies.take(answered + 1);
    assert(longer.drop_last() == replies.take(answered));
    assert(longer.last() == replies[answered]);
}

/// The turns a sweep has left at most, once it has read the rows.
pub open spec fn turns_left(s: SweepView) -> nat {
    match s.stage {
        SweepStage::Rows => 3 * s.remaining.len() + 2,
        SweepStage::Live => 3 * s.remaining.len() + 1,
        SweepStage::Purge { .. } => 3 * s.remaining.len() + 1,
        SweepStage::Occupancy { .. } => 3 * s.remaining.len() + 3,
        SweepStage::Delete { .. } => 3 * s.remaining.len() + 2,
        SweepStage::Unregister { .. } => 3 * s.remaining.len() + 1,
        SweepStage::Finished => 0,
    }
}

/// Every answer brings a sweep that has read the rows nearer to its end, and a sweep that is
/// over stays as it is.
pub proof fn answer_brings_nearer(s: SweepView, reply: ReplyView)
    requires
        !(s.stage is Rows),
    ensures
        !(sweep_advance(s, reply).stage is Rows),
        sweep_advance(s, reply).guild_id == s.guild_id,
        s.stage is Finished ==> sweep_advance(s, reply) == s,
        !(s.stage is Finished) ==> turns_left(sweep_advance(s, reply)) < turns_left(s),
{
}

/// A sweep that has read the rows is over once it has been given as many further answers
/// as it has turns left.
pub proof fn sweep_ends_within(guild_id: u64, replies: Seq<ReplyView>, read: int)
    requires
        1 <= read <= replies.len(),
        replies.len() - read >= turns_left(sweep_after(guild_id, replies.take(read))),
    ensures
        sweep_after(guild_id, replies).stage is Finished,
    decreases replies.len() - read,
{
    sweep_works_on_rows_read(guild_id, replies.take(read));
    if read < replies.len() {
        sweep_after_next(guild_id, replies, read);
        answer_brings_nearer(sweep_after(guild_id, replies.take(read)), replies[read]);
        sweep_ends_within(guild_id, replies, read + 1);
    } else {
        assert(replies.take(read) == replies);
    }
}

/// A sweep ends: after the two answers that tell it the rows and the channels, it needs
/// three answers at most for each active row it read.
pub proof fn sweep_ends(guild_id: u64, replies: Seq<ReplyView>)
    requires
        replies.len() >= 1,
        replies[0] matches ReplyView::ActiveRows(rows) ==> replies.len() >= 2 + 3
            * active_channels(rows, db_id_of(guild_id)).len(),
    ensures
        sweep_after(guild_id, replies).stage is Finished,
{
    sweep_after_next(guild_id, replies, 0);
    assert(replies.take(0).len() == 0);
    sweep_ends_within(guild_id, replies, 1);
}

/// The channel a sweep has in hand, as stored, if it has one.
pub open spec fn channel_in_hand(stage: SweepStage) -> Option<i64> {
    match stage {
        SweepStage::Purge { channel_id } => Some(channel_id),
        SweepStage::Occupancy { channel_id } => Some(db_id_of(channel_id)),
        SweepStage::Delete { channel_id } => Some(db_id_of(channel_id)),
        SweepStage::Unregister { channel_id } => Some(db_id_of(channel_id)),
        _ => None,
    }
}

/// A sweep works on the channels of the rows it read, and on no others: the channel in hand
/// and the channels still to be looked at are among those of the guild's active rows, as the
/// first answer gave them. A sweep whose reading of the rows failed is over.
pub proof fn sweep_works_on_rows_read(guild_id: u64, replies: Seq<ReplyView>)
    ensures
        sweep_after(guild_id, replies).guild_id == guild_id,
        sweep_after(guild_id, replies).stage is Rows <==> replies.len() == 0,
        replies.len() > 0 && !(replies[0] is ActiveRows) ==> sweep_after(
            guild_id,
            replies,
        ).stage is Finished,
        replies.len() > 0 && replies[0] is ActiveRows ==> {
            let read = active_channels(replies[0]->ActiveRows_0, db_id_of(guild_id));
            let s = sweep_after(guild_id, replies);
            &&& forall|channel_id: i64|
                #![trigger s.remaining.contains(channel_id)]
                s.remaining.contains(channel_id) ==> read.contains(channel_id)
            &&& channel_in_hand(s.stage) matches Some(channel_id) ==> read.contains(channel_id)
        },
    decreases replies.len(),
{
    if replies.len() > 0 {
        let before = replies.drop_last();
        sweep_works_on_rows_read(guild_id, before);
        let s0 = sweep_after(guild_id, before);
        let s = sweep_after(guild_id, replies);
        if before.len() > 0 {
            assert(before[0] == replies[0]);
            if replies[0] is ActiveRows {
                let read = active_channels(replies[0]->ActiveRows_0, db_id_of(guild_id));
                if s0.remaining.len() > 0 {
                    assert(s0.remaining.contains(s0.remaining[0]));
                    lemma_id_round_trip(0, s0.remaining[0]);
                }
                assert forall|channel_id: i64|
                    #![trigger s.remaining.contains(channel_id)]
                    s.remaining.contains(channel_id) implies read.contains(channel_id) by {
                    if s.remaining != s0.remaining {
                        let i = choose|i: int|
                            0 <= i < s.remaining.len() && s.remaining[i] == channel_id;
                        assert(s0.remaining[i + 1] == channel_id);
                    }
                    assert(s0.remaining.contains(channel_id));
                }
            }
        }
    }
}

/// A sweep deletes a channel only when it was just found empty: the call before the deletion
/// asked for the occupancy of that very channel, and the answer was zero. The channel is that
/// of an active row of the guild, as the sweep read it: a channel without such a row is never
/// deleted.
pub proof fn sweep_deletes_only_when_empty(
    guild_id: u64,
    replies: Seq<ReplyView>,
    answered: int,
    channel_id: u64,
)
    requires
        0 <= answered <= replies.len(),
        sweep_step_at(guild_id, replies, answered) == SweepStepView::Call(
            RequestView::DeleteChannel { channel_id },
        ),
    ensures
        answered >= 3,
        sweep_step_at(guild_id, replies, answered - 1) == SweepStepView::Call(
            RequestView::QueryOccupancy { guild_id, channel_id },
        ),
        replies[answered - 1] == ReplyView::Occupancy(0),
        replies[0] is ActiveRows,
        exists|r: Row|
            #![trigger replies[0]->ActiveRows_0.contains(r)]
            replies[0]->ActiveRows_0.contains(r) && r.guild_id == db_id_of(guild_id) && r.owner_id
                != 0 && r.channel_id == db_id_of(channel_id),
{
    let upto = replies.take(answered);
    sweep_works_on_rows_read(guild_id, upto);
    assert(answered >= 1);
    assert(upto[0] == replies[0]);
    sweep_after_next(guild_id, replies, answered - 1);
    sweep_works_on_rows_read(guild_id, replies.take(answered - 1));
    let before = sweep_after(guild_id, replies.take(answered - 1));
    assert(before.stage == SweepStage::Occupancy { channel_id });
    assert(answered >= 2);
    sweep_after_next(guild_id, replies, answered - 2);
    sweep_works_on_rows_read(guild_id, replies.take(answered - 2));
    assert(!(sweep_after(guild_id, replies.take(answered - 2)).stage is Rows));
    active_channels_are_of_rows(
        replies[0]->ActiveRows_0,
        db_id_of(guild_id),
        db_id_of(channel_id),
    );
}

/// A sweep removes a row only when its channel is gone: either the platform did not list the
/// channel, or the sweep has just deleted it.
pub proof fn sweep_removes_rows_of_gone_channels(
    guild_id: u64,
    replies: Seq<ReplyView>,
    answered: int,
    channel_id: i64,
)
    requires
        0 <= answered <= replies.len(),
        sweep_step_at(guild_id, replies, answered) == SweepStepView::Call(
            RequestView::DeleteRow { channel_id },
        ),
    ensures
        answered >= 2,
        ({
            let s = sweep_after(guild_id, replies.take(answered));
            ||| s.stage == (SweepStage::Purge { channel_id }) && !s.live.contains(
                platform_id_of(channel_id),
            )
            ||| s.stage == (SweepStage::Unregister { channel_id: platform_id_of(channel_id) })
                && replies[answered - 1] == ReplyView::Deleted && sweep_step_at(
                guild_id,
                replies,
                answered - 1,
            ) == SweepStepView::Call(
                RequestView::DeleteChannel { channel_id: platform_id_of(channel_id) },
            )
        }),
{
    let upto = replies.take(answered);
    sweep_works_on_rows_read(guild_id, upto);
    sweep_after_next(guild_id, replies, answered - 1);
    sweep_works_on_rows_read(guild_id, replies.take(answered - 1));
    let before = sweep_after(guild_id, replies.take(answered - 1));
    let s = sweep_after(guild_id, upto);
    lemma_id_round_trip(0, channel_id);
    match s.stage {
        SweepStage::Unregister { channel_id: deleted } => {
            lemma_id_round_trip(deleted, 0);
        },
        _ => {},
    }
}

} // verus!
