//! The life of a channel, as the registry and the work underway show it, and the proof that
//! it only ever moves along the lines drawn for it: a lobby stays a lobby, an active channel
//! is reclaimed before it is gone, and a reclaiming that fails leaves the channel active.

use crate::models::Row;
use crate::utils::{db_id_of, lemma_id_round_trip, platform_id_of};
use crate::voice::handler::{pending, HandlerView, StageView};
use crate::voice::protocol::{ReplyView, RequestView, VoicePresenceChange};
use crate::voice::sweep::{sweep_pending, SweepStage, SweepView};
use crate::voice::system::{
    answered,
    arrives,
    channel_made_elsewhere,
    coherent,
    handler_turn,
    lobby_set_up,
    next,
    sweep_starts,
    sweep_turn,
    System,
};
use vstd::prelude::*;

verus! {

/// Where a channel stands.
#[derive(Debug, Clone, Copy, PartialEq, Eq, Structural)]
pub enum ChannelState {
    /// The registry marks the channel as a lobby.
    Lobby,
    /// The registry records the channel as somebody's room.
    Active,
    /// The channel is somebody's room, and its deletion, or the removal of its row, has
    /// been asked for and not yet answered.
    Reclaiming,
    /// The registry has no row for the channel.
    Absent,
}

/// Whether the registry marks the channel of the guild as a lobby.
pub open spec fn has_lobby_row(rows: Seq<Row>, guild_id: i64, channel_id: i64) -> bool {
    exists|i: int|
        0 <= i < rows.len() && (#[trigger] rows[i]).guild_id == guild_id && rows[i].channel_id
            == channel_id && rows[i].owner_id == 0
}

/// Whether the registry records the channel of the guild as somebody's room.
pub open spec fn has_active_row(rows: Seq<Row>, guild_id: i64, channel_id: i64) -> bool {
    exists|i: int|
        0 <= i < rows.len() && (#[trigger] rows[i]).guild_id == guild_id && rows[i].channel_id
            == channel_id && rows[i].owner_id != 0
}

/// Whether a handler waits on the deletion of the channel or on the removal of its row.
pub open spec fn handler_reclaims(h: HandlerView, channel_id: i64) -> bool {
    match h.stage {
        StageView::Delete { channel_id: c } => db_id_of(c) == channel_id,
        StageView::RowDelete { channel_id: c } => db_id_of(c) == channel_id,
        _ => false,
    }
}

/// Whether a sweep waits on the deletion of the channel or on the removal of its row.
pub open spec fn sweep_reclaims(s: SweepView, channel_id: i64) -> bool {
    match s.stage {
        SweepStage::Purge { channel_id: c } => c == channel_id,
        SweepStage::Delete { channel_id: c } => db_id_of(c) == channel_id,
        SweepStage::Unregister { channel_id: c } => db_id_of(c) == channel_id,
        _ => false,
    }
}

/// Whether anything underway waits on the deletion of the channel or on the removal of its
/// row.
pub open spec fn being_reclaimed(s: System, channel_id: i64) -> bool {
    ||| exists|k: int|
        0 <= k < s.handlers.len() && handler_reclaims(#[trigger] s.handlers[k], channel_id)
    ||| exists|k: int| 0 <= k < s.sweeps.len() && sweep_reclaims(#[trigger] s.sweeps[k], channel_id)
}

/// Where the channel of the guild stands at a moment.
pub open spec fn state_in(s: System, guild_id: i64, channel_id: i64) -> ChannelState {
    if has_lobby_row(s.rows, guild_id, channel_id) {
        ChannelState::Lobby
    } else if has_active_row(s.rows, guild_id, channel_id) {
        if being_reclaimed(s, channel_id) {
            ChannelState::Reclaiming
        } else {
            ChannelState::Active
        }
    } else {
        ChannelState::Absent
    }
}

/// Whether a channel may stand at `after` one moment after it stood at `before`. A lobby
/// stays a lobby. An active channel stays active or begins to be reclaimed. A channel being
/// reclaimed goes on being reclaimed, becomes absent, or is active again. Only an absent
/// channel becomes a lobby.
pub open spec fn follows(before: ChannelState, after: ChannelState) -> bool {
    match before {
        ChannelState::Lobby => after is Lobby,
        ChannelState::Active => after is Active || after is Reclaiming,
        ChannelState::Reclaiming => after is Reclaiming || after is Absent || after is Active,
        ChannelState::Absent => true,
    }
}

/// A row that is in the rows after a row was added was there before, or is the one added.
proof fn rows_after_push(rows: Seq<Row>, row: Row, guild_id: i64, channel_id: i64)
    ensures
        has_lobby_row(rows.push(row), guild_id, channel_id) <==> has_lobby_row(
            rows,
            guild_id,
            channel_id,
        ) || (row.guild_id == guild_id && row.channel_id == channel_id && row.owner_id == 0),
        has_active_row(rows.push(row), guild_id, channel_id) <==> has_active_row(
            rows,
            guild_id,
            channel_id,
        ) || (row.guild_id == guild_id && row.channel_id == channel_id && row.owner_id != 0),
{
    let after = rows.push(row);
    assert(after[rows.len() as int] == row);
    assert(forall|i: int| 0 <= i < rows.len() ==> after[i] == rows[i]);
    if has_lobby_row(rows, guild_id, channel_id) {
        let i = choose|i: int|
            0 <= i < rows.len() && (#[trigger] rows[i]).guild_id == guild_id && rows[i].channel_id
                == channel_id && rows[i].owner_id == 0;
        assert(after[i] == rows[i]);
    }
    if has_active_row(rows, guild_id, channel_id) {
        let i = choose|i: int|
            0 <= i < rows.len() && (#[trigger] rows[i]).guild_id == guild_id && rows[i].channel_id
                == channel_id && rows[i].owner_id != 0;
        assert(after[i] == rows[i]);
    }
}

/// The removal of a channel's active rows removes no lobby's row and no row of another
/// channel, and adds none.
proof fn rows_after_removal(rows: Seq<Row>, removed: i64, guild_id: i64, channel_id: i64)
    ensures
        ({
            let kept = rows.filter(|r: Row| !(r.channel_id == removed && r.owner_id != 0));
            &&& has_lobby_row(kept, guild_id, channel_id) <==> has_lobby_row(
                rows,
                guild_id,
                channel_id,
            )
            &&& has_active_row(kept, guild_id, channel_id) ==> has_active_row(
                rows,
                guild_id,
                channel_id,
            )
            &&& removed != channel_id && has_active_row(rows, guild_id, channel_id)
                ==> has_active_row(kept, guild_id, channel_id)
        }),
{
    let keep = |r: Row| !(r.channel_id == removed && r.owner_id != 0);
    let kept = rows.filter(keep);
    if has_lobby_row(kept, guild_id, channel_id) {
        let i = choose|i: int|
            0 <= i < kept.len() && (#[trigger] kept[i]).guild_id == guild_id && kept[i].channel_id
                == channel_id && kept[i].owner_id == 0;
        assert(kept.contains(kept[i]));
        rows.lemma_filter_contains_rev(keep, kept[i]);
        let at = choose|at: int| 0 <= at < rows.len() && rows[at] == kept[i];
        assert(rows[at].owner_id == 0);
    }
    if has_active_row(kept, guild_id, channel_id) {
        let i = choose|i: int|
            0 <= i < kept.len() && (#[trigger] kept[i]).guild_id == guild_id && kept[i].channel_id
                == channel_id && kept[i].owner_id != 0;
        assert(kept.contains(kept[i]));
        rows.lemma_filter_contains_rev(keep, kept[i]);
        let at = choose|at: int| 0 <= at < rows.len() && rows[at] == kept[i];
        assert(rows[at].owner_id != 0);
    }
    if has_lobby_row(rows, guild_id, channel_id) {
        let i = choose|i: int|
            0 <= i < rows.len() && (#[trigger] rows[i]).guild_id == guild_id && rows[i].channel_id
                == channel_id && rows[i].owner_id == 0;
        rows.lemma_filter_contains(keep, i);
        let at = choose|at: int| 0 <= at < kept.len() && kept[at] == rows[i];
        assert(kept[at].owner_id == 0);
    }
    if removed != channel_id && has_active_row(rows, guild_id, channel_id) {
        let i = choose|i: int|
            0 <= i < rows.len() && (#[trigger] rows[i]).guild_id == guild_id && rows[i].channel_id
                == channel_id && rows[i].owner_id != 0;
        rows.lemma_filter_contains(keep, i);
        let at = choose|at: int| 0 <= at < kept.len() && kept[at] == rows[i];
        assert(kept[at].owner_id != 0);
    }
}

/// Whether the call asks for the removal of the channel's active rows.
pub open spec fn removes_rows_of(request: RequestView, channel_id: i64) -> bool {
    request == (RequestView::DeleteRow { channel_id })
}

/// What a turn does to the rows of one channel, by the call that was pending: a lobby's row
/// neither comes nor goes, and an active row goes only where the call removes the rows of
/// that very channel.
proof fn turn_on_rows(
    a: System,
    b: System,
    request: RequestView,
    reply: ReplyView,
    guild_id: i64,
    channel_id: i64,
)
    requires
        answered(a.rows, a.issued, request, reply, b.rows, b.issued),
        request matches RequestView::InsertRow { owner_id, .. } ==> owner_id != 0,
    ensures
        has_lobby_row(b.rows, guild_id, channel_id) <==> has_lobby_row(
            a.rows,
            guild_id,
            channel_id,
        ),
        has_active_row(a.rows, guild_id, channel_id) && !removes_rows_of(request, channel_id)
            ==> has_active_row(b.rows, guild_id, channel_id),
{
    match request {
        RequestView::InsertRow { guild_id: g, channel_id: c, owner_id, name } => {
            if b.rows != a.rows {
                let row = choose|row: Row|
                    b.rows == a.rows.push(row) && row.guild_id == g && row.channel_id == c
                        && row.owner_id == owner_id && row.name == name;
                rows_after_push(a.rows, row, guild_id, channel_id);
            }
        },
        RequestView::DeleteRow { channel_id: removed } => {
            if b.rows != a.rows {
                rows_after_removal(a.rows, removed, guild_id, channel_id);
            }
        },
        _ => {},
    }
}

/// A channel only ever moves along the lines drawn for it, whatever happens next: whether a
/// notification arrives, a handling or a sweep takes a turn, or a guild sets up a lobby.
pub proof fn life_follows_the_lines(a: System, b: System, guild_id: i64, channel_id: i64)
    requires
        coherent(a),
        next(a, b),
    ensures
        follows(state_in(a, guild_id, channel_id), state_in(b, guild_id, channel_id)),
{
    let before = state_in(a, guild_id, channel_id);
    if exists|event: VoicePresenceChange| arrives(a, b, event) {
        if being_reclaimed(a, channel_id) {
            if exists|k: int|
                0 <= k < a.handlers.len() && handler_reclaims(
                    #[trigger] a.handlers[k],
                    channel_id,
                ) {
                let k = choose|k: int|
                    0 <= k < a.handlers.len() && handler_reclaims(
                        #[trigger] a.handlers[k],
                        channel_id,
                    );
                assert(b.handlers[k] == a.handlers[k]);
            }
        }
    } else if exists|guild: u64| sweep_starts(a, b, guild) {
        if being_reclaimed(a, channel_id) {
            if !(exists|k: int|
                0 <= k < a.handlers.len() && handler_reclaims(
                    #[trigger] a.handlers[k],
                    channel_id,
                )) {
                let k = choose|k: int|
                    0 <= k < a.sweeps.len() && sweep_reclaims(#[trigger] a.sweeps[k], channel_id);
                assert(b.sweeps[k] == a.sweeps[k]);
            }
        }
    } else if exists|i: int, reply: ReplyView| handler_turn(a, b, i, reply) {
        let (i, reply) = choose|i: int, reply: ReplyView| handler_turn(a, b, i, reply);
        let h = a.handlers[i];
        let request = pending(h)->Call_0;
        lemma_id_round_trip(h.event.user_id, 0);
        turn_on_rows(a, b, request, reply, guild_id, channel_id);
        if before is Active && removes_rows_of(request, channel_id) {
            assert(handler_reclaims(h, channel_id));
        }
    } else if exists|i: int, reply: ReplyView| sweep_turn(a, b, i, reply) {
        let (i, reply) = choose|i: int, reply: ReplyView| sweep_turn(a, b, i, reply);
        let s = a.sweeps[i];
        let request = sweep_pending(s)->Call_0;
        turn_on_rows(a, b, request, reply, guild_id, channel_id);
        if before is Active && removes_rows_of(request, channel_id) {
            assert(sweep_reclaims(s, channel_id));
        }
    } else if exists|lobby: Row| lobby_set_up(a, b, lobby) {
        let lobby = choose|lobby: Row| lobby_set_up(a, b, lobby);
        rows_after_push(a.rows, lobby, guild_id, channel_id);
        if lobby.channel_id == channel_id && !(before is Absent) {
            let i = choose|i: int|
                0 <= i < a.rows.len() && (#[trigger] a.rows[i]).guild_id == guild_id
                    && a.rows[i].channel_id == channel_id;
            assert(a.issued.contains(platform_id_of(a.rows[i].channel_id)));
        }
    } else {
        assert(channel_made_elsewhere(a, b));
    }
}

} // verus!
