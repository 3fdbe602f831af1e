//! Many notifications handled at once. Every handling and every sweep takes its turns in any
//! order, the platform and the registry answer as they will, and still no two rows of the
//! registry ever stand for the same channel, and no lobby's row is ever touched.

use crate::models::Row;
use crate::utils::{db_id_of, lemma_id_round_trip, platform_id_of};
use crate::voice::handler::{advance, begin, pending, HandlerView, StageView, StepView};
use crate::voice::protocol::{ReplyView, RequestView, VoicePresenceChange};
use crate::voice::sweep::{sweep_advance, sweep_begin, sweep_pending, SweepStepView, SweepView};
use vstd::prelude::*;

verus! {

/// The registry, what the platform has created so far, and the work underway.
pub struct System {
    pub rows: Seq<Row>,
    /// Every channel the platform has created up to now, deleted or not. The platform gives
    /// no identifier twice.
    pub issued: Set<u64>,
    pub handlers: Seq<HandlerView>,
    pub sweeps: Seq<SweepView>,
}

/// Whether two rows are of the same channel of the same guild.
pub open spec fn same_channel(a: Row, b: Row) -> bool {
    a.guild_id == b.guild_id && a.channel_id == b.channel_id
}

/// No two rows are of the same channel of the same guild.
pub open spec fn unique_rows(rows: Seq<Row>) -> bool {
    forall|i: int, j: int|
        0 <= i < j < rows.len() ==> !same_channel(#[trigger] rows[i], #[trigger] rows[j])
}

/// Whether some row is of the channel, as stored.
pub open spec fn has_row_of(rows: Seq<Row>, channel_id: i64) -> bool {
    exists|i: int| 0 <= i < rows.len() && (#[trigger] rows[i]).channel_id == channel_id
}

/// The channel that a handler has created and not yet seen registered.
pub open spec fn in_flight(h: HandlerView) -> Option<u64> {
    match h.stage {
        StageView::Move { channel_id, .. } => Some(channel_id),
        StageView::Insert { channel_id, .. } => Some(channel_id),
        _ => None,
    }
}

/// What the platform and the registry may do on a call, and answer. The registry does what
/// it is asked or, where it reports no success, possibly nothing; the platform answers as it
/// will, but a channel it reports as created is one it never created before.
pub open spec fn answered(
    rows: Seq<Row>,
    issued: Set<u64>,
    request: RequestView,
    reply: ReplyView,
    rows_after: Seq<Row>,
    issued_after: Set<u64>,
) -> bool {
    &&& issued.subset_of(issued_after)
    &&& reply matches ReplyView::Created(c) ==> request is CreateVoiceChannel && !issued.contains(
        c,
    ) && issued_after.contains(c)
    &&& match request {
        RequestView::InsertRow { guild_id, channel_id, owner_id, name } => {
            ||| rows_after == rows && !(reply is Inserted)
            ||| exists|row: Row|
                rows_after == rows.push(row) && row.guild_id == guild_id && row.channel_id
                    == channel_id && row.owner_id == owner_id && row.name == name
        },
        RequestView::DeleteRow { channel_id } => {
            ||| rows_after == rows && !(reply is RowDeleted)
            ||| rows_after == rows.filter(
                |r: Row| !(r.channel_id == channel_id && r.owner_id != 0),
            )
        },
        _ => rows_after == rows,
    }
}

/// A notification arrives and its handling begins.
pub open spec fn arrives(a: System, b: System, event: VoicePresenceChange) -> bool {
    b == (System { handlers: a.handlers.push(begin(event)), ..a })
}

/// A sweep of a guild begins.
pub open spec fn sweep_starts(a: System, b: System, guild_id: u64) -> bool {
    b == (System { sweeps: a.sweeps.push(sweep_begin(guild_id)), ..a })
}

/// The handler at `i` has its pending call made and answered.
pub open spec fn handler_turn(a: System, b: System, i: int, reply: ReplyView) -> bool {
    &&& 0 <= i < a.handlers.len()
    &&& pending(a.handlers[i]) matches StepView::Call(request)
    &&& answered(a.rows, a.issued, request, reply, b.rows, b.issued)
    &&& b.handlers == a.handlers.update(i, advance(a.handlers[i], reply))
    &&& b.sweeps == a.sweeps
}

/// The sweep at `i` has its pending call made and answered.
pub open spec fn sweep_turn(a: System, b: System, i: int, reply: ReplyView) -> bool {
    &&& 0 <= i < a.sweeps.len()
    &&& sweep_pending(a.sweeps[i]) matches SweepStepView::Call(request)
    &&& answered(a.rows, a.issued, request, reply, b.rows, b.issued)
    &&& b.sweeps == a.sweeps.update(i, sweep_advance(a.sweeps[i], reply))
    &&& b.handlers == a.handlers
}

/// A guild sets up a lobby: the platform creates its channel, and its row is written.
pub open spec fn lobby_set_up(a: System, b: System, lobby: Row) -> bool {
    &&& lobby.owner_id == 0
    &&& !a.issued.contains(platform_id_of(lobby.channel_id))
    &&& b == (System {
        rows: a.rows.push(lobby),
        issued: a.issued.insert(platform_id_of(lobby.channel_id)),
        ..a
    })
}

/// Somebody else creates a channel on the platform.
pub open spec fn channel_made_elsewhere(a: System, b: System) -> bool {
    &&& a.issued.subset_of(b.issued)
    &&& b == (System { issued: b.issued, ..a })
}

/// One thing happens.
pub open spec fn next(a: System, b: System) -> bool {
    ||| exists|event: VoicePresenceChange| arrives(a, b, event)
    ||| exists|guild_id: u64| sweep_starts(a, b, guild_id)
    ||| exists|i: int, reply: ReplyView| handler_turn(a, b, i, reply)
    ||| exists|i: int, reply: ReplyView| sweep_turn(a, b, i, reply)
    ||| exists|lobby: Row| lobby_set_up(a, b, lobby)
    ||| channel_made_elsewhere(a, b)
}

/// A system with nothing underway, whose rows are unique and of channels that the platform
/// created.
pub open spec fn initial(s: System) -> bool {
    &&& s.handlers.len() == 0
    &&& s.sweeps.len() == 0
    &&& unique_rows(s.rows)
    &&& forall|i: int|
        0 <= i < s.rows.len() ==> s.issued.contains(
            platform_id_of((#[trigger] s.rows[i]).channel_id),
        )
}

/// What holds at every moment: the rows are unique; every row is of a channel the platform
/// created; a channel created and not yet registered has no row and belongs to one handler
/// only; and a handling underway is for a user other than `0`.
pub open spec fn coherent(s: System) -> bool {
    &&& unique_rows(s.rows)
    &&& forall|i: int|
        0 <= i < s.rows.len() ==> s.issued.contains(
            platform_id_of((#[trigger] s.rows[i]).channel_id),
        )
    &&& forall|k: int|
        0 <= k < s.handlers.len() ==> (in_flight(#[trigger] s.handlers[k]) matches Some(c)
            ==> s.issued.contains(c) && !has_row_of(s.rows, db_id_of(c)))
    &&& forall|k: int, l: int|
        0 <= k < l < s.handlers.len() && in_flight(#[trigger] s.handlers[k]) is Some ==> in_flight(
            s.handlers[k],
        ) != in_flight(#[trigger] s.handlers[l])
    &&& forall|k: int|
        0 <= k < s.handlers.len() && !((#[trigger] s.handlers[k]).stage is Finished)
            ==> s.handlers[k].event.user_id != 0 && s.handlers[k].event.guild_id is Some
}

/// Rows stay unique when some are removed.
pub proof fn filter_keeps_unique(rows: Seq<Row>, keep: spec_fn(Row) -> bool)
    requires
        unique_rows(rows),
    ensures
        unique_rows(rows.filter(keep)),
        forall|channel_id: i64|
            has_row_of(rows.filter(keep), channel_id) ==> has_row_of(rows, channel_id),
        forall|i: int|
            0 <= i < rows.filter(keep).len() ==> rows.contains(#[trigger] rows.filter(keep)[i]),
    decreases rows.len(),
{
    reveal(Seq::filter);
    let kept = rows.filter(keep);
    if rows.len() > 0 {
        let before = rows.drop_last();
        let last = rows.last();
        assert(unique_rows(before)) by {
            assert forall|i: int, j: int| 0 <= i < j < before.len() implies !same_channel(
                #[trigger] before[i],
                #[trigger] before[j],
            ) by {
                assert(before[i] == rows[i] && before[j] == rows[j]);
            }
        }
        filter_keeps_unique(before, keep);
        let kept_before = before.filter(keep);
        assert forall|i: int| 0 <= i < kept.len() implies rows.contains(#[trigger] kept[i]) by {
            if i < kept_before.len() {
                assert(kept[i] == kept_before[i]);
                let at = choose|at: int| 0 <= at < before.len() && before[at] == kept_before[i];
                assert(rows[at] == kept[i]);
            } else {
                assert(kept[i] == last);
                assert(rows[rows.len() - 1] == last);
            }
        }
        assert forall|i: int, j: int| 0 <= i < j < kept.len() implies !same_channel(
            #[trigger] kept[i],
            #[trigger] kept[j],
        ) by {
            if j < kept_before.len() {
                assert(kept[i] == kept_before[i] && kept[j] == kept_before[j]);
            } else {
                assert(kept[j] == last);
                assert(kept[i] == kept_before[i]);
                let at = choose|at: int| 0 <= at < before.len() && before[at] == kept_before[i];
                assert(rows[at] == kept[i]);
                assert(rows[rows.len() - 1] == last);
            }
        }
        assert forall|channel_id: i64| has_row_of(kept, channel_id) implies has_row_of(
            rows,
            channel_id,
        ) by {
            let i = choose|i: int| 0 <= i < kept.len() && (#[trigger] kept[i]).channel_id
                == channel_id;
            let at = choose|at: int| 0 <= at < rows.len() && rows[at] == kept[i];
            assert(rows[at].channel_id == channel_id);
        }
    }
}

/// A row of a channel that has none so far keeps the rows unique.
pub proof fn push_keeps_unique(rows: Seq<Row>, row: Row)
    requires
        unique_rows(rows),
        !has_row_of(rows, row.channel_id),
    ensures
        unique_rows(rows.push(row)),
        forall|channel_id: i64|
            has_row_of(rows.push(row), channel_id) ==> has_row_of(rows, channel_id) || channel_id
                == row.channel_id,
{
    let after = rows.push(row);
    assert forall|i: int, j: int| 0 <= i < j < after.len() implies !same_channel(
        #[trigger] after[i],
        #[trigger] after[j],
    ) by {
        assert(after[i] == rows[i]);
        if j < rows.len() {
            assert(after[j] == rows[j]);
        } else {
            assert(rows[i].channel_id != row.channel_id);
        }
    }
    assert forall|channel_id: i64| has_row_of(after, channel_id) implies has_row_of(
        rows,
        channel_id,
    ) || channel_id == row.channel_id by {
        let i = choose|i: int| 0 <= i < after.len() && (#[trigger] after[i]).channel_id
            == channel_id;
        if i < rows.len() {
            assert(rows[i].channel_id == channel_id);
        }
    }
}

/// A channel that the platform has just created has no row: every row is of a channel
/// created before.
proof fn fresh_channel_has_no_row(s: System, channel_id: u64)
    requires
        coherent(s),
        !s.issued.contains(channel_id),
    ensures
        !has_row_of(s.rows, db_id_of(channel_id)),
{
    if has_row_of(s.rows, db_id_of(channel_id)) {
        let i = choose|i: int|
            0 <= i < s.rows.len() && (#[trigger] s.rows[i]).channel_id == db_id_of(channel_id);
        lemma_id_round_trip(channel_id, 0);
        assert(s.issued.contains(platform_id_of(s.rows[i].channel_id)));
    }
}

/// What a change of the rows must meet to keep a system coherent: the rows stay unique and
/// of channels the platform created, and no row appears for a channel still in flight.
proof fn rows_changed_coherently(a: System, b: System)
    requires
        coherent(a),
        a.issued.subset_of(b.issued),
        b.handlers.len() == a.handlers.len(),
        unique_rows(b.rows),
        forall|i: int|
            0 <= i < b.rows.len() ==> b.issued.contains(
                platform_id_of((#[trigger] b.rows[i]).channel_id),
            ),
        forall|k: int|
            0 <= k < b.handlers.len() ==> (in_flight(#[trigger] b.handlers[k]) matches Some(c)
                ==> b.issued.contains(c) && !has_row_of(b.rows, db_id_of(c))),
        forall|k: int, l: int|
            0 <= k < l < b.handlers.len() && in_flight(#[trigger] b.handlers[k]) is Some
                ==> in_flight(b.handlers[k]) != in_flight(#[trigger] b.handlers[l]),
        forall|k: int|
            0 <= k < b.handlers.len() && !((#[trigger] b.handlers[k]).stage is Finished)
                ==> b.handlers[k].event.user_id != 0 && b.handlers[k].event.guild_id is Some,
    ensures
        coherent(b),
{
}

/// A turn of a handler keeps the system coherent.
proof fn handler_turn_keeps_coherent(a: System, b: System, i: int, reply: ReplyView)
    requires
        coherent(a),
        handler_turn(a, b, i, reply),
    ensures
        coherent(b),
{
    let h = a.handlers[i];
    let request = pending(h)->Call_0;
    let h2 = advance(h, reply);
    assert(b.handlers[i] == h2);
    assert(forall|k: int| 0 <= k < a.handlers.len() && k != i ==> b.handlers[k] == a.handlers[k]);
    assert(h2.event == h.event);
    match request {
        RequestView::InsertRow { guild_id, channel_id, owner_id, name } => {
            let c = h.stage->Insert_channel_id;
            assert(in_flight(h) == Some(c));
            assert(in_flight(h2) is None);
            if b.rows != a.rows {
                let row = choose|row: Row|
                    b.rows == a.rows.push(row) && row.guild_id == guild_id && row.channel_id
                        == channel_id && row.owner_id == owner_id && row.name == name;
                push_keeps_unique(a.rows, row);
                lemma_id_round_trip(c, 0);
                assert forall|k: int| 0 <= k < b.rows.len() implies b.issued.contains(
                    platform_id_of((#[trigger] b.rows[k]).channel_id),
                ) by {
                    if k < a.rows.len() {
                        assert(b.rows[k] == a.rows[k]);
                    }
                }
                assert forall|k: int| 0 <= k < b.handlers.len() implies (in_flight(
                    #[trigger] b.handlers[k],
                ) matches Some(other) ==> b.issued.contains(other) && !has_row_of(
                    b.rows,
                    db_id_of(other),
                )) by {
                    if k != i && in_flight(b.handlers[k]) is Some {
                        let other = in_flight(b.handlers[k])->0;
                        lemma_id_round_trip(other, 0);
                        if k < i {
                            assert(in_flight(a.handlers[k]) != in_flight(a.handlers[i]));
                        } else {
                            assert(in_flight(a.handlers[i]) != in_flight(a.handlers[k]));
                        }
                    }
                }
            }
            rows_changed_coherently(a, b);
        },
        RequestView::DeleteRow { channel_id } => {
            assert(in_flight(h2) is None);
            if b.rows != a.rows {
                let keep = |r: Row| !(r.channel_id == channel_id && r.owner_id != 0);
                filter_keeps_unique(a.rows, keep);
                assert forall|k: int| 0 <= k < b.rows.len() implies b.issued.contains(
                    platform_id_of((#[trigger] b.rows[k]).channel_id),
                ) by {
                    let at = choose|at: int| 0 <= at < a.rows.len() && a.rows[at] == b.rows[k];
                    assert(a.issued.contains(platform_id_of(a.rows[at].channel_id)));
                }
            }
            rows_changed_coherently(a, b);
        },
        RequestView::CreateVoiceChannel { .. } => {
            match reply {
                ReplyView::Created(c) => {
                    fresh_channel_has_no_row(a, c);
                    assert(in_flight(h2) == Some(c));
                    assert forall|k: int, l: int|
                        0 <= k < l < b.handlers.len() && in_flight(
                            #[trigger] b.handlers[k],
                        ) is Some implies in_flight(b.handlers[k]) != in_flight(
                        #[trigger] b.handlers[l],
                    ) by {
                        if k != i && l != i {
                            assert(in_flight(a.handlers[k]) != in_flight(a.handlers[l]));
                        }
                    }
                },
                _ => {
                    assert(in_flight(h2) is None);
                },
            }
            rows_changed_coherently(a, b);
        },
        _ => {
            assert(b.rows == a.rows);
            assert(in_flight(h2) == in_flight(h) || in_flight(h2) is None);
            assert forall|k: int, l: int|
                0 <= k < l < b.handlers.len() && in_flight(
                    #[trigger] b.handlers[k],
                ) is Some implies in_flight(b.handlers[k]) != in_flight(
                #[trigger] b.handlers[l],
            ) by {
                assert(in_flight(a.handlers[k]) != in_flight(a.handlers[l]));
            }
            rows_changed_coherently(a, b);
        },
    }
}

/// A turn of a sweep keeps the system coherent: a sweep writes no row.
proof fn sweep_turn_keeps_coherent(a: System, b: System, i: int, reply: ReplyView)
    requires
        coherent(a),
        sweep_turn(a, b, i, reply),
    ensures
        coherent(b),
{
    let request = sweep_pending(a.sweeps[i])->Call_0;
    match request {
        RequestView::DeleteRow { channel_id } => {
            if b.rows != a.rows {
                let keep = |r: Row| !(r.channel_id == channel_id && r.owner_id != 0);
                filter_keeps_unique(a.rows, keep);
                assert forall|k: int| 0 <= k < b.rows.len() implies b.issued.contains(
                    platform_id_of((#[trigger] b.rows[k]).channel_id),
                ) by {
                    let at = choose|at: int| 0 <= at < a.rows.len() && a.rows[at] == b.rows[k];
                    assert(a.issued.contains(platform_id_of(a.rows[at].channel_id)));
                }
            }
        },
        _ => {
            assert(b.rows == a.rows);
        },
    }
    rows_changed_coherently(a, b);
}

/// Whatever happens next, a coherent system stays coherent.
pub proof fn step_keeps_coherent(a: System, b: System)
    requires
        coherent(a),
        next(a, b),
    ensures
        coherent(b),
{
    if exists|event: VoicePresenceChange| arrives(a, b, event) {
        let event = choose|event: VoicePresenceChange| arrives(a, b, event);
        assert forall|k: int| 0 <= k < b.handlers.len() implies (in_flight(
            #[trigger] b.handlers[k],
        ) matches Some(c) ==> b.issued.contains(c) && !has_row_of(b.rows, db_id_of(c))) by {
            if k < a.handlers.len() {
                assert(b.handlers[k] == a.handlers[k]);
            }
        }
        assert forall|k: int, l: int|
            0 <= k < l < b.handlers.len() && in_flight(
                #[trigger] b.handlers[k],
            ) is Some implies in_flight(b.handlers[k]) != in_flight(#[trigger] b.handlers[l]) by {
            assert(b.handlers[k] == a.handlers[k]);
            if l < a.handlers.len() {
                assert(b.handlers[l] == a.handlers[l]);
            }
        }
        assert forall|k: int|
            0 <= k < b.handlers.len() && !((#[trigger] b.handlers[k]).stage
                is Finished) implies b.handlers[k].event.user_id != 0
            && b.handlers[k].event.guild_id is Some by {
            if k < a.handlers.len() {
                assert(b.handlers[k] == a.handlers[k]);
            }
        }
    } else if exists|guild_id: u64| sweep_starts(a, b, guild_id) {
    } else if exists|i: int, reply: ReplyView| handler_turn(a, b, i, reply) {
        let (i, reply) = choose|i: int, reply: ReplyView| handler_turn(a, b, i, reply);
        handler_turn_keeps_coherent(a, b, i, reply);
    } else if exists|i: int, reply: ReplyView| sweep_turn(a, b, i, reply) {
        let (i, reply) = choose|i: int, reply: ReplyView| sweep_turn(a, b, i, reply);
        sweep_turn_keeps_coherent(a, b, i, reply);
    } else if exists|lobby: Row| lobby_set_up(a, b, lobby) {
        let lobby = choose|lobby: Row| lobby_set_up(a, b, lobby);
        let channel = platform_id_of(lobby.channel_id);
        lemma_id_round_trip(0, lobby.channel_id);
        fresh_channel_has_no_row(a, channel);
        push_keeps_unique(a.rows, lobby);
        assert forall|k: int| 0 <= k < b.rows.len() implies b.issued.contains(
            platform_id_of((#[trigger] b.rows[k]).channel_id),
        ) by {
            if k < a.rows.len() {
                assert(b.rows[k] == a.rows[k]);
            }
        }
        assert forall|k: int| 0 <= k < b.handlers.len() implies (in_flight(
            #[trigger] b.handlers[k],
        ) matches Some(c) ==> b.issued.contains(c) && !has_row_of(b.rows, db_id_of(c))) by {
            if in_flight(b.handlers[k]) is Some {
                let c = in_flight(b.handlers[k])->0;
                lemma_id_round_trip(c, 0);
            }
        }
        rows_changed_coherently(a, b);
    } else {
        assert(channel_made_elsewhere(a, b));
        rows_changed_coherently(a, b);
    }
}

/// A lobby's row is never touched: no turn of a handler or of a sweep removes a row whose
/// owner is `0`, and none writes one.
pub proof fn lobbies_untouched(a: System, b: System, lobby: Row)
    requires
        coherent(a),
        exists|i: int, reply: ReplyView|
            handler_turn(a, b, i, reply) || sweep_turn(a, b, i, reply),
        lobby.owner_id == 0,
    ensures
        a.rows.contains(lobby) <==> b.rows.contains(lobby),
{
    let (i, reply) = choose|i: int, reply: ReplyView|
        handler_turn(a, b, i, reply) || sweep_turn(a, b, i, reply);
    let request = if handler_turn(a, b, i, reply) {
        pending(a.handlers[i])->Call_0
    } else {
        sweep_pending(a.sweeps[i])->Call_0
    };
    match request {
        RequestView::InsertRow { guild_id, channel_id, owner_id, name } => {
            assert(handler_turn(a, b, i, reply));
            lemma_id_round_trip(a.handlers[i].event.user_id, 0);
            if b.rows != a.rows {
                let row = choose|row: Row|
                    b.rows == a.rows.push(row) && row.guild_id == guild_id && row.channel_id
                        == channel_id && row.owner_id == owner_id && row.name == name;
                assert(row.owner_id != 0);
                if a.rows.contains(lobby) {
                    let at = choose|at: int| 0 <= at < a.rows.len() && a.rows[at] == lobby;
                    assert(b.rows[at] == lobby);
                }
                if b.rows.contains(lobby) {
                    let at = choose|at: int| 0 <= at < b.rows.len() && b.rows[at] == lobby;
                    assert(a.rows[at] == lobby);
                }
            }
        },
        RequestView::DeleteRow { channel_id } => {
            if b.rows != a.rows {
                let keep = |r: Row| !(r.channel_id == channel_id && r.owner_id != 0);
                if a.rows.contains(lobby) {
                    let at = choose|at: int| 0 <= at < a.rows.len() && a.rows[at] == lobby;
                    a.rows.lemma_filter_contains(keep, at);
                }
                if b.rows.contains(lobby) {
                    a.rows.lemma_filter_contains_rev(keep, lobby);
                }
            }
        },
        _ => {
            assert(b.rows == a.rows);
        },
    }
}

/// A history: each moment follows from the one before by one thing that happens.
pub open spec fn history(moments: Seq<System>) -> bool {
    &&& moments.len() > 0
    &&& initial(moments[0])
    &&& forall|k: int| 0 <= k < moments.len() - 1 ==> next(#[trigger] moments[k], moments[k + 1])
}

/// At most one row per channel, always. However the handlings and sweeps take their turns,
/// and whatever the platform and the registry answer, at every moment of a history no two
/// rows are of the same channel of the same guild. In particular users who join a lobby at
/// the same time get a channel and a row each.
pub proof fn rows_stay_unique(moments: Seq<System>, at: int)
    requires
        history(moments),
        0 <= at < moments.len(),
    ensures
        coherent(moments[at]),
        unique_rows(moments[at].rows),
    decreases at,
{
    if at > 0 {
        rows_stay_unique(moments, at - 1);
        assert(next(moments[at - 1], moments[at - 1 + 1]));
        step_keeps_coherent(moments[at - 1], moments[at]);
    }
}

} // verus!
