//! The registry and the platform at rest: a world in which every call is answered truthfully
//! and nothing happens but what the calls do. A sweep of such a world leaves nothing for a
//! second sweep to change.

use crate::models::Row;
use crate::utils::{db_id_of, lemma_id_round_trip, platform_id_of};
use crate::voice::protocol::{ReplyView, RequestView};
use crate::voice::sweep_runs::{answer_brings_nearer, turns_left};
use crate::voice::sweep::{
    active_channels,
    active_channels_are_of_rows,
    sweep_advance,
    sweep_begin,
    sweep_pending,
    SweepStage,
    SweepStepView,
    SweepView,
};
use vstd::prelude::*;

verus! {

/// A voice channel as the platform has it.
pub struct Room {
    pub guild_id: u64,
    /// The members in the channel.
    pub members: u64,
}

/// The two sources of truth at one moment: the rows of the registry, and the channels that
/// exist on the platform.
pub struct World {
    pub rows: Seq<Row>,
    pub channels: Map<u64, Room>,
}

impl World {
    /// The platform has finitely many channels.
    pub open spec fn wf(self) -> bool {
        self.channels.dom().finite()
    }

    /// Whether the platform has the channel, in the guild.
    pub open spec fn has_room(self, guild_id: u64, channel_id: u64) -> bool {
        self.channels.contains_key(channel_id) && self.channels[channel_id].guild_id == guild_id
    }

    /// The guild's channels on the platform, in some order.
    pub open spec fn listing(self, guild_id: u64) -> Seq<u64> {
        self.channels.dom().filter(|c: u64| self.channels[c].guild_id == guild_id).to_seq()
    }

    /// The active rows of the guild.
    pub open spec fn active_rows(self, guild_id: i64) -> Seq<Row> {
        self.rows.filter(|r: Row| r.guild_id == guild_id && r.owner_id != 0)
    }

    /// The truthful answer to a call that reads or deletes. This world creates nothing and
    /// moves nobody: a call that would is answered as failed.
    pub open spec fn answer(self, request: RequestView) -> ReplyView {
        match request {
            RequestView::LoadLobbies { guild_id } => ReplyView::Lobbies(
                self.rows.filter(|r: Row| r.guild_id == guild_id && r.owner_id == 0),
            ),
            RequestView::LoadActiveRows { guild_id } => ReplyView::ActiveRows(
                self.active_rows(guild_id),
            ),
            RequestView::ListLiveChannels { guild_id } => ReplyView::LiveChannels(
                self.listing(guild_id),
            ),
            RequestView::QueryOccupancy { channel_id, .. } => if self.channels.contains_key(
                channel_id,
            ) {
                ReplyView::Occupancy(self.channels[channel_id].members)
            } else {
                ReplyView::Failed
            },
            RequestView::DeleteChannel { channel_id } => if self.channels.contains_key(
                channel_id,
            ) {
                ReplyView::Deleted
            } else {
                ReplyView::Failed
            },
            RequestView::DeleteRow { .. } => ReplyView::RowDeleted,
            _ => ReplyView::Failed,
        }
    }

    /// The world after the call: a deleted channel is gone from the platform, and a removed
    /// row takes with it every active row of its channel. Lobby rows are never removed.
    pub open spec fn after(self, request: RequestView) -> World {
        match request {
            RequestView::DeleteChannel { channel_id } => World {
                channels: self.channels.remove(channel_id),
                ..self
            },
            RequestView::DeleteRow { channel_id } => World {
                rows: self.rows.filter(|r: Row| !(r.channel_id == channel_id && r.owner_id != 0)),
                ..self
            },
            _ => self,
        }
    }

    /// Whether the row's room stands: the platform has its channel, in the guild, and somebody
    /// is in it.
    pub open spec fn occupied(self, guild_id: u64, channel_id: i64) -> bool {
        self.has_room(guild_id, platform_id_of(channel_id)) && self.channels[platform_id_of(
            channel_id,
        )].members > 0
    }

    /// Whether the registry agrees with the platform on the guild: every active row of the
    /// guild has a room that stands.
    pub open spec fn reconciled(self, guild_id: u64) -> bool {
        forall|r: Row|
            #![trigger self.rows.contains(r)]
            self.rows.contains(r) && r.guild_id == db_id_of(guild_id) && r.owner_id != 0
                ==> self.occupied(guild_id, r.channel_id)
    }
}

/// One turn of a sweep in the world: its pending call is made and answered truthfully.
pub open spec fn turn(w: World, s: SweepView) -> (World, SweepView) {
    match sweep_pending(s) {
        SweepStepView::Call(request) => (w.after(request), sweep_advance(s, w.answer(request))),
        SweepStepView::Done(_) => (w, s),
    }
}

/// The world and the sweep after `n` turns.
pub open spec fn turns(w: World, s: SweepView, n: nat) -> (World, SweepView)
    decreases n,
{
    if n == 0 {
        (w, s)
    } else {
        let (w1, s1) = turn(w, s);
        turns(w1, s1, (n - 1) as nat)
    }
}

/// The calls among the next `n` turns that change the platform or the registry.
pub open spec fn mutations(w: World, s: SweepView, n: nat) -> nat
    decreases n,
{
    if n == 0 {
        0
    } else {
        let (w1, s1) = turn(w, s);
        mutations(w1, s1, (n - 1) as nat) + if sweep_pending(s) matches SweepStepView::Call(
            request,
        ) && request.is_mutation() {
            1nat
        } else {
            0nat
        }
    }
}

/// The turns within which a sweep of the world is over: two to read, and three for each row.
pub open spec fn enough(w: World) -> nat {
    3 * w.rows.len() + 2
}

/// The world and the sweep once the guild has been swept.
pub open spec fn swept(w: World, guild_id: u64) -> (World, SweepView) {
    turns(w, sweep_begin(guild_id), enough(w))
}

/// The platform lists a channel for a guild exactly when it has the channel in that guild.
pub proof fn listing_is_of_rooms(w: World, guild_id: u64, channel_id: u64)
    requires
        w.wf(),
    ensures
        w.listing(guild_id).contains(channel_id) <==> w.has_room(guild_id, channel_id),
{
    let of_guild = w.channels.dom().filter(|c: u64| w.channels[c].guild_id == guild_id);
    assert(of_guild.finite());
    of_guild.lemma_to_seq_to_set_id();
    assert(of_guild.to_seq().to_set().contains(channel_id) <==> of_guild.contains(channel_id));
}

/// A sweep that has read the rows is over within the turns it has left.
pub proof fn sweep_ends_in_time(w: World, s: SweepView, n: nat)
    requires
        !(s.stage is Rows),
        n >= turns_left(s),
    ensures
        turns(w, s, n).1.stage is Finished,
    decreases n,
{
    if n > 0 {
        let (w1, s1) = turn(w, s);
        match sweep_pending(s) {
            SweepStepView::Call(request) => {
                answer_brings_nearer(s, w.answer(request));
            },
            SweepStepView::Done(_) => {},
        }
        sweep_ends_in_time(w1, s1, (n - 1) as nat);
    }
}

/// Whether the channel, as stored, is the one the sweep has taken up.
pub open spec fn in_hand(stage: SweepStage, channel_id: i64) -> bool {
    match stage {
        SweepStage::Purge { channel_id: c } => c == channel_id,
        SweepStage::Occupancy { channel_id: c } => c == platform_id_of(channel_id),
        SweepStage::Delete { channel_id: c } => c == platform_id_of(channel_id),
        SweepStage::Unregister { channel_id: c } => c == platform_id_of(channel_id),
        _ => false,
    }
}

/// Whether the guild has no active row for the channel.
pub open spec fn unrowed(w: World, guild_id: u64, channel_id: i64) -> bool {
    forall|r: Row|
        #![trigger w.rows.contains(r)]
        w.rows.contains(r) && r.guild_id == db_id_of(guild_id) && r.owner_id != 0 ==> r.channel_id
            != channel_id
}

/// What holds of a sweep underway in a world at rest, from the reading of the rows on: every
/// active row of the guild is still to be looked at, or in hand, or has a room that stands;
/// and every channel the platform listed is still there, or is being deleted, or has no row.
pub open spec fn underway(w: World, s: SweepView) -> bool {
    &&& w.wf()
    &&& !(s.stage is Rows)
    &&& forall|r: Row|
        #![trigger w.rows.contains(r)]
        w.rows.contains(r) && r.guild_id == db_id_of(s.guild_id) && r.owner_id != 0
            ==> s.remaining.contains(r.channel_id) || in_hand(s.stage, r.channel_id) || w.occupied(
            s.guild_id,
            r.channel_id,
        )
    &&& !(s.stage is Live) ==> forall|c: u64|
        #![trigger s.live.contains(c)]
        s.live.contains(c) ==> w.has_room(s.guild_id, c) || s.stage == (SweepStage::Delete {
            channel_id: c,
        }) || s.stage == (SweepStage::Unregister { channel_id: c }) || unrowed(
            w,
            s.guild_id,
            db_id_of(c),
        )
    &&& s.stage is Finished ==> s.remaining.len() == 0
    &&& s.stage matches SweepStage::Occupancy { channel_id } ==> s.live.contains(channel_id)
    &&& s.stage matches SweepStage::Delete { channel_id } ==> w.channels.contains_key(channel_id)
        && w.channels[channel_id].members == 0
}

/// A row that is in a filtered table was in the table and passed the filter, and the other
/// way round.
pub proof fn kept_rows(rows: Seq<Row>, keep: spec_fn(Row) -> bool, r: Row)
    ensures
        rows.filter(keep).contains(r) <==> rows.contains(r) && keep(r),
{
    if rows.filter(keep).contains(r) {
        rows.lemma_filter_contains_rev(keep, r);
        let i = choose|i: int| 0 <= i < rows.filter(keep).len() && rows.filter(keep)[i] == r;
        rows.lemma_filter_pred(keep, i);
    }
    if rows.contains(r) && keep(r) {
        let i = choose|i: int| 0 <= i < rows.len() && rows[i] == r;
        rows.lemma_filter_contains(keep, i);
    }
}

/// The first turn of a sweep reads the guild's active rows and changes nothing.
pub proof fn first_turn_reads_rows(w: World, guild_id: u64)
    requires
        w.wf(),
    ensures
        turn(w, sweep_begin(guild_id)).0 == w,
        underway(w, turn(w, sweep_begin(guild_id)).1),
        turn(w, sweep_begin(guild_id)).1.stage is Live,
        turn(w, sweep_begin(guild_id)).1.guild_id == guild_id,
        turn(w, sweep_begin(guild_id)).1.report == sweep_begin(guild_id).report,
        turn(w, sweep_begin(guild_id)).1.remaining.len() <= w.rows.len(),
        forall|channel_id: i64|
            #![trigger turn(w, sweep_begin(guild_id)).1.remaining.contains(channel_id)]
            turn(w, sweep_begin(guild_id)).1.remaining.contains(channel_id) ==> exists|r: Row|
                #![trigger w.rows.contains(r)]
                w.rows.contains(r) && r.guild_id == db_id_of(guild_id) && r.owner_id != 0
                    && r.channel_id == channel_id,
{
    let guild = db_id_of(guild_id);
    let active = |r: Row| r.guild_id == guild && r.owner_id != 0;
    let read = w.rows.filter(active);
    let s1 = turn(w, sweep_begin(guild_id)).1;
    assert(s1.remaining == active_channels(read, guild));
    w.rows.lemma_filter_len(active);
    active_channels_are_of_rows(read, guild, 0);
    assert forall|r: Row|
        #![trigger w.rows.contains(r)]
        w.rows.contains(r) && r.guild_id == guild && r.owner_id != 0 implies s1.remaining.contains(
        r.channel_id,
    ) by {
        kept_rows(w.rows, active, r);
        active_channels_are_of_rows(read, guild, r.channel_id);
    }
    assert forall|channel_id: i64|
        #![trigger s1.remaining.contains(channel_id)]
        s1.remaining.contains(channel_id) implies exists|r: Row|
        #![trigger w.rows.contains(r)]
        w.rows.contains(r) && r.guild_id == guild && r.owner_id != 0 && r.channel_id
            == channel_id by {
        active_channels_are_of_rows(read, guild, channel_id);
        let r = choose|r: Row|
            #![trigger read.contains(r)]
            read.contains(r) && r.guild_id == guild && r.owner_id != 0 && r.channel_id
                == channel_id;
        kept_rows(w.rows, active, r);
    }
}

/// A channel still to be looked at is the next one or comes after it.
pub proof fn next_or_later(queue: Seq<i64>, channel_id: i64)
    requires
        queue.contains(channel_id),
    ensures
        queue.len() > 0,
        queue[0] == channel_id || queue.skip(1).contains(channel_id),
{
    let i = choose|i: int| 0 <= i < queue.len() && queue[i] == channel_id;
    if i > 0 {
        assert(queue.skip(1)[i - 1] == channel_id);
    }
}

/// Taking up the next channel keeps what holds of a sweep underway, where every row in hand
/// has been dealt with.
proof fn next_keeps_underway(w: World, s: SweepView)
    requires
        w.wf(),
        !(s.stage is Rows),
        forall|r: Row|
            #![trigger w.rows.contains(r)]
            w.rows.contains(r) && r.guild_id == db_id_of(s.guild_id) && r.owner_id != 0
                ==> s.remaining.contains(r.channel_id) || w.occupied(s.guild_id, r.channel_id),
        forall|c: u64|
            #![trigger s.live.contains(c)]
            s.live.contains(c) ==> w.has_room(s.guild_id, c) || unrowed(
                w,
                s.guild_id,
                db_id_of(c),
            ),
    ensures
        underway(w, s.next()),
{
    let n = s.next();
    assert forall|r: Row|
        #![trigger w.rows.contains(r)]
        w.rows.contains(r) && r.guild_id == db_id_of(n.guild_id) && r.owner_id != 0
            implies n.remaining.contains(r.channel_id) || in_hand(n.stage, r.channel_id)
        || w.occupied(n.guild_id, r.channel_id) by {
        if s.remaining.contains(r.channel_id) {
            next_or_later(s.remaining, r.channel_id);
        }
    }
}

/// A turn keeps what holds of a sweep underway.
pub proof fn turn_keeps_underway(w: World, s: SweepView)
    requires
        underway(w, s),
    ensures
        underway(turn(w, s).0, turn(w, s).1),
        turn(w, s).1.guild_id == s.guild_id,
{
    let (w1, s1) = turn(w, s);
    let guild_id = s.guild_id;
    match s.stage {
        SweepStage::Rows => {},
        SweepStage::Live => {
            let listed = SweepView { live: w.listing(guild_id), ..s };
            assert forall|c: u64|
                #![trigger listed.live.contains(c)]
                listed.live.contains(c) implies w.has_room(guild_id, c) by {
                listing_is_of_rooms(w, guild_id, c);
            }
            next_keeps_underway(w, listed);
        },
        SweepStage::Purge { channel_id } => {
            let keep = |r: Row| !(r.channel_id == channel_id && r.owner_id != 0);
            assert(w1.rows == w.rows.filter(keep));
            assert forall|r: Row| #[trigger] w1.rows.contains(r) implies w.rows.contains(r)
                && keep(r) by {
                kept_rows(w.rows, keep, r);
            }
            let noted = s.with(s1.report);
            assert(s1 == noted.next());
            next_keeps_underway(w1, noted);
        },
        SweepStage::Occupancy { channel_id } => {
            let reply = w.answer(sweep_pending(s)->Call_0);
            if reply == ReplyView::Occupancy(0) {
            } else {
                assert(s1 == s.next());
                assert forall|r: Row|
                    #![trigger w.rows.contains(r)]
                    w.rows.contains(r) && r.guild_id == db_id_of(guild_id) && r.owner_id != 0
                        implies s.remaining.contains(r.channel_id) || w.occupied(
                    guild_id,
                    r.channel_id,
                ) by {
                    if in_hand(s.stage, r.channel_id) {
                        lemma_id_round_trip(channel_id, r.channel_id);
                        assert(s.live.contains(channel_id));
                        assert(!unrowed(w, guild_id, db_id_of(channel_id)));
                    }
                }
                next_keeps_underway(w, s);
            }
        },
        SweepStage::Delete { channel_id } => {
            assert(w1.channels == w.channels.remove(channel_id));
            assert(w1.rows == w.rows);
        },
        SweepStage::Unregister { channel_id } => {
            let stored = db_id_of(channel_id);
            let keep = |r: Row| !(r.channel_id == stored && r.owner_id != 0);
            assert(w1.rows == w.rows.filter(keep));
            assert forall|r: Row| #[trigger] w1.rows.contains(r) implies w.rows.contains(r)
                && keep(r) by {
                kept_rows(w.rows, keep, r);
            }
            let noted = s.with(s1.report);
            assert(s1 == noted.next());
            assert forall|r: Row|
                #![trigger w1.rows.contains(r)]
                w1.rows.contains(r) && r.guild_id == db_id_of(guild_id) && r.owner_id != 0
                    implies noted.remaining.contains(r.channel_id) || w1.occupied(
                guild_id,
                r.channel_id,
            ) by {
                lemma_id_round_trip(channel_id, r.channel_id);
            }
            next_keeps_underway(w1, noted);
        },
        SweepStage::Finished => {},
    }
}

/// What holds of a sweep underway in a world that is reconciled already: it has noted
/// nothing, every channel still to be looked at has a room that stands, and it only reads.
pub open spec fn quiet(w: World, s: SweepView) -> bool {
    &&& w.wf()
    &&& w.reconciled(s.guild_id)
    &&& s.report == sweep_begin(s.guild_id).report
    &&& !(s.stage is Rows) ==> forall|channel_id: i64|
        #![trigger s.remaining.contains(channel_id)]
        s.remaining.contains(channel_id) ==> w.occupied(s.guild_id, channel_id)
    &&& match s.stage {
        SweepStage::Rows => s == sweep_begin(s.guild_id),
        SweepStage::Live => true,
        SweepStage::Occupancy { channel_id } => {
            &&& w.has_room(s.guild_id, channel_id)
            &&& w.channels[channel_id].members > 0
            &&& forall|c: u64| w.has_room(s.guild_id, c) ==> #[trigger] s.live.contains(c)
        },
        SweepStage::Finished => true,
        _ => false,
    }
}

/// Taking up the next channel in a reconciled world leads to the reading of an occupancy,
/// or to the end.
proof fn next_keeps_quiet(w: World, s: SweepView)
    requires
        w.wf(),
        w.reconciled(s.guild_id),
        s.report == sweep_begin(s.guild_id).report,
        forall|channel_id: i64|
            #![trigger s.remaining.contains(channel_id)]
            s.remaining.contains(channel_id) ==> w.occupied(s.guild_id, channel_id),
        forall|c: u64| w.has_room(s.guild_id, c) ==> #[trigger] s.live.contains(c),
    ensures
        quiet(w, s.next()),
{
    let n = s.next();
    if s.remaining.len() > 0 {
        assert(s.remaining.contains(s.remaining[0]));
        assert forall|channel_id: i64|
            #![trigger n.remaining.contains(channel_id)]
            n.remaining.contains(channel_id) implies w.occupied(n.guild_id, channel_id) by {
            let i = choose|i: int| 0 <= i < n.remaining.len() && n.remaining[i] == channel_id;
            assert(s.remaining[i + 1] == channel_id);
            assert(s.remaining.contains(channel_id));
        }
    }
}

/// A turn in a reconciled world reads and changes nothing.
pub proof fn turn_stays_quiet(w: World, s: SweepView)
    requires
        quiet(w, s),
    ensures
        turn(w, s).0 == w,
        quiet(w, turn(w, s).1),
        turn(w, s).1.guild_id == s.guild_id,
        sweep_pending(s) matches SweepStepView::Call(request) ==> !request.is_mutation(),
{
    let (w1, s1) = turn(w, s);
    let guild_id = s.guild_id;
    match s.stage {
        SweepStage::Rows => {
            first_turn_reads_rows(w, guild_id);
        },
        SweepStage::Live => {
            let listed = SweepView { live: w.listing(guild_id), ..s };
            assert forall|c: u64| w.has_room(guild_id, c) implies #[trigger] listed.live.contains(
                c,
            ) by {
                listing_is_of_rooms(w, guild_id, c);
            }
            next_keeps_quiet(w, listed);
        },
        SweepStage::Occupancy { channel_id } => {
            next_keeps_quiet(w, s);
        },
        _ => {},
    }
}

/// Any number of turns in a reconciled world change nothing.
pub proof fn turns_stay_quiet(w: World, s: SweepView, n: nat)
    requires
        quiet(w, s),
    ensures
        turns(w, s, n).0 == w,
        quiet(w, turns(w, s, n).1),
        mutations(w, s, n) == 0,
    decreases n,
{
    if n > 0 {
        turn_stays_quiet(w, s);
        turns_stay_quiet(w, turn(w, s).1, (n - 1) as nat);
    }
}

/// Any number of turns keep what holds of a sweep underway.
pub proof fn turns_keep_underway(w: World, s: SweepView, n: nat)
    requires
        underway(w, s),
    ensures
        underway(turns(w, s, n).0, turns(w, s, n).1),
        turns(w, s, n).1.guild_id == s.guild_id,
    decreases n,
{
    if n > 0 {
        turn_keeps_underway(w, s);
        turns_keep_underway(turn(w, s).0, turn(w, s).1, (n - 1) as nat);
    }
}

/// A sweep of a world at rest comes to its end and leaves the guild reconciled: every active
/// row that is left has a room that stands.
pub proof fn sweep_reconciles(w: World, guild_id: u64)
    requires
        w.wf(),
    ensures
        swept(w, guild_id).1.stage is Finished,
        swept(w, guild_id).1.report.error is None,
        swept(w, guild_id).0.wf(),
        swept(w, guild_id).0.reconciled(guild_id),
{
    first_turn_reads_rows(w, guild_id);
    let s1 = turn(w, sweep_begin(guild_id)).1;
    let n = (enough(w) - 1) as nat;
    assert(swept(w, guild_id) == turns(w, s1, n));
    sweep_ends_in_time(w, s1, n);
    turns_keep_underway(w, s1, n);
    no_error_in_world(w, s1, n);
}

/// In a world at rest a sweep that has read the rows ends without an error: the listing of
/// the guild's channels does not fail.
proof fn no_error_in_world(w: World, s: SweepView, n: nat)
    requires
        !(s.stage is Rows),
        s.report.error is None,
    ensures
        turns(w, s, n).1.report.error is None,
    decreases n,
{
    if n > 0 {
        no_error_in_world(turn(w, s).0, turn(w, s).1, (n - 1) as nat);
    }
}

/// A second sweep changes nothing. Once a guild has been swept in a world at rest, sweeping
/// it again makes no call that changes the platform or the registry, leaves both as they
/// are, and reports nothing purged, reclaimed or failed.
pub proof fn second_sweep_changes_nothing(w: World, guild_id: u64)
    requires
        w.wf(),
    ensures
        ({
            let once = swept(w, guild_id).0;
            &&& swept(once, guild_id).0 == once
            &&& mutations(once, sweep_begin(guild_id), enough(once)) == 0
            &&& swept(once, guild_id).1.stage is Finished
            &&& swept(once, guild_id).1.report == sweep_begin(guild_id).report
        }),
{
    sweep_reconciles(w, guild_id);
    let once = swept(w, guild_id).0;
    sweep_reconciles(once, guild_id);
    turns_stay_quiet(once, sweep_begin(guild_id), enough(once));
}

} // verus!
