//! The reconciliation sweep of one guild: rows whose channel is gone are removed, and rooms
//! that stand empty are deleted. It works step by step, as the handling of a notification does.
//!
//! The sweep goes by the registry: a channel is the orchestrator's only where an active row
//! says so. A channel that was created and never registered has no row, is not looked at,
//! and is left for the guild's operators to remove.

use crate::models::{Row, VoiceChannel, rows_of};
use crate::utils::{db_id_of, from_db_id, platform_id_of, to_db_id};
use crate::voice::protocol::{Reply, ReplyView, Request, RequestView};
use vstd::prelude::*;

verus! {

/// A failed call that ends a sweep before it has looked at any row.
#[derive(Debug, Clone, Copy, PartialEq, Eq, Structural)]
pub enum SweepFailure {
    /// The guild's active rows could not be read.
    Rows,
    /// The guild's channels could not be listed.
    LiveChannels,
}

/// What a sweep did.
#[derive(Debug, Clone, PartialEq, Eq)]
pub struct SweepReport {
    /// The channels whose row was removed because the platform no longer has them, as stored.
    pub purged: Vec<i64>,
    /// The channels deleted on the platform because they stood empty.
    pub reclaimed: Vec<u64>,
    /// The channels deleted on the platform whose row was then removed.
    pub unregistered: Vec<u64>,
    /// The channels, as stored, on which a deletion or a row's removal failed.
    pub failed: Vec<i64>,
    /// The failed call that ended the sweep early.
    pub error: Option<SweepFailure>,
}

/// What a [`SweepReport`] states.
pub struct SweepReportView {
    pub purged: Seq<i64>,
    pub reclaimed: Seq<u64>,
    pub unregistered: Seq<u64>,
    pub failed: Seq<i64>,
    pub error: Option<SweepFailure>,
}

impl View for SweepReport {
    type V = SweepReportView;

    open spec fn view(&self) -> SweepReportView {
        SweepReportView {
            purged: self.purged@,
            reclaimed: self.reclaimed@,
            unregistered: self.unregistered@,
            failed: self.failed@,
            error: self.error,
        }
    }
}

/// The call a sweep waits on.
#[allow(inconsistent_fields)]
#[derive(Debug, Clone, Copy, PartialEq, Eq, Structural)]
pub enum SweepStage {
    /// The guild's active rows.
    Rows,
    /// The guild's channels on the platform.
    Live,
    /// The removal of the row of a channel that is gone.
    Purge { channel_id: i64 },
    /// The occupancy of a channel that has a row and exists.
    Occupancy { channel_id: u64 },
    /// The deletion of a channel just found empty.
    Delete { channel_id: u64 },
    /// The removal of the row of a channel just deleted.
    Unregister { channel_id: u64 },
    Finished,
}

/// A sweep of one guild, as far as it has come.
#[derive(Debug, Clone, PartialEq, Eq)]
pub struct Sweep {
    pub guild_id: u64,
    pub stage: SweepStage,
    /// The channels of the guild's active rows, as stored, in the order they were read.
    pub queue: Vec<i64>,
    /// How many channels of the queue have been taken up.
    pub taken: usize,
    /// The guild's channels on the platform, as listed when the sweep began.
    pub live: Vec<u64>,
    pub report: SweepReport,
}

/// What a [`Sweep`] states.
pub struct SweepView {
    pub guild_id: u64,
    pub stage: SweepStage,
    /// The channels still to be looked at, as stored.
    pub remaining: Seq<i64>,
    pub live: Seq<u64>,
    pub report: SweepReportView,
}

impl View for Sweep {
    type V = SweepView;

    open spec fn view(&self) -> SweepView {
        SweepView {
            guild_id: self.guild_id,
            stage: self.stage,
            remaining: if self.taken <= self.queue@.len() {
                self.queue@.skip(self.taken as int)
            } else {
                Seq::empty()
            },
            live: self.live@,
            report: self.report@,
        }
    }
}

/// What the host is to do next for a sweep.
#[derive(Debug, Clone, PartialEq, Eq)]
pub enum SweepStep {
    /// Make this call and hand its answer to [`Sweep::advance`].
    Call(Request),
    /// The sweep is over.
    Done(SweepReport),
}

/// What a [`SweepStep`] states.
pub enum SweepStepView {
    Call(RequestView),
    Done(SweepReportView),
}

impl View for SweepStep {
    type V = SweepStepView;

    open spec fn view(&self) -> SweepStepView {
        match *self {
            SweepStep::Call(request) => SweepStepView::Call(request@),
            SweepStep::Done(report) => SweepStepView::Done(report@),
        }
    }
}

/// The channels of the active rows of the guild among `rows`, in their order.
pub open spec fn active_channels(rows: Seq<Row>, guild_id: i64) -> Seq<i64>
    decreases rows.len(),
{
    if rows.len() == 0 {
        Seq::empty()
    } else {
        let before = active_channels(rows.drop_last(), guild_id);
        if rows.last().guild_id == guild_id && rows.last().owner_id != 0 {
            before.push(rows.last().channel_id)
        } else {
            before
        }
    }
}

/// A channel is among those read from `rows` exactly when an active row of the guild names it.
pub proof fn active_channels_are_of_rows(rows: Seq<Row>, guild_id: i64, channel_id: i64)
    ensures
        active_channels(rows, guild_id).contains(channel_id) <==> exists|r: Row|
            #![trigger rows.contains(r)]
            rows.contains(r) && r.guild_id == guild_id && r.owner_id != 0 && r.channel_id
                == channel_id,
        active_channels(rows, guild_id).len() <= rows.len(),
    decreases rows.len(),
{
    if rows.len() > 0 {
        let before = rows.drop_last();
        let last = rows.last();
        active_channels_are_of_rows(before, guild_id, channel_id);
        let taken = last.guild_id == guild_id && last.owner_id != 0;
        assert(rows.contains(last)) by {
            assert(rows[rows.len() - 1] == last);
        }
        assert forall|r: Row| before.contains(r) implies rows.contains(r) by {
            let i = choose|i: int| 0 <= i < before.len() && before[i] == r;
            assert(rows[i] == r);
        }
        assert forall|r: Row| rows.contains(r) implies before.contains(r) || r == last by {
            let i = choose|i: int| 0 <= i < rows.len() && rows[i] == r;
            if i < rows.len() - 1 {
                assert(before[i] == r);
            }
        }
        if taken {
            let channels = active_channels(before, guild_id);
            assert(active_channels(rows, guild_id) == channels.push(last.channel_id));
            assert(channels.push(last.channel_id).contains(channel_id) <==> channels.contains(
                channel_id,
            ) || last.channel_id == channel_id) by {
                let pushed = channels.push(last.channel_id);
                if channels.contains(channel_id) {
                    let i = choose|i: int| 0 <= i < channels.len() && channels[i] == channel_id;
                    assert(pushed[i] == channel_id);
                }
                if last.channel_id == channel_id {
                    assert(pushed[channels.len() as int] == channel_id);
                }
            }
        }
    }
}

impl SweepView {
    /// The sweep at another stage.
    pub open spec fn at(self, stage: SweepStage) -> SweepView {
        SweepView { stage, ..self }
    }

    /// The sweep with another report.
    pub open spec fn with(self, report: SweepReportView) -> SweepView {
        SweepView { report, ..self }
    }

    /// The sweep ends because a call failed.
    pub open spec fn failed(self, failure: SweepFailure) -> SweepView {
        SweepView {
            stage: SweepStage::Finished,
            report: SweepReportView { error: Some(failure), ..self.report },
            ..self
        }
    }

    /// The sweep takes up the next channel: one that the platform listed is asked for its
    /// occupancy, one that it did not list has its row removed. With no channel left the
    /// sweep is over.
    pub open spec fn next(self) -> SweepView {
        if self.remaining.len() == 0 {
            self.at(SweepStage::Finished)
        } else {
            let channel_id = self.remaining[0];
            SweepView {
                stage: if self.live.contains(platform_id_of(channel_id)) {
                    SweepStage::Occupancy { channel_id: platform_id_of(channel_id) }
                } else {
                    SweepStage::Purge { channel_id }
                },
                remaining: self.remaining.skip(1),
                ..self
            }
        }
    }
}

/// A sweep of the guild before any call was made.
pub open spec fn sweep_begin(guild_id: u64) -> SweepView {
    SweepView {
        guild_id,
        stage: SweepStage::Rows,
        remaining: Seq::empty(),
        live: Seq::empty(),
        report: SweepReportView {
            purged: Seq::empty(),
            reclaimed: Seq::empty(),
            unregistered: Seq::empty(),
            failed: Seq::empty(),
            error: None,
        },
    }
}

/// What the sweep asks of its host at its stage.
pub open spec fn sweep_pending(s: SweepView) -> SweepStepView {
    match s.stage {
        SweepStage::Rows => SweepStepView::Call(
            RequestView::LoadActiveRows { guild_id: db_id_of(s.guild_id) },
        ),
        SweepStage::Live => SweepStepView::Call(
            RequestView::ListLiveChannels { guild_id: s.guild_id },
        ),
        SweepStage::Purge { channel_id } => SweepStepView::Call(
            RequestView::DeleteRow { channel_id },
        ),
        SweepStage::Occupancy { channel_id } => SweepStepView::Call(
            RequestView::QueryOccupancy { guild_id: s.guild_id, channel_id },
        ),
        SweepStage::Delete { channel_id } => SweepStepView::Call(
            RequestView::DeleteChannel { channel_id },
        ),
        SweepStage::Unregister { channel_id } => SweepStepView::Call(
            RequestView::DeleteRow { channel_id: db_id_of(channel_id) },
        ),
        SweepStage::Finished => SweepStepView::Done(s.report),
    }
}

/// The sweep after the answer to its pending call. An answer of another kind than the call
/// asks for counts as a failure of the call. A failure on one channel leaves that channel as
/// it is and the sweep goes on to the next.
pub open spec fn sweep_advance(s: SweepView, reply: ReplyView) -> SweepView {
    match s.stage {
        SweepStage::Rows => match reply {
            ReplyView::ActiveRows(rows) => SweepView {
                stage: SweepStage::Live,
                remaining: active_channels(rows, db_id_of(s.guild_id)),
                ..s
            },
            _ => s.failed(SweepFailure::Rows),
        },
        SweepStage::Live => match reply {
            ReplyView::LiveChannels(live) => (SweepView { live, ..s }).next(),
            _ => s.failed(SweepFailure::LiveChannels),
        },
        SweepStage::Purge { channel_id } => match reply {
            ReplyView::RowDeleted => s.with(
                SweepReportView { purged: s.report.purged.push(channel_id), ..s.report },
            ).next(),
            _ => s.with(
                SweepReportView { failed: s.report.failed.push(channel_id), ..s.report },
            ).next(),
        },
        SweepStage::Occupancy { channel_id } => match reply {
            ReplyView::Occupancy(members) => if members == 0 {
                s.at(SweepStage::Delete { channel_id })
            } else {
                s.next()
            },
            _ => s.next(),
        },
        SweepStage::Delete { channel_id } => match reply {
            ReplyView::Deleted => s.with(
                SweepReportView { reclaimed: s.report.reclaimed.push(channel_id), ..s.report },
            ).at(SweepStage::Unregister { channel_id }),
            _ => s.with(
                SweepReportView {
                    failed: s.report.failed.push(db_id_of(channel_id)),
                    ..s.report
                },
            ).next(),
        },
        SweepStage::Unregister { channel_id } => match reply {
            ReplyView::RowDeleted => s.with(
                SweepReportView {
                    unregistered: s.report.unregistered.push(channel_id),
                    ..s.report
                },
            ).next(),
            _ => s.with(
                SweepReportView {
                    failed: s.report.failed.push(db_id_of(channel_id)),
                    ..s.report
                },
            ).next(),
        },
        SweepStage::Finished => s,
    }
}

/// The channels of the active rows of the guild among `rows`, in their order.
pub fn channels_of_active(rows: &Vec<VoiceChannel>, guild_id: i64) -> (channels: Vec<i64>)
    ensures
        channels@ == active_channels(rows_of(rows@), guild_id),
{
    let mut channels: Vec<i64> = Vec::new();
    let mut i: usize = 0;
    assert(rows_of(rows@).take(0) == Seq::<Row>::empty());
    while i < rows.len()
        invariant
            i <= rows.len(),
            channels@ == active_channels(rows_of(rows@).take(i as int), guild_id),
        decreases rows.len() - i,
    {
        let row = &rows[i];
        proof {
            let upto = rows_of(rows@).take(i + 1);
            assert(upto.drop_last() == rows_of(rows@).take(i as int));
            assert(upto.last() == rows@[i as int]@);
        }
        if row.guild_id == guild_id && row.owner_id != 0 {
            channels.push(row.channel_id);
        }
        i += 1;
    }
    assert(rows_of(rows@).take(rows.len() as int) == rows_of(rows@));
    channels
}

/// Whether the platform listed the channel.
pub fn is_listed(live: &Vec<u64>, channel_id: u64) -> (listed: bool)
    ensures
        listed == live@.contains(channel_id),
{
    let mut i: usize = 0;
    while i < live.len()
        invariant
            i <= live.len(),
            forall|j: int| 0 <= j < i ==> live@[j] != channel_id,
        decreases live.len() - i,
    {
        if live[i] == channel_id {
            return true;
        }
        i += 1;
    }
    false
}

impl SweepReport {
    /// A copy of the report.
    pub fn duplicate(&self) -> (copy: SweepReport)
        ensures
            copy@ == self@,
    {
        SweepReport {
            purged: self.purged.clone(),
            reclaimed: self.reclaimed.clone(),
            unregistered: self.unregistered.clone(),
            failed: self.failed.clone(),
            error: self.error,
        }
    }
}

impl Sweep {
    /// Takes up the sweep of a guild. Nothing has been asked of the host yet:
    /// [`Self::pending`] names the first call.
    pub fn begin(guild_id: u64) -> (sweep: Sweep)
        ensures
            sweep@ == sweep_begin(guild_id),
    {
        let sweep = Sweep {
            guild_id,
            stage: SweepStage::Rows,
            queue: Vec::new(),
            taken: 0,
            live: Vec::new(),
            report: SweepReport {
                purged: Vec::new(),
                reclaimed: Vec::new(),
                unregistered: Vec::new(),
                failed: Vec::new(),
                error: None,
            },
        };
        assert(sweep@.remaining == Seq::<i64>::empty());
        sweep
    }

    /// What the host is to do next: the call to make, or the report once the sweep is over.
    pub fn pending(&self) -> (step: SweepStep)
        ensures
            step@ == sweep_pending(self@),
    {
        match self.stage {
            SweepStage::Rows => SweepStep::Call(
                Request::LoadActiveRows { guild_id: to_db_id(self.guild_id) },
            ),
            SweepStage::Live => SweepStep::Call(
                Request::ListLiveChannels { guild_id: self.guild_id },
            ),
            SweepStage::Purge { channel_id } => SweepStep::Call(Request::DeleteRow { channel_id }),
            SweepStage::Occupancy { channel_id } => SweepStep::Call(
                Request::QueryOccupancy { guild_id: self.guild_id, channel_id },
            ),
            SweepStage::Delete { channel_id } => SweepStep::Call(
                Request::DeleteChannel { channel_id },
            ),
            SweepStage::Unregister { channel_id } => SweepStep::Call(
                Request::DeleteRow { channel_id: to_db_id(channel_id) },
            ),
            SweepStage::Finished => SweepStep::Done(self.report.duplicate()),
        }
    }

    /// Whether the sweep is over.
    pub fn is_finished(&self) -> (finished: bool)
        ensures
            finished == (self@.stage is Finished),
    {
        match self.stage {
            SweepStage::Finished => true,
            _ => false,
        }
    }

    fn failed(self, failure: SweepFailure) -> (next: Sweep)
        ensures
            next@ == self@.failed(failure),
    {
        let mut next = self;
        next.stage = SweepStage::Finished;
        next.report.error = Some(failure);
        next
    }

    fn next(self) -> (next: Sweep)
        ensures
            next@ == self@.next(),
    {
        let mut next = self;
        if next.taken < next.queue.len() {
            let channel_id = next.queue[next.taken];
            let on_platform = from_db_id(channel_id);
            next.stage = if is_listed(&next.live, on_platform) {
                SweepStage::Occupancy { channel_id: on_platform }
            } else {
                SweepStage::Purge { channel_id }
            };
            next.taken = next.taken + 1;
            assert(self@.remaining.skip(1) == next@.remaining);
        } else {
            next.stage = SweepStage::Finished;
        }
        next
    }

    /// Takes the answer to the pending call and moves to the next stage.
    pub fn advance(self, reply: Reply) -> (next: Sweep)
        ensures
            next@ == sweep_advance(self@, reply@),
    {
        let mut sweep = self;
        match sweep.stage {
            SweepStage::Rows => match reply {
                Reply::ActiveRows(rows) => {
                    sweep.queue = channels_of_active(&rows, to_db_id(sweep.guild_id));
                    sweep.taken = 0;
                    sweep.stage = SweepStage::Live;
                    assert(sweep.queue@.skip(0) == sweep.queue@);
                    sweep
                },
                _ => sweep.failed(SweepFailure::Rows),
            },
            SweepStage::Live => match reply {
                Reply::LiveChannels(live) => {
                    sweep.live = live;
                    sweep.next()
                },
                _ => sweep.failed(SweepFailure::LiveChannels),
            },
            SweepStage::Purge { channel_id } => {
                match reply {
                    Reply::RowDeleted => {
                        sweep.report.purged.push(channel_id);
                    },
                    _ => {
                        sweep.report.failed.push(channel_id);
                    },
                }
                sweep.next()
            },
            SweepStage::Occupancy { channel_id } => match reply {
                Reply::Occupancy(members) => {
                    if members == 0 {
                        sweep.stage = SweepStage::Delete { channel_id };
                        sweep
                    } else {
                        sweep.next()
                    }
                },
                _ => sweep.next(),
            },
            SweepStage::Delete { channel_id } => match reply {
                Reply::Deleted => {
                    sweep.report.reclaimed.push(channel_id);
                    sweep.stage = SweepStage::Unregister { channel_id };
                    sweep
                },
                _ => {
                    sweep.report.failed.push(to_db_id(channel_id));
                    sweep.next()
                },
            },
            SweepStage::Unregister { channel_id } => {
                match reply {
                    Reply::RowDeleted => {
                        sweep.report.unregistered.push(channel_id);
                    },
                    _ => {
                        sweep.report.failed.push(to_db_id(channel_id));
                    },
                }
                sweep.next()
            },
            SweepStage::Finished => sweep,
        }
    }
}

} // verus!
