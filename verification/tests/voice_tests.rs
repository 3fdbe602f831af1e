use nezuko_bot::models::VoiceChannel;
use nezuko_bot::utils::{from_db_id, to_db_id};
use nezuko_bot::voice::handler::{Failure, PresenceHandler, Stage, Step, Summary};
use nezuko_bot::voice::protocol::{Reply, Request, VoicePresenceChange, VoiceSettings};
use nezuko_bot::voice::sweep::{Sweep, SweepFailure, SweepStage, SweepStep};
use std::collections::{BTreeMap, BTreeSet};

const GUILD: u64 = 900;
const LOBBY: u64 = 10;
const CATEGORY: i64 = 77;
const ALICE: u64 = 1001;
const BOB: u64 = 1002;

/// A registry and a platform held in memory, answering each call as a faithful host would,
/// except where a failure has been arranged.
struct Host {
    rows: Vec<VoiceChannel>,
    next_row: i64,
    channels: BTreeMap<u64, (u64, BTreeSet<u64>)>,
    next_channel: u64,
    settings: BTreeMap<i64, VoiceSettings>,
    names: BTreeMap<u64, String>,
    failing: BTreeSet<&'static str>,
    log: Vec<Request>,
}

impl Host {
    fn new() -> Host {
        let mut host = Host {
            rows: Vec::new(),
            next_row: 1,
            channels: BTreeMap::new(),
            next_channel: 5000,
            settings: BTreeMap::new(),
            names: BTreeMap::new(),
            failing: BTreeSet::new(),
            log: Vec::new(),
        };
        host.settings.insert(
            to_db_id(GUILD),
            VoiceSettings { enabled: true, category_id: Some(CATEGORY), template: None },
        );
        host.channels.insert(LOBBY, (GUILD, BTreeSet::new()));
        host.add_row(GUILD, LOBBY, 0, "lobby");
        host.names.insert(ALICE, "alice".to_string());
        host.names.insert(BOB, "bob".to_string());
        host
    }

    fn add_row(&mut self, guild: u64, channel: u64, owner: u64, name: &str) {
        self.rows.push(VoiceChannel {
            id: self.next_row,
            guild_id: to_db_id(guild),
            channel_id: to_db_id(channel),
            owner_id: to_db_id(owner),
            name: name.to_string(),
            created_at: "2024-01-01 00:00:00".to_string(),
        });
        self.next_row += 1;
    }

    fn add_channel(&mut self, guild: u64, channel: u64, members: &[u64]) {
        self.channels.insert(channel, (guild, members.iter().copied().collect()));
    }

    fn place(&mut self, user: u64, channel: Option<u64>) {
        for (_, (_, members)) in self.channels.iter_mut() {
            members.remove(&user);
        }
        if let Some(c) = channel {
            if let Some((_, members)) = self.channels.get_mut(&c) {
                members.insert(user);
            }
        }
    }

    fn active_rows(&self) -> Vec<(u64, u64, u64)> {
        self.rows
            .iter()
            .filter(|r| r.owner_id != 0)
            .map(|r| (from_db_id(r.guild_id), from_db_id(r.channel_id), from_db_id(r.owner_id)))
            .collect()
    }

    fn serve(&mut self, request: Request) -> Reply {
        self.log.push(request.clone());
        match request {
            Request::LoadSettings { guild_id } => {
                if self.failing.contains("settings") {
                    return Reply::Failed;
                }
                Reply::Settings(self.settings.get(&guild_id).cloned())
            }
            Request::LoadLobbies { guild_id } => {
                if self.failing.contains("lobbies") {
                    return Reply::Failed;
                }
                Reply::Lobbies(
                    self.rows
                        .iter()
                        .filter(|r| r.guild_id == guild_id && r.owner_id == 0)
                        .cloned()
                        .collect(),
                )
            }
            Request::ResolveUserName { user_id } => match self.names.get(&user_id) {
                Some(name) if !self.failing.contains("name") => Reply::UserName(name.clone()),
                _ => Reply::Failed,
            },
            Request::CreateVoiceChannel { guild_id, .. } => {
                if self.failing.contains("create") {
                    return Reply::Failed;
                }
                let id = self.next_channel;
                self.next_channel += 1;
                self.channels.insert(id, (guild_id, BTreeSet::new()));
                Reply::Created(id)
            }
            Request::MoveMember { user_id, channel_id, .. } => {
                if self.failing.contains("move") || !self.channels.contains_key(&channel_id) {
                    return Reply::Failed;
                }
                self.place(user_id, Some(channel_id));
                Reply::Moved
            }
            Request::InsertRow { guild_id, channel_id, owner_id, name } => {
                if self.failing.contains("insert") {
                    return Reply::Failed;
                }
                self.rows.push(VoiceChannel {
                    id: self.next_row,
                    guild_id,
                    channel_id,
                    owner_id,
                    name,
                    created_at: "2024-01-02 00:00:00".to_string(),
                });
                self.next_row += 1;
                Reply::Inserted
            }
            Request::FindActiveRow { channel_id } => {
                if self.failing.contains("find") {
                    return Reply::Failed;
                }
                Reply::ActiveRow(
                    self.rows
                        .iter()
                        .find(|r| r.channel_id == channel_id && r.owner_id != 0)
                        .cloned(),
                )
            }
            Request::QueryOccupancy { channel_id, .. } => match self.channels.get(&channel_id) {
                Some((_, members)) if !self.failing.contains("occupancy") => {
                    Reply::Occupancy(members.len() as u64)
                }
                _ => Reply::Failed,
            },
            Request::DeleteChannel { channel_id } => {
                if self.failing.contains("delete") {
                    return Reply::Failed;
                }
                match self.channels.remove(&channel_id) {
                    Some(_) => Reply::Deleted,
                    None => Reply::Failed,
                }
            }
            Request::DeleteRow { channel_id } => {
                if self.failing.contains("unrow") {
                    return Reply::Failed;
                }
                self.rows.retain(|r| !(r.channel_id == channel_id && r.owner_id != 0));
                Reply::RowDeleted
            }
            Request::LoadActiveRows { guild_id } => {
                if self.failing.contains("rows") {
                    return Reply::Failed;
                }
                Reply::ActiveRows(
                    self.rows
                        .iter()
                        .filter(|r| r.guild_id == guild_id && r.owner_id != 0)
                        .cloned()
                        .collect(),
                )
            }
            Request::ListLiveChannels { guild_id } => {
                if self.failing.contains("list") {
                    return Reply::Failed;
                }
                Reply::LiveChannels(
                    self.channels
                        .iter()
                        .filter(|(_, (g, _))| *g == guild_id)
                        .map(|(c, _)| *c)
                        .collect(),
                )
            }
        }
    }

    fn handle(&mut self, event: VoicePresenceChange) -> Summary {
        let mut handler = PresenceHandler::begin(event);
        let mut calls = 0;
        loop {
            match handler.pending() {
                Step::Call(request) => {
                    calls += 1;
                    assert!(calls <= 10);
                    let reply = self.serve(request);
                    handler = handler.advance(reply);
                }
                Step::Done(summary) => return summary,
            }
        }
    }

    fn sweep(&mut self, guild: u64) -> nezuko_bot::voice::sweep::SweepReport {
        let mut sweep = Sweep::begin(guild);
        loop {
            match sweep.pending() {
                SweepStep::Call(request) => {
                    let reply = self.serve(request);
                    sweep = sweep.advance(reply);
                }
                SweepStep::Done(report) => return report,
            }
        }
    }

    fn mutations(&self) -> usize {
        self.log
            .iter()
            .filter(|r| {
                matches!(
                    r,
                    Request::CreateVoiceChannel { .. }
                        | Request::MoveMember { .. }
                        | Request::InsertRow { .. }
                        | Request::DeleteChannel { .. }
                        | Request::DeleteRow { .. }
                )
            })
            .count()
    }
}

fn joined(user: u64, channel: u64) -> VoicePresenceChange {
    VoicePresenceChange {
        guild_id: Some(GUILD),
        user_id: user,
        old_channel_id: None,
        new_channel_id: Some(channel),
    }
}

fn left(user: u64, channel: u64) -> VoicePresenceChange {
    VoicePresenceChange {
        guild_id: Some(GUILD),
        user_id: user,
        old_channel_id: Some(channel),
        new_channel_id: None,
    }
}

fn untouched() -> Summary {
    Summary {
        spawned: None,
        create_failed: false,
        moved: false,
        registered: false,
        reclaimed: None,
        delete_failed: false,
        unregistered: false,
        error: None,
    }
}

#[test]
fn join_lobby_creates_room_then_leaving_reclaims_it() {
    let mut host = Host::new();
    host.place(ALICE, Some(LOBBY));
    let summary = host.handle(joined(ALICE, LOBBY));
    let room = 5000;
    assert_eq!(
        summary,
        Summary { spawned: Some(room), moved: true, registered: true, ..untouched() }
    );
    assert_eq!(host.active_rows(), vec![(GUILD, room, ALICE)]);
    assert!(host.channels[&room].1.contains(&ALICE));
    assert_eq!(
        host.log,
        vec![
            Request::LoadSettings { guild_id: to_db_id(GUILD) },
            Request::LoadLobbies { guild_id: to_db_id(GUILD) },
            Request::ResolveUserName { user_id: ALICE },
            Request::CreateVoiceChannel {
                guild_id: GUILD,
                category_id: Some(CATEGORY as u64),
                name: "Voice room - alice".to_string(),
            },
            Request::MoveMember { guild_id: GUILD, user_id: ALICE, channel_id: room },
            Request::InsertRow {
                guild_id: to_db_id(GUILD),
                channel_id: to_db_id(room),
                owner_id: to_db_id(ALICE),
                name: "Voice room - alice".to_string(),
            },
        ]
    );

    host.log.clear();
    host.place(ALICE, None);
    let summary = host.handle(left(ALICE, room));
    assert_eq!(summary, Summary { reclaimed: Some(room), unregistered: true, ..untouched() });
    assert!(host.active_rows().is_empty());
    assert!(!host.channels.contains_key(&room));
    assert_eq!(
        host.log,
        vec![
            Request::LoadSettings { guild_id: to_db_id(GUILD) },
            Request::FindActiveRow { channel_id: to_db_id(room) },
            Request::QueryOccupancy { guild_id: GUILD, channel_id: room },
            Request::DeleteChannel { channel_id: room },
            Request::DeleteRow { channel_id: to_db_id(room) },
        ]
    );
    assert_eq!(host.rows.len(), 1);
    assert_eq!(host.rows[0].owner_id, 0);
}

#[test]
fn concurrent_joins_create_independent_rooms() {
    let mut host = Host::new();
    let mut a = PresenceHandler::begin(joined(ALICE, LOBBY));
    let mut b = PresenceHandler::begin(joined(BOB, LOBBY));
    let mut turn = 0;
    while !(a.is_finished() && b.is_finished()) {
        let pick_a = (turn % 2 == 0 && !a.is_finished()) || b.is_finished();
        if pick_a {
            if let Step::Call(request) = a.pending() {
                let reply = host.serve(request);
                a = a.advance(reply);
            }
        } else if let Step::Call(request) = b.pending() {
            let reply = host.serve(request);
            b = b.advance(reply);
        }
        turn += 1;
        assert!(turn <= 20);
    }
    let (sa, sb) = match (a.pending(), b.pending()) {
        (Step::Done(sa), Step::Done(sb)) => (sa, sb),
        _ => unreachable!(),
    };
    assert!(sa.registered && sb.registered);
    let (ca, cb) = (sa.spawned.unwrap(), sb.spawned.unwrap());
    assert_ne!(ca, cb);
    let mut rows = host.active_rows();
    rows.sort();
    let mut expected = vec![(GUILD, ca, ALICE), (GUILD, cb, BOB)];
    expected.sort();
    assert_eq!(rows, expected);
    let creates = host
        .log
        .iter()
        .filter(|r| matches!(r, Request::CreateVoiceChannel { .. }))
        .count();
    assert_eq!(creates, 2);
    assert_eq!(host.rows.len(), 3);
}

#[test]
fn orphaned_channel_without_row_is_left_to_the_operator() {
    let mut host = Host::new();
    host.failing.insert("insert");
    let summary = host.handle(joined(ALICE, LOBBY));
    assert_eq!(
        summary,
        Summary {
            spawned: Some(5000),
            moved: true,
            error: Some(Failure::Insert),
            ..untouched()
        }
    );
    assert!(host.active_rows().is_empty());
    host.failing.clear();
    host.place(ALICE, None);
    host.log.clear();
    let report = host.sweep(GUILD);
    assert!(report.reclaimed.is_empty() && report.purged.is_empty());
    assert_eq!(report.error, None);
    assert!(host.channels.contains_key(&5000));
    assert_eq!(host.mutations(), 0);
}

#[test]
fn departure_without_row_is_a_no_op_however_often() {
    let mut host = Host::new();
    host.add_channel(GUILD, 42, &[]);
    for _ in 0..3 {
        host.log.clear();
        let summary = host.handle(left(ALICE, 42));
        assert_eq!(summary, untouched());
        assert_eq!(
            host.log,
            vec![
                Request::LoadSettings { guild_id: to_db_id(GUILD) },
                Request::FindActiveRow { channel_id: 42 },
            ]
        );
    }
    assert!(host.channels.contains_key(&42));
}

#[test]
fn replayed_departure_deletes_once() {
    let mut host = Host::new();
    host.handle(joined(ALICE, LOBBY));
    host.place(ALICE, None);
    let first = host.handle(left(ALICE, 5000));
    assert_eq!(first.reclaimed, Some(5000));
    host.log.clear();
    let second = host.handle(left(ALICE, 5000));
    assert_eq!(second, untouched());
    assert_eq!(host.mutations(), 0);
}

#[test]
fn occupied_room_is_not_deleted() {
    let mut host = Host::new();
    host.handle(joined(ALICE, LOBBY));
    host.place(BOB, Some(5000));
    host.place(ALICE, None);
    host.log.clear();
    let summary = host.handle(left(ALICE, 5000));
    assert_eq!(summary, untouched());
    assert!(host.channels.contains_key(&5000));
    assert_eq!(host.active_rows(), vec![(GUILD, 5000, ALICE)]);
    assert_eq!(host.log.last(), Some(&Request::QueryOccupancy { guild_id: GUILD, channel_id: 5000 }));
}

#[test]
fn occupancy_is_read_when_the_decision_is_made() {
    let mut host = Host::new();
    host.handle(joined(ALICE, LOBBY));
    host.place(ALICE, None);
    let mut handler = PresenceHandler::begin(left(ALICE, 5000));
    for _ in 0..2 {
        if let Step::Call(request) = handler.pending() {
            let reply = host.serve(request);
            handler = handler.advance(reply);
        }
    }
    assert_eq!(handler.stage, Stage::Occupancy { channel_id: 5000 });
    host.place(BOB, Some(5000));
    if let Step::Call(request) = handler.pending() {
        let reply = host.serve(request);
        assert_eq!(reply, Reply::Occupancy(1));
        handler = handler.advance(reply);
    }
    assert_eq!(handler.pending(), Step::Done(untouched()));
    assert!(host.channels.contains_key(&5000));
}

#[test]
fn moving_from_own_room_to_lobby_creates_and_reclaims() {
    let mut host = Host::new();
    host.handle(joined(ALICE, LOBBY));
    host.place(ALICE, Some(LOBBY));
    let summary = host.handle(VoicePresenceChange {
        guild_id: Some(GUILD),
        user_id: ALICE,
        old_channel_id: Some(5000),
        new_channel_id: Some(LOBBY),
    });
    assert_eq!(
        summary,
        Summary {
            spawned: Some(5001),
            moved: true,
            registered: true,
            reclaimed: Some(5000),
            unregistered: true,
            ..untouched()
        }
    );
    assert_eq!(host.active_rows(), vec![(GUILD, 5001, ALICE)]);
}

#[test]
fn joining_an_active_room_creates_nothing() {
    let mut host = Host::new();
    host.handle(joined(ALICE, LOBBY));
    host.log.clear();
    let summary = host.handle(joined(BOB, 5000));
    assert_eq!(summary, untouched());
    assert_eq!(host.mutations(), 0);
    assert_eq!(host.active_rows(), vec![(GUILD, 5000, ALICE)]);
}

#[test]
fn lobby_row_is_never_reclaimed() {
    let mut host = Host::new();
    host.log.clear();
    let summary = host.handle(left(ALICE, LOBBY));
    assert_eq!(summary, untouched());
    assert!(host.channels.contains_key(&LOBBY));
    assert_eq!(host.rows.len(), 1);
    let forged = PresenceHandler::begin(left(ALICE, LOBBY))
        .advance(Reply::Settings(Some(VoiceSettings {
            enabled: true,
            category_id: None,
            template: None,
        })))
        .advance(Reply::ActiveRow(Some(host.rows[0].clone())));
    assert_eq!(forged.pending(), Step::Done(untouched()));
}

#[test]
fn failed_create_writes_no_row() {
    let mut host = Host::new();
    host.failing.insert("create");
    let summary = host.handle(joined(ALICE, LOBBY));
    assert_eq!(summary, Summary { create_failed: true, ..untouched() });
    assert!(host.active_rows().is_empty());
    assert!(!host.log.iter().any(|r| matches!(r, Request::InsertRow { .. })));
}

#[test]
fn failed_create_still_reclaims_the_room_left() {
    let mut host = Host::new();
    host.handle(joined(ALICE, LOBBY));
    host.place(ALICE, Some(LOBBY));
    host.failing.insert("create");
    let summary = host.handle(VoicePresenceChange {
        guild_id: Some(GUILD),
        user_id: ALICE,
        old_channel_id: Some(5000),
        new_channel_id: Some(LOBBY),
    });
    assert_eq!(
        summary,
        Summary {
            create_failed: true,
            reclaimed: Some(5000),
            unregistered: true,
            ..untouched()
        }
    );
}

#[test]
fn failed_move_still_registers_the_room() {
    let mut host = Host::new();
    host.failing.insert("move");
    let summary = host.handle(joined(ALICE, LOBBY));
    assert_eq!(
        summary,
        Summary { spawned: Some(5000), moved: false, registered: true, ..untouched() }
    );
    assert_eq!(host.active_rows(), vec![(GUILD, 5000, ALICE)]);
}

#[test]
fn failed_delete_keeps_the_row() {
    let mut host = Host::new();
    host.handle(joined(ALICE, LOBBY));
    host.place(ALICE, None);
    host.failing.insert("delete");
    let summary = host.handle(left(ALICE, 5000));
    assert_eq!(summary, Summary { delete_failed: true, ..untouched() });
    assert_eq!(host.active_rows(), vec![(GUILD, 5000, ALICE)]);
    assert!(!host.log.iter().any(|r| matches!(r, Request::DeleteRow { .. })));
    host.failing.clear();
    let retry = host.handle(left(ALICE, 5000));
    assert_eq!(retry, Summary { reclaimed: Some(5000), unregistered: true, ..untouched() });
}

#[test]
fn each_failure_is_reported() {
    let cases: [(&'static str, VoicePresenceChange, Failure); 5] = [
        ("settings", joined(ALICE, LOBBY), Failure::Settings),
        ("lobbies", joined(ALICE, LOBBY), Failure::Lobbies),
        ("name", joined(ALICE, LOBBY), Failure::UserName),
        ("insert", joined(ALICE, LOBBY), Failure::Insert),
        ("find", left(ALICE, 5000), Failure::RowLookup),
    ];
    for (switch, event, failure) in cases {
        let mut host = Host::new();
        host.failing.insert(switch);
        let summary = host.handle(event);
        assert_eq!(summary.error, Some(failure));
    }
    let mut host = Host::new();
    host.handle(joined(ALICE, LOBBY));
    host.place(ALICE, None);
    host.failing.insert("unrow");
    let summary = host.handle(left(ALICE, 5000));
    assert_eq!(
        summary,
        Summary { reclaimed: Some(5000), error: Some(Failure::RowDelete), ..untouched() }
    );
}

#[test]
fn unresolved_user_ends_the_handling_before_the_departure() {
    let mut host = Host::new();
    host.handle(joined(ALICE, LOBBY));
    host.place(ALICE, Some(LOBBY));
    host.failing.insert("name");
    host.log.clear();
    let summary = host.handle(VoicePresenceChange {
        guild_id: Some(GUILD),
        user_id: ALICE,
        old_channel_id: Some(5000),
        new_channel_id: Some(LOBBY),
    });
    assert_eq!(summary, Summary { error: Some(Failure::UserName), ..untouched() });
    assert_eq!(host.log.len(), 3);
}

#[test]
fn unknown_occupancy_deletes_nothing() {
    let mut host = Host::new();
    host.handle(joined(ALICE, LOBBY));
    host.place(ALICE, None);
    host.failing.insert("occupancy");
    host.log.clear();
    let summary = host.handle(left(ALICE, 5000));
    assert_eq!(summary, untouched());
    assert_eq!(host.mutations(), 0);
}

#[test]
fn notifications_that_are_not_handled() {
    let mut host = Host::new();
    let outside = VoicePresenceChange {
        guild_id: None,
        user_id: ALICE,
        old_channel_id: Some(5),
        new_channel_id: Some(LOBBY),
    };
    assert_eq!(PresenceHandler::begin(outside).pending(), Step::Done(untouched()));
    let nobody = VoicePresenceChange {
        guild_id: Some(GUILD),
        user_id: 0,
        old_channel_id: None,
        new_channel_id: Some(LOBBY),
    };
    assert_eq!(PresenceHandler::begin(nobody).pending(), Step::Done(untouched()));

    host.settings.get_mut(&to_db_id(GUILD)).unwrap().enabled = false;
    assert_eq!(host.handle(joined(ALICE, LOBBY)), untouched());
    assert_eq!(host.log.len(), 1);
    host.settings.clear();
    host.log.clear();
    assert_eq!(host.handle(joined(ALICE, LOBBY)), untouched());
    assert_eq!(host.log.len(), 1);
}

#[test]
fn lobby_of_another_guild_does_not_trigger() {
    let mut host = Host::new();
    let foreign = vec![VoiceChannel {
        id: 9,
        guild_id: to_db_id(GUILD + 1),
        channel_id: to_db_id(LOBBY),
        owner_id: 0,
        name: "lobby".to_string(),
        created_at: String::new(),
    }];
    let handler = PresenceHandler::begin(joined(ALICE, LOBBY))
        .advance(host.serve(Request::LoadSettings { guild_id: to_db_id(GUILD) }))
        .advance(Reply::Lobbies(foreign));
    assert_eq!(handler.pending(), Step::Done(untouched()));
}

#[test]
fn room_name_follows_the_template() {
    let mut host = Host::new();
    host.settings.insert(
        to_db_id(GUILD),
        VoiceSettings {
            enabled: true,
            category_id: None,
            template: Some("{username}'s den ({username})".to_string()),
        },
    );
    host.handle(joined(BOB, LOBBY));
    assert_eq!(
        host.log[3],
        Request::CreateVoiceChannel {
            guild_id: GUILD,
            category_id: None,
            name: "bob's den (bob)".to_string(),
        }
    );
    assert_eq!(host.rows[1].name, "bob's den (bob)");
}

#[test]
fn unexpected_answer_counts_as_failure() {
    let handler = PresenceHandler::begin(joined(ALICE, LOBBY)).advance(Reply::Deleted);
    assert_eq!(
        handler.pending(),
        Step::Done(Summary { error: Some(Failure::Settings), ..untouched() })
    );
    let handler = PresenceHandler::begin(left(ALICE, 5000))
        .advance(Reply::Settings(Some(VoiceSettings {
            enabled: true,
            category_id: None,
            template: None,
        })))
        .advance(Reply::ActiveRow(Some(VoiceChannel {
            id: 1,
            guild_id: to_db_id(GUILD),
            channel_id: 5000,
            owner_id: to_db_id(ALICE),
            name: String::new(),
            created_at: String::new(),
        })))
        .advance(Reply::Deleted);
    assert_eq!(handler.pending(), Step::Done(untouched()));
}

#[test]
fn finished_handler_ignores_further_answers() {
    let done = PresenceHandler::begin(left(ALICE, 5000)).advance(Reply::Settings(None));
    assert!(done.is_finished());
    let again = done.clone().advance(Reply::Occupancy(0)).advance(Reply::Deleted);
    assert_eq!(again, done);
}

#[test]
fn sweep_purges_reclaims_and_keeps() {
    let mut host = Host::new();
    host.add_channel(GUILD, 20, &[]);
    host.add_channel(GUILD, 21, &[BOB]);
    host.add_channel(GUILD, 23, &[]);
    host.add_row(GUILD, 20, ALICE, "empty");
    host.add_row(GUILD, 21, BOB, "busy");
    host.add_row(GUILD, 22, ALICE, "gone");
    host.add_row(GUILD + 1, 30, ALICE, "elsewhere");
    let report = host.sweep(GUILD);
    assert_eq!(report.purged, vec![22]);
    assert_eq!(report.reclaimed, vec![20]);
    assert_eq!(report.unregistered, vec![20]);
    assert!(report.failed.is_empty());
    assert_eq!(report.error, None);
    let mut rows = host.active_rows();
    rows.sort();
    assert_eq!(rows, vec![(GUILD, 21, BOB), (GUILD + 1, 30, ALICE)]);
    assert!(host.channels.contains_key(&21));
    assert!(host.channels.contains_key(&23));
    assert!(host.channels.contains_key(&LOBBY));
    assert!(!host.channels.contains_key(&20));
    assert_eq!(host.rows.iter().filter(|r| r.owner_id == 0).count(), 1);
    assert_eq!(
        host.log,
        vec![
            Request::LoadActiveRows { guild_id: to_db_id(GUILD) },
            Request::ListLiveChannels { guild_id: GUILD },
            Request::QueryOccupancy { guild_id: GUILD, channel_id: 20 },
            Request::DeleteChannel { channel_id: 20 },
            Request::DeleteRow { channel_id: 20 },
            Request::QueryOccupancy { guild_id: GUILD, channel_id: 21 },
            Request::DeleteRow { channel_id: 22 },
        ]
    );
}

#[test]
fn second_sweep_makes_no_mutation() {
    let mut host = Host::new();
    host.add_channel(GUILD, 20, &[]);
    host.add_channel(GUILD, 21, &[BOB]);
    host.add_row(GUILD, 20, ALICE, "empty");
    host.add_row(GUILD, 21, BOB, "busy");
    host.add_row(GUILD, 22, ALICE, "gone");
    host.sweep(GUILD);
    assert_eq!(host.mutations(), 3);
    let rows = host.active_rows();
    let channels: Vec<u64> = host.channels.keys().copied().collect();
    host.log.clear();
    let report = host.sweep(GUILD);
    assert_eq!(host.mutations(), 0);
    assert!(report.purged.is_empty() && report.reclaimed.is_empty());
    assert!(report.unregistered.is_empty() && report.failed.is_empty());
    assert_eq!(host.active_rows(), rows);
    assert_eq!(host.channels.keys().copied().collect::<Vec<u64>>(), channels);
}

#[test]
fn sweep_rechecks_occupancy_before_each_delete() {
    let mut host = Host::new();
    host.add_channel(GUILD, 20, &[]);
    host.add_row(GUILD, 20, ALICE, "room");
    let mut sweep = Sweep::begin(GUILD);
    for _ in 0..2 {
        if let SweepStep::Call(request) = sweep.pending() {
            let reply = host.serve(request);
            sweep = sweep.advance(reply);
        }
    }
    assert_eq!(sweep.stage, SweepStage::Occupancy { channel_id: 20 });
    host.place(BOB, Some(20));
    if let SweepStep::Call(request) = sweep.pending() {
        let reply = host.serve(request);
        sweep = sweep.advance(reply);
    }
    assert!(sweep.is_finished());
    assert!(host.channels.contains_key(&20));
    assert_eq!(host.active_rows(), vec![(GUILD, 20, ALICE)]);
}

#[test]
fn sweep_records_failures_and_goes_on() {
    let mut host = Host::new();
    host.add_channel(GUILD, 20, &[]);
    host.add_channel(GUILD, 21, &[]);
    host.add_row(GUILD, 20, ALICE, "a");
    host.add_row(GUILD, 21, BOB, "b");
    host.failing.insert("delete");
    let report = host.sweep(GUILD);
    assert_eq!(report.failed, vec![20, 21]);
    assert!(report.reclaimed.is_empty());
    assert_eq!(host.active_rows().len(), 2);
    host.failing.clear();
    let report = host.sweep(GUILD);
    assert_eq!(report.reclaimed, vec![20, 21]);
    assert!(host.active_rows().is_empty());
}

#[test]
fn sweep_that_cannot_read_ends_at_once() {
    let mut host = Host::new();
    host.add_row(GUILD, 22, ALICE, "gone");
    host.failing.insert("rows");
    let report = host.sweep(GUILD);
    assert_eq!(report.error, Some(SweepFailure::Rows));
    assert_eq!(host.log.len(), 1);
    host.failing.clear();
    host.failing.insert("list");
    host.log.clear();
    let report = host.sweep(GUILD);
    assert_eq!(report.error, Some(SweepFailure::LiveChannels));
    assert_eq!(host.mutations(), 0);
    assert_eq!(host.active_rows().len(), 1);
}

#[test]
fn handling_of_large_identifiers() {
    let mut host = Host::new();
    let big_guild = u64::MAX - 3;
    let big_user = (1u64 << 63) + 17;
    host.settings.insert(
        to_db_id(big_guild),
        VoiceSettings { enabled: true, category_id: Some(-2), template: None },
    );
    host.add_row(big_guild, LOBBY + 1, 0, "lobby");
    host.names.insert(big_user, "zed".to_string());
    let summary = host.handle(VoicePresenceChange {
        guild_id: Some(big_guild),
        user_id: big_user,
        old_channel_id: None,
        new_channel_id: Some(LOBBY + 1),
    });
    assert!(summary.registered);
    assert_eq!(
        host.log[3],
        Request::CreateVoiceChannel {
            guild_id: big_guild,
            category_id: Some(u64::MAX - 1),
            name: "Voice room - zed".to_string(),
        }
    );
    assert_eq!(host.active_rows(), vec![(big_guild, 5000, big_user)]);
}

#[test]
fn rows_written_match_channels_created() {
    let mut host = Host::new();
    host.names.insert(1003, "carol".to_string());
    let mut created = 0;
    let mut registered = 0;
    for round in 0..12u64 {
        let user = [ALICE, BOB, 1003][(round % 3) as usize];
        if round % 4 == 3 {
            host.failing.insert("create");
        } else {
            host.failing.remove("create");
        }
        host.place(user, Some(LOBBY));
        let summary = host.handle(joined(user, LOBBY));
        if let Some(room) = summary.spawned {
            created += 1;
            assert!(summary.registered);
            registered += 1;
            if round % 2 == 0 {
                host.place(user, None);
                let gone = host.handle(left(user, room));
                assert_eq!(gone.reclaimed, Some(room));
                registered -= 1;
            }
        } else {
            assert!(summary.create_failed && !summary.registered);
        }
    }
    let creates = host
        .log
        .iter()
        .filter(|r| matches!(r, Request::CreateVoiceChannel { .. }))
        .count();
    let inserts =
        host.log.iter().filter(|r| matches!(r, Request::InsertRow { .. })).count();
    assert_eq!(creates, 12);
    assert_eq!(created, 9);
    assert_eq!(inserts, created);
    assert_eq!(host.active_rows().len(), registered);
    let mut channels: Vec<u64> = host.active_rows().iter().map(|r| r.1).collect();
    channels.sort();
    channels.dedup();
    assert_eq!(channels.len(), registered);
}

#[test]
fn sweep_with_a_row_read_twice_deletes_once() {
    let mut host = Host::new();
    host.add_channel(GUILD, 20, &[]);
    host.add_row(GUILD, 20, ALICE, "room");
    host.add_row(GUILD, 20, ALICE, "room again");
    let report = host.sweep(GUILD);
    assert_eq!(report.reclaimed, vec![20]);
    assert_eq!(report.unregistered, vec![20]);
    assert!(host.active_rows().is_empty());
    let deletes =
        host.log.iter().filter(|r| matches!(r, Request::DeleteChannel { .. })).count();
    assert_eq!(deletes, 1);
}
