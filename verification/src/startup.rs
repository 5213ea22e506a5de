//! The start-up protocol: a store without the test reference and the main
//! player is rebuilt from nothing; a store that has them names the main
//! player, and the party follows it.

use vstd::prelude::*;
use crate::component::{
    count_of_type, is_last_of_type, lemma_count_zero, party_count, PlayerComponent,
    PlayerIdentity,
};
use crate::edits::{changed_only_at, renamed_to};
use crate::error::{PlayerFault, PlayerHandlerError};
use crate::ids::{fresh_uuid, parse_uuid, uuid_parsed, uuid_text, uuid_to_string};
use crate::party::Party;
use crate::player::{Player, PlayerType};
use crate::plugin::BevyEasyPlayerHandlerPlugin;
use crate::sync::{
    find_last_of_type, main_verdict, missing_identity, DBPlayer, PlayerHandlerInterface,
};

verus! {

/// The party, the live players and the configuration all name `id` as the
/// main player: the last live player with the main role has it, slot 1
/// holds it, and the party and the configuration cache it.
pub open spec fn main_player_is(
    party: Party,
    players: Seq<PlayerComponent>,
    plugin: BevyEasyPlayerHandlerPlugin,
    id: u128,
) -> bool {
    &&& exists|i: int|
        is_last_of_type(players, PlayerType::PlayerMain, i) && #[trigger] players[i].player.uuid
            == id
    &&& party.slots().contains_key(1) && party.slots()[1] == id
    &&& party.main_player_uuid == Some(id)
    &&& plugin.uuid() == Some(id)
}

/// The session was rebuilt around a new main player, whose id the
/// configuration `after` names: `outcome` holds the two records for the
/// durable store, first the test reference `test_ref`, then the main
/// player with the email and username configured in `before`; the main
/// player is the only live player and sits alone in slot 1, under the
/// cursor.
pub open spec fn rebuilt(
    before: BevyEasyPlayerHandlerPlugin,
    test_ref: (u128, String, String),
    party: Party,
    players: Seq<PlayerComponent>,
    after: BevyEasyPlayerHandlerPlugin,
    outcome: Result<Vec<DBPlayer>, PlayerHandlerError>,
) -> bool {
    &&& outcome is Ok
    &&& after.uuid() is Some
    &&& outcome.unwrap()@.len() == 2
    &&& outcome.unwrap()@[0].uuid@ == uuid_text(test_ref.0)
    &&& outcome.unwrap()@[0].email@ == test_ref.1@
    &&& outcome.unwrap()@[0].username@ == test_ref.2@
    &&& outcome.unwrap()@[1].uuid@ == uuid_text(after.uuid().unwrap())
    &&& Some(outcome.unwrap()@[1].email@) == before.email()
    &&& Some(outcome.unwrap()@[1].username@) == before.username()
    &&& players.len() == 1
    &&& party_count(players) == 1
    &&& players[0].player.role == PlayerType::PlayerMain
    &&& players[0].player.email() is None
    &&& players[0].player.username() == before.username()
    &&& party.slots() == Map::<usize, u128>::empty().insert(1, after.uuid().unwrap())
    &&& party.active_player == 1
    &&& main_player_is(party, players, after, after.uuid().unwrap())
}

/// Nothing has changed from `before` to `after`.
pub open spec fn untouched(
    before: (Party, Seq<PlayerComponent>, BevyEasyPlayerHandlerPlugin),
    after: (Party, Seq<PlayerComponent>, BevyEasyPlayerHandlerPlugin),
) -> bool {
    &&& after.0.slots() == before.0.slots()
    &&& after.0.active_player == before.0.active_player
    &&& after.0.main_player_uuid == before.0.main_player_uuid
    &&& after.1 == before.1
    &&& after.2.uuid() == before.2.uuid()
    &&& after.2.email() == before.2.email()
    &&& after.2.username() == before.2.username()
    &&& after.2.size_limit() == before.2.size_limit()
}

/// The outcome of rebuilding the session: refused, with nothing changed,
/// as [`missing_identity`] says of the configuration; else rebuilt as
/// [`rebuilt`] says.
pub open spec fn rebuilt_or_refused(
    before: (Party, Seq<PlayerComponent>, BevyEasyPlayerHandlerPlugin),
    test_ref: (u128, String, String),
    after: (Party, Seq<PlayerComponent>, BevyEasyPlayerHandlerPlugin),
    outcome: Result<Vec<DBPlayer>, PlayerHandlerError>,
) -> bool {
    match missing_identity(before.2) {
        Some(e) => outcome == Err::<Vec<DBPlayer>, PlayerHandlerError>(e) && untouched(
            before,
            after,
        ),
        None => rebuilt(before.2, test_ref, after.0, after.1, after.2, outcome),
    }
}

impl PlayerHandlerInterface {
    /// Rebuilds the session around a new main player with the id
    /// `main_player_uuid`: the party and the live players are cleared, the
    /// main player becomes the only live player and takes slot 1, with the
    /// cursor on it, and the party and the configuration cache its id.
    ///
    /// Returns the two records with which the caller refills the emptied
    /// durable store, in this order: the test reference (`test_ref`: its
    /// id, then the texts stored as its email and username) and the main
    /// player with the configured email and username. Fails, changing
    /// nothing, as [`missing_identity`] says when the configuration lacks
    /// either.
    pub fn bootstrap_party(
        &self,
        party: &mut Party,
        players: &mut Vec<PlayerComponent>,
        plugin: &mut BevyEasyPlayerHandlerPlugin,
        test_ref: &(u128, String, String),
        main_player_uuid: u128,
    ) -> (r: Result<Vec<DBPlayer>, PlayerHandlerError>)
        ensures
            rebuilt_or_refused(
                (*old(party), old(players)@, *old(plugin)),
                *test_ref,
                (*final(party), final(players)@, *final(plugin)),
                r,
            ),
            r is Ok ==> final(plugin).uuid() == Some(main_player_uuid),
            final(plugin).email() == old(plugin).email(),
            final(plugin).username() == old(plugin).username(),
            final(plugin).size_limit() == old(plugin).size_limit(),
    {
        broadcast use vstd::std_specs::hash::group_hash_axioms;

        let main_player_email = match plugin.get_main_player_email() {
            Ok(Some(text)) => text.clone(),
            _ => {
                return Err(PlayerHandlerError::PlayerMainCallFailed(PlayerFault::MissingEmail));
            },
        };
        let main_player_username = match plugin.get_main_player_username() {
            Ok(Some(text)) => text.clone(),
            _ => {
                return Err(PlayerHandlerError::PlayerMainCallFailed(PlayerFault::MissingUsername));
            },
        };
        party.player_map.clear();
        players.clear();

        let mut records: Vec<DBPlayer> = Vec::new();
        records.push(
            DBPlayer {
                uuid: uuid_to_string(test_ref.0),
                email: test_ref.1.clone(),
                username: test_ref.2.clone(),
            },
        );
        records.push(
            DBPlayer {
                uuid: uuid_to_string(main_player_uuid),
                email: main_player_email,
                username: main_player_username.clone(),
            },
        );

        let _ = plugin.set_main_player_uuid(&main_player_uuid);
        players.push(
            PlayerComponent {
                player: PlayerIdentity {
                    uuid: main_player_uuid,
                    email: None,
                    username: Some(main_player_username),
                    role: PlayerType::PlayerMain,
                },
            },
        );
        party.player_map.insert(1, main_player_uuid);
        party.active_player = 1;
        party.main_player_uuid = Some(main_player_uuid);
        proof {
            reveal_with_fuel(crate::component::ids_of_type, 3);
            assert(players@.drop_last() =~= Seq::<PlayerComponent>::empty());
            assert(is_last_of_type(players@, PlayerType::PlayerMain, 0));
        }
        Ok(records)
    }

    /// Makes the party follow the durable store in who the main player is:
    /// the last live player with the main role gets the id
    /// `durable_uuid`, slot 1 gets it, and the party and the configuration
    /// cache it. Nothing else changes. Returns whether anything had to
    /// change.
    ///
    /// Fails with `MainPlayerMissing`, changing nothing, exactly when no
    /// live player has the main role.
    pub fn sync_main_player(
        &self,
        party: &mut Party,
        players: &mut Vec<PlayerComponent>,
        plugin: &mut BevyEasyPlayerHandlerPlugin,
        durable_uuid: u128,
    ) -> (r: Result<bool, PlayerHandlerError>)
        ensures
            final(party).active_player == old(party).active_player,
            final(plugin).email() == old(plugin).email(),
            final(plugin).username() == old(plugin).username(),
            final(plugin).size_limit() == old(plugin).size_limit(),
            match r {
                Ok(changed) => {
                    &&& exists|i: int|
                        {
                            &&& is_last_of_type(old(players)@, PlayerType::PlayerMain, i)
                            &&& changed_only_at(old(players)@, final(players)@, i)
                            &&& #[trigger] renamed_to(
                                old(players)@[i].player,
                                final(players)@[i].player,
                                durable_uuid,
                            )
                        }
                    &&& final(party).slots() == old(party).slots().insert(1, durable_uuid)
                    &&& main_player_is(*final(party), final(players)@, *final(plugin), durable_uuid)
                    &&& changed == !main_player_is(
                        *old(party),
                        old(players)@,
                        *old(plugin),
                        durable_uuid,
                    )
                },
                Err(e) => {
                    &&& e == PlayerHandlerError::MainPlayerMissing
                    &&& forall|j: int|
                        0 <= j < old(players)@.len() ==> old(players)@[j].player.role
                            != PlayerType::PlayerMain
                    &&& final(players)@ == old(players)@
                    &&& final(party).slots() == old(party).slots()
                    &&& final(party).main_player_uuid == old(party).main_player_uuid
                    &&& final(plugin).uuid() == old(plugin).uuid()
                },
            },
    {
        broadcast use vstd::std_specs::hash::group_hash_axioms;

        let i = match find_last_of_type(players, PlayerType::PlayerMain) {
            Some(i) => i,
            None => {
                return Err(PlayerHandlerError::MainPlayerMissing);
            },
        };
        let live_differs = players[i].player.uuid != durable_uuid;
        let slot_differs = match party.get_player_map_uuid_at(1) {
            Some(id) => id != durable_uuid,
            None => true,
        };
        let cache_differs = !party.is_main_player(&durable_uuid);
        let plugin_differs = match plugin.get_main_player_uuid() {
            Ok(Some(id)) => *id != durable_uuid,
            _ => true,
        };

        let mut player = players[i].player.copy_of();
        player.uuid = durable_uuid;
        players.set(i, PlayerComponent { player });
        party.player_map.insert(1, durable_uuid);
        party.main_player_uuid = Some(durable_uuid);
        let _ = plugin.set_main_player_uuid(&durable_uuid);
        proof {
            assert(is_last_of_type(players@, PlayerType::PlayerMain, i as int));
            assert(renamed_to(old(players)@[i as int].player, players@[i as int].player, durable_uuid));
            if !(live_differs || slot_differs || cache_differs || plugin_differs) {
                assert(is_last_of_type(old(players)@, PlayerType::PlayerMain, i as int));
                assert(old(players)@[i as int].player.uuid == durable_uuid);
            } else if main_player_is(*old(party), old(players)@, *old(plugin), durable_uuid) {
                let w = choose|w: int|
                    is_last_of_type(old(players)@, PlayerType::PlayerMain, w)
                        && #[trigger] old(players)@[w].player.uuid == durable_uuid;
                assert(w == i);
            }
        }
        Ok(live_differs || slot_differs || cache_differs || plugin_differs)
    }

    /// Adopts the main player that the durable store names, given what
    /// `uuid` read from the stored id: `UuidParsingFailed`, changing
    /// nothing, when it read nothing; else as
    /// [`PlayerHandlerInterface::sync_main_player`] does.
    pub fn adopt_durable_main_player(
        &self,
        party: &mut Party,
        players: &mut Vec<PlayerComponent>,
        plugin: &mut BevyEasyPlayerHandlerPlugin,
        durable_uuid: Option<u128>,
    ) -> (r: Result<bool, PlayerHandlerError>)
        ensures
            final(party).active_player == old(party).active_player,
            final(plugin).email() == old(plugin).email(),
            final(plugin).username() == old(plugin).username(),
            final(plugin).size_limit() == old(plugin).size_limit(),
            match r {
                Ok(changed) => {
                    &&& durable_uuid is Some
                    &&& exists|i: int|
                        {
                            &&& is_last_of_type(old(players)@, PlayerType::PlayerMain, i)
                            &&& changed_only_at(old(players)@, final(players)@, i)
                            &&& #[trigger] renamed_to(
                                old(players)@[i].player,
                                final(players)@[i].player,
                                durable_uuid.unwrap(),
                            )
                        }
                    &&& final(party).slots() == old(party).slots().insert(
                        1,
                        durable_uuid.unwrap(),
                    )
                    &&& main_player_is(
                        *final(party),
                        final(players)@,
                        *final(plugin),
                        durable_uuid.unwrap(),
                    )
                    &&& changed == !main_player_is(
                        *old(party),
                        old(players)@,
                        *old(plugin),
                        durable_uuid.unwrap(),
                    )
                },
                Err(e) => {
                    &&& final(players)@ == old(players)@
                    &&& final(party).slots() == old(party).slots()
                    &&& final(party).main_player_uuid == old(party).main_player_uuid
                    &&& final(plugin).uuid() == old(plugin).uuid()
                    &&& match durable_uuid {
                        None => e == PlayerHandlerError::UuidParsingFailed,
                        Some(_) => e == PlayerHandlerError::MainPlayerMissing && forall|j: int|
                            0 <= j < old(players)@.len() ==> old(players)@[j].player.role
                                != PlayerType::PlayerMain,
                    }
                },
            },
    {
        match durable_uuid {
            Some(id) => self.sync_main_player(party, players, plugin, id),
            None => Err(PlayerHandlerError::UuidParsingFailed),
        }
    }

    /// Reconciles the main player with the durable store: the main
    /// player's record is the second of `records`
    /// (`MainPlayerMissing`, changing nothing, when there are fewer than
    /// two), and what `uuid` reads from its id is adopted as
    /// [`PlayerHandlerInterface::adopt_durable_main_player`] says.
    pub fn pipeline_db_and_party_sync_main_player_uuids(
        &self,
        records: &Vec<DBPlayer>,
        party: &mut Party,
        players: &mut Vec<PlayerComponent>,
        plugin: &mut BevyEasyPlayerHandlerPlugin,
    ) -> (r: Result<bool, PlayerHandlerError>)
        ensures
            final(party).active_player == old(party).active_player,
            final(plugin).email() == old(plugin).email(),
            final(plugin).username() == old(plugin).username(),
            final(plugin).size_limit() == old(plugin).size_limit(),
            match r {
                Ok(changed) => {
                    &&& records@.len() >= 2
                    &&& uuid_parsed(records@[1].uuid@) is Some
                    &&& final(party).slots() == old(party).slots().insert(
                        1,
                        uuid_parsed(records@[1].uuid@).unwrap(),
                    )
                    &&& main_player_is(
                        *final(party),
                        final(players)@,
                        *final(plugin),
                        uuid_parsed(records@[1].uuid@).unwrap(),
                    )
                    &&& changed == !main_player_is(
                        *old(party),
                        old(players)@,
                        *old(plugin),
                        uuid_parsed(records@[1].uuid@).unwrap(),
                    )
                    &&& exists|i: int|
                        {
                            &&& is_last_of_type(old(players)@, PlayerType::PlayerMain, i)
                            &&& changed_only_at(old(players)@, final(players)@, i)
                            &&& #[trigger] renamed_to(
                                old(players)@[i].player,
                                final(players)@[i].player,
                                uuid_parsed(records@[1].uuid@).unwrap(),
                            )
                        }
                },
                Err(e) => {
                    &&& final(players)@ == old(players)@
                    &&& final(party).slots() == old(party).slots()
                    &&& final(party).main_player_uuid == old(party).main_player_uuid
                    &&& final(plugin).uuid() == old(plugin).uuid()
                    &&& e == if records@.len() < 2 {
                        PlayerHandlerError::MainPlayerMissing
                    } else if uuid_parsed(records@[1].uuid@) is None {
                        PlayerHandlerError::UuidParsingFailed
                    } else {
                        PlayerHandlerError::MainPlayerMissing
                    }
                    &&& records@.len() >= 2 && uuid_parsed(records@[1].uuid@) is Some ==> forall|
                        j: int,
                    |
                        0 <= j < old(players)@.len() ==> old(players)@[j].player.role
                            != PlayerType::PlayerMain
                },
            },
    {
        let database_main_player = match self.query_db_main_player(records) {
            Ok(record) => record,
            Err(e) => {
                return Err(e);
            },
        };
        let database_main_player_uuid = parse_uuid(database_main_player.uuid.as_str());
        self.adopt_durable_main_player(party, players, plugin, database_main_player_uuid)
    }

    /// The first step of a session, given the records of the durable store
    /// and the id to use for a new main player.
    ///
    /// With at most one record the store lacks the test reference or the
    /// main player: the session is rebuilt as
    /// [`PlayerHandlerInterface::bootstrap_party`] says, and the two
    /// records to write into the emptied store are returned. With more
    /// records the main player of the store is adopted as
    /// [`PlayerHandlerInterface::pipeline_db_and_party_sync_main_player_uuids`]
    /// says, and no record is returned.
    pub fn startup_test_ref_and_init_main_player(
        &self,
        records: &Vec<DBPlayer>,
        party: &mut Party,
        players: &mut Vec<PlayerComponent>,
        plugin: &mut BevyEasyPlayerHandlerPlugin,
        test_ref: &(u128, String, String),
        main_player_uuid: u128,
    ) -> (r: Result<Vec<DBPlayer>, PlayerHandlerError>)
        ensures
            final(plugin).email() == old(plugin).email(),
            final(plugin).username() == old(plugin).username(),
            final(plugin).size_limit() == old(plugin).size_limit(),
            records@.len() <= 1 ==> rebuilt_or_refused(
                (*old(party), old(players)@, *old(plugin)),
                *test_ref,
                (*final(party), final(players)@, *final(plugin)),
                r,
            ) && (r is Ok ==> final(plugin).uuid() == Some(main_player_uuid)),
            records@.len() > 1 ==> {
                &&& final(party).active_player == old(party).active_player
                &&& match r {
                    Ok(written) => {
                        &&& written@.len() == 0
                        &&& uuid_parsed(records@[1].uuid@) is Some
                        &&& final(party).slots() == old(party).slots().insert(
                            1,
                            uuid_parsed(records@[1].uuid@).unwrap(),
                        )
                        &&& main_player_is(
                            *final(party),
                            final(players)@,
                            *final(plugin),
                            uuid_parsed(records@[1].uuid@).unwrap(),
                        )
                        &&& exists|i: int|
                            {
                                &&& is_last_of_type(old(players)@, PlayerType::PlayerMain, i)
                                &&& changed_only_at(old(players)@, final(players)@, i)
                                &&& #[trigger] renamed_to(
                                    old(players)@[i].player,
                                    final(players)@[i].player,
                                    uuid_parsed(records@[1].uuid@).unwrap(),
                                )
                            }
                    },
                    Err(e) => {
                        &&& final(players)@ == old(players)@
                        &&& final(party).slots() == old(party).slots()
                        &&& final(party).main_player_uuid == old(party).main_player_uuid
                        &&& final(plugin).uuid() == old(plugin).uuid()
                        &&& if uuid_parsed(records@[1].uuid@) is None {
                            e == PlayerHandlerError::UuidParsingFailed
                        } else {
                            e == PlayerHandlerError::MainPlayerMissing && forall|j: int|
                                0 <= j < old(players)@.len() ==> old(players)@[j].player.role
                                    != PlayerType::PlayerMain
                        }
                    },
                }
            },
    {
        if records.len() <= 1 {
            self.bootstrap_party(party, players, plugin, test_ref, main_player_uuid)
        } else {
            match self.pipeline_db_and_party_sync_main_player_uuids(records, party, players, plugin) {
                Ok(_) => Ok(Vec::new()),
                Err(e) => Err(e),
            }
        }
    }

    /// The first step of a session with a newly generated id, whose value
    /// is not determined here, for a new main player; all else is as in
    /// [`PlayerHandlerInterface::startup_test_ref_and_init_main_player`].
    pub fn pipeline_db_and_party_startup_test_ref_and_init_main_player(
        &self,
        records: &Vec<DBPlayer>,
        party: &mut Party,
        players: &mut Vec<PlayerComponent>,
        plugin: &mut BevyEasyPlayerHandlerPlugin,
        test_ref: &(u128, String, String),
    ) -> (r: Result<Vec<DBPlayer>, PlayerHandlerError>)
        ensures
            final(plugin).email() == old(plugin).email(),
            final(plugin).username() == old(plugin).username(),
            final(plugin).size_limit() == old(plugin).size_limit(),
            records@.len() <= 1 ==> rebuilt_or_refused(
                (*old(party), old(players)@, *old(plugin)),
                *test_ref,
                (*final(party), final(players)@, *final(plugin)),
                r,
            ),
            records@.len() > 1 ==> {
                &&& final(party).active_player == old(party).active_player
                &&& match r {
                    Ok(written) => {
                        &&& written@.len() == 0
                        &&& uuid_parsed(records@[1].uuid@) is Some
                        &&& final(party).slots() == old(party).slots().insert(
                            1,
                            uuid_parsed(records@[1].uuid@).unwrap(),
                        )
                        &&& main_player_is(
                            *final(party),
                            final(players)@,
                            *final(plugin),
                            uuid_parsed(records@[1].uuid@).unwrap(),
                        )
                        &&& exists|i: int|
                            {
                                &&& is_last_of_type(old(players)@, PlayerType::PlayerMain, i)
                                &&& changed_only_at(old(players)@, final(players)@, i)
                                &&& #[trigger] renamed_to(
                                    old(players)@[i].player,
                                    final(players)@[i].player,
                                    uuid_parsed(records@[1].uuid@).unwrap(),
                                )
                            }
                    },
                    Err(e) => {
                        &&& final(players)@ == old(players)@
                        &&& final(party).slots() == old(party).slots()
                        &&& final(party).main_player_uuid == old(party).main_player_uuid
                        &&& final(plugin).uuid() == old(plugin).uuid()
                        &&& if uuid_parsed(records@[1].uuid@) is None {
                            e == PlayerHandlerError::UuidParsingFailed
                        } else {
                            e == PlayerHandlerError::MainPlayerMissing && forall|j: int|
                                0 <= j < old(players)@.len() ==> old(players)@[j].player.role
                                    != PlayerType::PlayerMain
                        }
                    },
                }
            },
    {
        let main_player_uuid = fresh_uuid();
        self.startup_test_ref_and_init_main_player(
            records,
            party,
            players,
            plugin,
            test_ref,
            main_player_uuid,
        )
    }

    /// The start of a session, given the records of the durable store.
    ///
    /// With fewer than two records the session is rebuilt as
    /// [`PlayerHandlerInterface::pipeline_db_and_party_startup_test_ref_and_init_main_player`]
    /// says, and the two records to write are returned. Otherwise no record
    /// is returned, and the live main player is held against the main
    /// player's record, the second of the store: where the two ids agree
    /// nothing changes; where they differ the stored id is adopted as
    /// [`PlayerHandlerInterface::sync_main_player`] says.
    ///
    /// With two or more records the call fails, changing nothing, exactly
    /// when no live player has the main role or `uuid` does not accept the
    /// stored id: with `MainPlayerMissing` when there is no live main
    /// player and either the party has members or the id was accepted,
    /// else with `UuidParsingFailed`.
    pub fn start_up_protocol_finish(
        &self,
        records: &Vec<DBPlayer>,
        party: &mut Party,
        players: &mut Vec<PlayerComponent>,
        plugin: &mut BevyEasyPlayerHandlerPlugin,
        test_ref: &(u128, String, String),
    ) -> (r: Result<Vec<DBPlayer>, PlayerHandlerError>)
        ensures
            final(plugin).email() == old(plugin).email(),
            final(plugin).username() == old(plugin).username(),
            final(plugin).size_limit() == old(plugin).size_limit(),
            records@.len() <= 1 ==> rebuilt_or_refused(
                (*old(party), old(players)@, *old(plugin)),
                *test_ref,
                (*final(party), final(players)@, *final(plugin)),
                r,
            ),
            records@.len() > 1 ==> {
                &&& final(party).active_player == old(party).active_player
                &&& match r {
                    Ok(written) => {
                        &&& written@.len() == 0
                        &&& uuid_parsed(records@[1].uuid@) is Some
                        &&& exists|i: int|
                            {
                                &&& is_last_of_type(old(players)@, PlayerType::PlayerMain, i)
                                &&& changed_only_at(old(players)@, final(players)@, i)
                                &&& #[trigger] renamed_to(
                                    old(players)@[i].player,
                                    final(players)@[i].player,
                                    uuid_parsed(records@[1].uuid@).unwrap(),
                                )
                                &&& if old(players)@[i].player.uuid == uuid_parsed(
                                    records@[1].uuid@,
                                ).unwrap() {
                                    &&& final(players)@ == old(players)@
                                    &&& final(party).slots() == old(party).slots()
                                    &&& final(party).main_player_uuid == old(
                                        party,
                                    ).main_player_uuid
                                    &&& final(plugin).uuid() == old(plugin).uuid()
                                } else {
                                    &&& final(party).slots() == old(party).slots().insert(
                                        1,
                                        uuid_parsed(records@[1].uuid@).unwrap(),
                                    )
                                    &&& main_player_is(
                                        *final(party),
                                        final(players)@,
                                        *final(plugin),
                                        uuid_parsed(records@[1].uuid@).unwrap(),
                                    )
                                }
                            }
                    },
                    Err(e) => {
                        &&& final(players)@ == old(players)@
                        &&& final(party).slots() == old(party).slots()
                        &&& final(party).main_player_uuid == old(party).main_player_uuid
                        &&& final(plugin).uuid() == old(plugin).uuid()
                        &&& count_of_type(old(players)@, PlayerType::PlayerMain) == 0
                            || uuid_parsed(records@[1].uuid@) is None
                        &&& e == if count_of_type(old(players)@, PlayerType::PlayerMain) == 0 && (
                        party_count(old(players)@) > 0 || uuid_parsed(records@[1].uuid@) is Some) {
                            PlayerHandlerError::MainPlayerMissing
                        } else {
                            PlayerHandlerError::UuidParsingFailed
                        }
                    },
                }
            },
    {
        if records.len() < 2 {
            return self.pipeline_db_and_party_startup_test_ref_and_init_main_player(
                records,
                party,
                players,
                plugin,
                test_ref,
            );
        }
        proof {
            lemma_count_zero(players@, PlayerType::PlayerMain);
        }
        let party_and_database_main_player_synced =
            match self.query_party_and_db_main_player_synced(records, party, players) {
            Ok(synced) => synced,
            Err(e) => {
                return Err(e);
            },
        };
        if !party_and_database_main_player_synced {
            match self.pipeline_db_and_party_sync_main_player_uuids(records, party, players, plugin) {
                Ok(_) => {},
                Err(e) => {
                    return Err(e);
                },
            }
        } else {
            proof {
                let stored = uuid_parsed(records@[1].uuid@);
                let i = choose|i: int|
                    is_last_of_type(players@, PlayerType::PlayerMain, i) && Ok::<
                        bool,
                        PlayerHandlerError,
                    >(true) == #[trigger] main_verdict(players@, i, stored);
                assert(renamed_to(players@[i].player, players@[i].player, stored.unwrap()));
            }
        }
        Ok(Vec::new())
    }

    /// Rebuilds the session around a main player with a newly generated
    /// id, whose value is not determined here; all else is as in
    /// [`PlayerHandlerInterface::bootstrap_party`].
    pub fn pipeline_db_and_party_remove_all_build_test_ref_and_init_new_main_player(
        &self,
        party: &mut Party,
        players: &mut Vec<PlayerComponent>,
        plugin: &mut BevyEasyPlayerHandlerPlugin,
        test_ref: &(u128, String, String),
    ) -> (r: Result<Vec<DBPlayer>, PlayerHandlerError>)
        ensures
            rebuilt_or_refused(
                (*old(party), old(players)@, *old(plugin)),
                *test_ref,
                (*final(party), final(players)@, *final(plugin)),
                r,
            ),
            final(plugin).email() == old(plugin).email(),
            final(plugin).username() == old(plugin).username(),
            final(plugin).size_limit() == old(plugin).size_limit(),
    {
        let main_player_uuid = fresh_uuid();
        self.bootstrap_party(party, players, plugin, test_ref, main_player_uuid)
    }
}

/// Makes the party cache the main player that the configuration names;
/// where it names none, the party keeps what it has.
pub fn sync_plugin_party_main_player_uuid(party: &mut Party, plugin: &BevyEasyPlayerHandlerPlugin)
    ensures
        final(party).main_player_uuid == match plugin.uuid() {
            Some(id) => Some(id),
            None => old(party).main_player_uuid,
        },
        final(party).active_player == old(party).active_player,
        final(party).player_map == old(party).player_map,
{
    match plugin.get_main_player_uuid() {
        Ok(Some(id)) => {
            party.main_player_uuid = Some(*id);
        },
        _ => {},
    }
}

} // verus!
