//! Reconciliation of the party with the durable player records and the
//! live players: what to adopt, what to write, who may join and who may
//! leave. Reading and writing the durable store itself is the caller's
//! part; the records come in, and go out, as plain values.

use vstd::prelude::*;
use crate::census::find_first_live;
use crate::component::{
    has_live, is_last_of_type, party_count, PlayerComponent, PlayerIdentity,
};
use crate::error::{PlayerFault, PlayerHandlerError};
use crate::ids::{fresh_uuid, parse_uuid, uuid_parsed, uuid_text, uuid_to_string};
use crate::party::Party;
use crate::player::{Player, PlayerType};
use crate::plugin::BevyEasyPlayerHandlerPlugin;
use crate::slots::{is_seated, leaves, leaves_a_gap};

verus! {

/// The entry point of the reconciliation.
pub struct PlayerHandlerInterface {}

/// One record of the durable store. The first record of the store is the
/// test reference, the second the main player.
#[derive(Clone, Debug)]
pub struct DBPlayer {
    pub uuid: String,
    pub email: String,
    pub username: String,
}

impl DBPlayer {
    /// The id, as text.
    pub fn get_uuid_string(&self) -> (r: &String)
        ensures
            *r == self.uuid,
    {
        &self.uuid
    }

    /// The email.
    pub fn get_email_string(&self) -> (r: &String)
        ensures
            *r == self.email,
    {
        &self.email
    }

    /// The username.
    pub fn get_username_string(&self) -> (r: &String)
        ensures
            *r == self.username,
    {
        &self.username
    }

    /// A field-by-field copy.
    pub fn copy_of(&self) -> (c: Self)
        ensures
            c == *self,
    {
        DBPlayer {
            uuid: self.uuid.clone(),
            email: self.email.clone(),
            username: self.username.clone(),
        }
    }
}

/// The role with which a stored player joins the party, told by its
/// username: the two reserved names give the local roles, any other name a
/// remote player.
pub open spec fn role_for_username(name: Seq<char>) -> PlayerType {
    if name == "PlayerAiLocal"@ {
        PlayerType::PlayerAiLocal
    } else if name == "PlayerLocal"@ {
        PlayerType::PlayerLocal
    } else {
        PlayerType::PlayerRemote
    }
}

/// The live player made from `record` under the id `id`: no email, the
/// record's username, and the main role if `main`, else the role that the
/// username tells.
pub open spec fn recruit(record: DBPlayer, id: u128, main: bool) -> PlayerComponent {
    PlayerComponent {
        player: PlayerIdentity {
            uuid: id,
            email: None,
            username: Some(record.username),
            role: if main {
                PlayerType::PlayerMain
            } else {
                role_for_username(record.username@)
            },
        },
    }
}

/// The live players made from the records whose id reads `text`, in the
/// order of the records.
pub open spec fn recruits(records: Seq<DBPlayer>, text: Seq<char>, id: u128, main: bool) -> Seq<
    PlayerComponent,
>
    decreases records.len(),
{
    if records.len() == 0 {
        Seq::empty()
    } else if records.last().uuid@ == text {
        recruits(records.drop_last(), text, id, main).push(recruit(records.last(), id, main))
    } else {
        recruits(records.drop_last(), text, id, main)
    }
}

/// What the capacity policy says of a party of `count` players under the
/// configured limit: room for one more, or why not.
pub open spec fn capacity_verdict(count: nat, limit: Option<usize>) -> Result<
    (),
    PlayerHandlerError,
> {
    match limit {
        None => Err(PlayerHandlerError::PartySizeLimitMissing),
        Some(most) => if count < most {
            Ok(())
        } else if count == most {
            Err(PlayerHandlerError::PartySizeAtSetLimit)
        } else {
            Err(PlayerHandlerError::PartySizeGreaterThanSetLimit)
        },
    }
}

/// The fault of a configuration that does not name the main player in
/// full: the email is looked at first, then the username.
pub open spec fn missing_identity(plugin: BevyEasyPlayerHandlerPlugin) -> Option<
    PlayerHandlerError,
> {
    if plugin.email() is None {
        Some(PlayerHandlerError::PlayerMainCallFailed(PlayerFault::MissingEmail))
    } else if plugin.username() is None {
        Some(PlayerHandlerError::PlayerMainCallFailed(PlayerFault::MissingUsername))
    } else {
        None
    }
}

/// Some live player with the id `id` has the main role.
pub open spec fn is_live_main(players: Seq<PlayerComponent>, id: u128) -> bool {
    exists|i: int|
        0 <= i < players.len() && #[trigger] players[i].player.uuid == id && players[i].player.role
            == PlayerType::PlayerMain
}

/// The player `id` is the main player: the party caches it as such, the
/// configuration names it, or a live player with that id has the main
/// role.
pub open spec fn is_main_player_of(
    party: Party,
    players: Seq<PlayerComponent>,
    plugin: BevyEasyPlayerHandlerPlugin,
    id: u128,
) -> bool {
    ||| party.main_player_uuid == Some(id)
    ||| plugin.uuid() == Some(id)
    ||| is_live_main(players, id)
}

/// Whether some live player with the id `id` has the main role.
pub fn find_live_main(players: &Vec<PlayerComponent>, id: u128) -> (found: bool)
    ensures
        found == is_live_main(players@, id),
{
    let mut i: usize = 0;
    while i < players.len()
        invariant
            i <= players.len(),
            forall|j: int|
                0 <= j < i ==> !(players@[j].player.uuid == id && players@[j].player.role
                    == PlayerType::PlayerMain),
        decreases players.len() - i,
    {
        if players[i].player.uuid == id && players[i].player.role == PlayerType::PlayerMain {
            return true;
        }
        i += 1;
    }
    false
}

/// The last position at which a live player has the role `kind`, if any
/// has.
pub fn find_last_of_type(players: &Vec<PlayerComponent>, kind: PlayerType) -> (r: Option<usize>)
    ensures
        match r {
            Some(i) => is_last_of_type(players@, kind, i as int),
            None => forall|j: int| 0 <= j < players@.len() ==> players@[j].player.role != kind,
        },
{
    let mut found: Option<usize> = None;
    let mut i: usize = 0;
    while i < players.len()
        invariant
            i <= players.len(),
            match found {
                Some(at) => at < i && players@[at as int].player.role == kind && forall|j: int|
                    at < j < i ==> players@[j].player.role != kind,
                None => forall|j: int| 0 <= j < i ==> players@[j].player.role != kind,
            },
        decreases players.len() - i,
    {
        if players[i].player.role == kind {
            found = Some(i);
        }
        i += 1;
    }
    found
}

/// What holding the live player at position `i` against the stored id of
/// the main player says: whether the ids agree, or that the stored id could
/// not be read.
pub open spec fn main_verdict(players: Seq<PlayerComponent>, i: int, stored: Option<u128>) -> Result<
    bool,
    PlayerHandlerError,
> {
    match stored {
        Some(id) => Ok(players[i].player.uuid == id),
        None => Err(PlayerHandlerError::UuidParsingFailed),
    }
}

/// Whether the main player of the party is the one the durable store
/// names: `UuidParsingFailed` when the stored id could not be read.
pub fn main_players_agree(party_main: u128, durable_main: Option<u128>) -> (r: Result<
    bool,
    PlayerHandlerError,
>)
    ensures
        r == match durable_main {
            Some(id) => Ok::<bool, PlayerHandlerError>(party_main == id),
            None => Err::<bool, PlayerHandlerError>(PlayerHandlerError::UuidParsingFailed),
        },
{
    match durable_main {
        Some(id) => Ok(party_main == id),
        None => Err(PlayerHandlerError::UuidParsingFailed),
    }
}

/// Appends to the live players one player for every record whose id reads
/// `text`; `NotFound`, with the live players unchanged, exactly when
/// no record does.
pub fn recruit_from_records(
    records: &Vec<DBPlayer>,
    text: &String,
    id: u128,
    main: bool,
    players: &mut Vec<PlayerComponent>,
) -> (r: Result<(), PlayerHandlerError>)
    ensures
        match r {
            Ok(()) => recruits(records@, text@, id, main).len() > 0 && final(players)@ == old(
                players,
            )@ + recruits(records@, text@, id, main),
            Err(e) => recruits(records@, text@, id, main).len() == 0 && final(players)@ == old(
                players,
            )@ && e == PlayerHandlerError::NotFound,
        },
{
    let mut player_match = false;
    let mut i: usize = 0;
    while i < records.len()
        invariant
            i <= records.len(),
            players@ == old(players)@ + recruits(records@.take(i as int), text@, id, main),
            player_match == (recruits(records@.take(i as int), text@, id, main).len() > 0),
        decreases records.len() - i,
    {
        proof {
            assert(records@.take(i + 1).drop_last() =~= records@.take(i as int));
        }
        let record = &records[i];
        if record.uuid == *text {
            let role = if main {
                PlayerType::PlayerMain
            } else if record.username == "PlayerAiLocal".to_owned() {
                PlayerType::PlayerAiLocal
            } else if record.username == "PlayerLocal".to_owned() {
                PlayerType::PlayerLocal
            } else {
                PlayerType::PlayerRemote
            };
            let ghost before = players@;
            players.push(
                PlayerComponent {
                    player: PlayerIdentity {
                        uuid: id,
                        email: None,
                        username: Some(record.username.clone()),
                        role,
                    },
                },
            );
            proof {
                assert(players@ =~= old(players)@ + recruits(
                    records@.take(i + 1),
                    text@,
                    id,
                    main,
                ));
            }
            player_match = true;
        }
        i += 1;
    }
    proof {
        assert(records@.take(records.len() as int) =~= records@);
    }
    if !player_match {
        proof {
            assert(players@ =~= old(players)@);
        }
        return Err(PlayerHandlerError::NotFound);
    }
    Ok(())
}

impl PlayerHandlerInterface {
    /// The entry point itself, which holds nothing.
    pub fn get() -> (phi: Self)
        ensures
            phi == (PlayerHandlerInterface {  }),
    {
        PlayerHandlerInterface {  }
    }

    /// The main player with which a session starts: the configured email
    /// and username under the id `player_uuid`. Fails as
    /// [`missing_identity`] says when the configuration lacks either.
    pub fn start_up_protocol(plugin: &BevyEasyPlayerHandlerPlugin, player_uuid: u128) -> (r: Result<
        PlayerComponent,
        PlayerHandlerError,
    >)
        ensures
            match r {
                Ok(main) => {
                    &&& missing_identity(*plugin) is None
                    &&& main.player.uuid == player_uuid
                    &&& main.player.role == PlayerType::PlayerMain
                    &&& main.player.email() == plugin.email()
                    &&& main.player.username() == plugin.username()
                },
                Err(e) => missing_identity(*plugin) == Some(e),
            },
    {
        let email = match plugin.get_main_player_email() {
            Ok(Some(text)) => text.clone(),
            _ => {
                return Err(PlayerHandlerError::PlayerMainCallFailed(PlayerFault::MissingEmail));
            },
        };
        let username = match plugin.get_main_player_username() {
            Ok(Some(text)) => text.clone(),
            _ => {
                return Err(PlayerHandlerError::PlayerMainCallFailed(PlayerFault::MissingUsername));
            },
        };
        Ok(
            PlayerComponent {
                player: PlayerIdentity {
                    uuid: player_uuid,
                    email: Some(email),
                    username: Some(username),
                    role: PlayerType::PlayerMain,
                },
            },
        )
    }

    /// Capacity policy: `Ok` while the party holds fewer players than the
    /// limit, `PartySizeAtSetLimit` when it holds exactly that many,
    /// `PartySizeGreaterThanSetLimit` when it holds more, and
    /// `PartySizeLimitMissing` when no limit is configured.
    pub fn verify_if_party_size_exceeds_limit(
        &self,
        plugin: &BevyEasyPlayerHandlerPlugin,
        party: &Party,
        players: &Vec<PlayerComponent>,
    ) -> (r: Result<(), PlayerHandlerError>)
        ensures
            r == capacity_verdict(party_count(players@), plugin.size_limit()),
    {
        let party_size_limit: usize = match plugin.get_party_size_limit() {
            Ok(Some(limit)) => *limit,
            _ => {
                return Err(PlayerHandlerError::PartySizeLimitMissing);
            },
        };
        let party_size = match party.get_player_count_party(players) {
            Ok(n) => n,
            Err(e) => {
                return Err(e);
            },
        };
        if party_size == party_size_limit {
            return Err(PlayerHandlerError::PartySizeAtSetLimit);
        }
        if party_size > party_size_limit {
            return Err(PlayerHandlerError::PartySizeGreaterThanSetLimit);
        }
        Ok(())
    }

    /// Whether the durable store holds both the test reference and the main
    /// player, told by its record count. Never fails.
    pub fn query_db_test_ref_and_main_player_exists(&self, count: i32) -> (r: Result<
        bool,
        PlayerHandlerError,
    >)
        ensures
            r == Ok::<bool, PlayerHandlerError>(count >= 2),
    {
        let results = if count < 2 {
            false
        } else {
            true
        };
        Ok(results)
    }

    /// The main player's record, which is the second of the store;
    /// `MainPlayerMissing` exactly when the store holds fewer than two
    /// records.
    pub fn query_db_main_player(&self, records: &Vec<DBPlayer>) -> (r: Result<
        DBPlayer,
        PlayerHandlerError,
    >)
        ensures
            match r {
                Ok(record) => records@.len() >= 2 && record == records@[1],
                Err(e) => records@.len() < 2 && e == PlayerHandlerError::MainPlayerMissing,
            },
    {
        if records.len() >= 2 {
            Ok(records[1].copy_of())
        } else {
            Err(PlayerHandlerError::MainPlayerMissing)
        }
    }

    /// Whether the live main player has the id that the durable store
    /// names. An empty party is not in sync. Otherwise the checks, in
    /// order: `MainPlayerMissing` when the store holds fewer than two
    /// records or no live player has the main role; then what
    /// [`main_players_agree`] says of the last live main player's id and
    /// the stored id as `uuid` reads it.
    pub fn query_party_and_db_main_player_synced(
        &self,
        records: &Vec<DBPlayer>,
        party: &Party,
        players: &Vec<PlayerComponent>,
    ) -> (r: Result<bool, PlayerHandlerError>)
        ensures
            if party_count(players@) == 0 {
                r == Ok::<bool, PlayerHandlerError>(false)
            } else if records@.len() < 2 || forall|j: int|
                0 <= j < players@.len() ==> players@[j].player.role != PlayerType::PlayerMain {
                r == Err::<bool, PlayerHandlerError>(PlayerHandlerError::MainPlayerMissing)
            } else {
                exists|i: int|
                    is_last_of_type(players@, PlayerType::PlayerMain, i) && r
                        == #[trigger] main_verdict(players@, i, uuid_parsed(records@[1].uuid@))
            },
    {
        let party_size = match party.get_player_count_party(players) {
            Ok(n) => n,
            Err(e) => {
                return Err(e);
            },
        };
        if party_size == 0 {
            return Ok(false);
        }
        let database_main_player = match self.query_db_main_player(records) {
            Ok(record) => record,
            Err(e) => {
                return Err(e);
            },
        };
        let party_main_player_uuid = match party.clone_main_player_uuid(players) {
            Ok(id) => id,
            Err(e) => {
                return Err(e);
            },
        };
        let database_main_player_uuid = parse_uuid(database_main_player.uuid.as_str());
        proof {
            let i = choose|i: int|
                is_last_of_type(players@, PlayerType::PlayerMain, i)
                    && #[trigger] players@[i].player.uuid == party_main_player_uuid;
            assert(main_verdict(players@, i, database_main_player_uuid) == match database_main_player_uuid {
                Some(id) => Ok::<bool, PlayerHandlerError>(party_main_player_uuid == id),
                None => Err::<bool, PlayerHandlerError>(PlayerHandlerError::UuidParsingFailed),
            });
        }
        main_players_agree(party_main_player_uuid, database_main_player_uuid)
    }

    /// The test reference as the environment names it: its id, read from
    /// `uuid_string`, with the two texts handed through.
    /// `UuidParsingFailed` exactly when `uuid` does not accept the id.
    pub fn test_ref_info(&self, uuid_string: &str, username: String, email: String) -> (r: Result<
        (u128, String, String),
        PlayerHandlerError,
    >)
        ensures
            match uuid_parsed(uuid_string@) {
                Some(id) => r == Ok::<(u128, String, String), PlayerHandlerError>(
                    (id, username, email),
                ),
                None => r == Err::<(u128, String, String), PlayerHandlerError>(
                    PlayerHandlerError::UuidParsingFailed,
                ),
            },
    {
        match parse_uuid(uuid_string) {
            Some(id) => Ok((id, username, email)),
            None => Err(PlayerHandlerError::UuidParsingFailed),
        }
    }

    /// Brings a stored player into the session as a live player.
    ///
    /// The checks, in order, each leaving the live players as they were:
    /// `TestReferencePlayer` when the id is the test reference's;
    /// `AlreadyInParty` when a live player has the id; what the capacity
    /// policy [`capacity_verdict`] has against one more player;
    /// `NotFound` when no record's id reads as `uuid` prints
    /// `existing_uuid`. Otherwise one live player is appended for every such
    /// record, as [`recruits`] says.
    pub fn pipeline_db_and_party_add_player_from_db_to_party(
        &self,
        records: &Vec<DBPlayer>,
        test_ref_uuid: u128,
        existing_uuid: &u128,
        party: &Party,
        players: &mut Vec<PlayerComponent>,
        plugin: &BevyEasyPlayerHandlerPlugin,
    ) -> (r: Result<(), PlayerHandlerError>)
        ensures
            match r {
                Ok(()) => {
                    &&& test_ref_uuid != *existing_uuid
                    &&& !has_live(old(players)@, *existing_uuid)
                    &&& capacity_verdict(party_count(old(players)@), plugin.size_limit()) is Ok
                    &&& recruits(records@, uuid_text(*existing_uuid), *existing_uuid, false).len()
                        > 0
                    &&& final(players)@ == old(players)@ + recruits(
                        records@,
                        uuid_text(*existing_uuid),
                        *existing_uuid,
                        false,
                    )
                },
                Err(e) => {
                    &&& final(players)@ == old(players)@
                    &&& if test_ref_uuid == *existing_uuid {
                        e == PlayerHandlerError::TestReferencePlayer
                    } else if has_live(old(players)@, *existing_uuid) {
                        e == PlayerHandlerError::AlreadyInParty
                    } else if capacity_verdict(
                        party_count(old(players)@),
                        plugin.size_limit(),
                    ) is Err {
                        capacity_verdict(party_count(old(players)@), plugin.size_limit()) == Err::<
                            (),
                            PlayerHandlerError,
                        >(e)
                    } else {
                        e == PlayerHandlerError::NotFound && recruits(
                            records@,
                            uuid_text(*existing_uuid),
                            *existing_uuid,
                            false,
                        ).len() == 0
                    }
                },
            },
    {
        if test_ref_uuid == *existing_uuid {
            return Err(PlayerHandlerError::TestReferencePlayer);
        }
        if find_first_live(players, *existing_uuid).is_some() {
            return Err(PlayerHandlerError::AlreadyInParty);
        }
        match self.verify_if_party_size_exceeds_limit(plugin, party, players) {
            Ok(()) => {},
            Err(e) => {
                return Err(e);
            },
        }
        let target_uuid_string = uuid_to_string(*existing_uuid);
        recruit_from_records(records, &target_uuid_string, *existing_uuid, false, players)
    }

    /// Brings the stored main player into the session as a live player.
    ///
    /// `TestReferencePlayer` when the id is the test reference's; else
    /// `NotFound` when no record's id reads as `uuid` prints
    /// `existing_uuid`; either leaves the live players as they were.
    /// Otherwise one live player with the main role is appended for every
    /// such record, as [`recruits`] says.
    pub fn pipeline_db_and_party_add_main_player_from_db_to_party(
        &self,
        records: &Vec<DBPlayer>,
        test_ref_uuid: u128,
        existing_uuid: &u128,
        players: &mut Vec<PlayerComponent>,
    ) -> (r: Result<(), PlayerHandlerError>)
        ensures
            match r {
                Ok(()) => {
                    &&& test_ref_uuid != *existing_uuid
                    &&& recruits(records@, uuid_text(*existing_uuid), *existing_uuid, true).len()
                        > 0
                    &&& final(players)@ == old(players)@ + recruits(
                        records@,
                        uuid_text(*existing_uuid),
                        *existing_uuid,
                        true,
                    )
                },
                Err(e) => {
                    &&& final(players)@ == old(players)@
                    &&& if test_ref_uuid == *existing_uuid {
                        e == PlayerHandlerError::TestReferencePlayer
                    } else {
                        e == PlayerHandlerError::NotFound && recruits(
                            records@,
                            uuid_text(*existing_uuid),
                            *existing_uuid,
                            true,
                        ).len() == 0
                    }
                },
            },
    {
        if test_ref_uuid == *existing_uuid {
            return Err(PlayerHandlerError::TestReferencePlayer);
        }
        let target_uuid_string = uuid_to_string(*existing_uuid);
        recruit_from_records(records, &target_uuid_string, *existing_uuid, true, players)
    }

    /// Takes a player out of the session on request.
    ///
    /// The checks, in order, each leaving the party as it was:
    /// `TestReferencePlayer` when the target is the test reference;
    /// `ProtectedPlayer` when the target is the main player, as
    /// [`is_main_player_of`] says. Then, if a live player has the id, the
    /// player leaves the party as [`Party::remove_player`] says, and its
    /// failure is handed on; if none has, the party stays as it is. After
    /// `Ok` the caller takes the live object away and deletes the player's
    /// durable record.
    pub fn pipeline_db_and_party_action_remove_player(
        &self,
        test_ref_uuid: u128,
        party: &mut Party,
        players: &Vec<PlayerComponent>,
        player_uuid: &u128,
        plugin: &BevyEasyPlayerHandlerPlugin,
    ) -> (r: Result<(), PlayerHandlerError>)
        ensures
            final(party).main_player_uuid == old(party).main_player_uuid,
            r == Err::<(), PlayerHandlerError>(PlayerHandlerError::TestReferencePlayer)
                <==> test_ref_uuid == *player_uuid,
            r == Err::<(), PlayerHandlerError>(PlayerHandlerError::ProtectedPlayer) <==> test_ref_uuid
                != *player_uuid && is_main_player_of(*old(party), players@, *plugin, *player_uuid),
            match r {
                Ok(()) => if has_live(players@, *player_uuid) {
                    &&& leaves(
                        old(party).slots(),
                        *player_uuid,
                        plugin.size_limit(),
                        final(party).slots(),
                    )
                    &&& final(party).active_player == old(party).lowered_cursor()
                } else {
                    &&& final(party).slots() == old(party).slots()
                    &&& final(party).active_player == old(party).active_player
                },
                Err(PlayerHandlerError::TestReferencePlayer) => {
                    &&& final(party).slots() == old(party).slots()
                    &&& final(party).active_player == old(party).active_player
                },
                Err(PlayerHandlerError::ProtectedPlayer) => {
                    &&& final(party).slots() == old(party).slots()
                    &&& final(party).active_player == old(party).active_player
                },
                Err(PlayerHandlerError::NotFound) => {
                    &&& has_live(players@, *player_uuid)
                    &&& !is_seated(old(party).slots(), *player_uuid)
                    &&& final(party).slots() == old(party).slots()
                    &&& final(party).active_player == old(party).active_player
                },
                Err(e) => {
                    &&& has_live(players@, *player_uuid)
                    &&& e == PlayerHandlerError::PartySizeLimitMissing || e
                        == PlayerHandlerError::PartyFullNoGap
                    &&& leaves_a_gap(
                        old(party).slots(),
                        *player_uuid,
                        plugin.size_limit(),
                        final(party).slots(),
                        e == PlayerHandlerError::PartySizeLimitMissing,
                    )
                    &&& final(party).active_player == old(party).lowered_cursor()
                },
            },
    {
        if test_ref_uuid == *player_uuid {
            return Err(PlayerHandlerError::TestReferencePlayer);
        }
        if party.is_main_player(player_uuid) {
            return Err(PlayerHandlerError::ProtectedPlayer);
        }
        match plugin.get_main_player_uuid() {
            Ok(Some(main_player)) => {
                if *main_player == *player_uuid {
                    return Err(PlayerHandlerError::ProtectedPlayer);
                }
            },
            _ => {},
        }
        if find_live_main(players, *player_uuid) {
            return Err(PlayerHandlerError::ProtectedPlayer);
        }
        if find_first_live(players, *player_uuid).is_some() {
            return party.remove_player(plugin, player_uuid);
        }
        Ok(())
    }

    /// Adds a new player with the given role, username and id to the live
    /// players and points the cursor at the slot numbered by the size the
    /// party had before. Fails, changing nothing, as the capacity policy
    /// [`capacity_verdict`] says.
    pub fn add_new_synced_player(
        &self,
        party: &mut Party,
        players: &mut Vec<PlayerComponent>,
        plugin: &BevyEasyPlayerHandlerPlugin,
        username: &str,
        role: PlayerType,
        synced_uuid: u128,
    ) -> (r: Result<(), PlayerHandlerError>)
        ensures
            final(party).main_player_uuid == old(party).main_player_uuid,
            final(party).player_map == old(party).player_map,
            match r {
                Ok(()) => {
                    &&& capacity_verdict(party_count(old(players)@), plugin.size_limit()) is Ok
                    &&& final(party).active_player == party_count(old(players)@)
                    &&& final(players)@.len() == old(players)@.len() + 1
                    &&& final(players)@.drop_last() == old(players)@
                    &&& final(players)@.last().player.uuid == synced_uuid
                    &&& final(players)@.last().player.role == role
                    &&& final(players)@.last().player.email() is None
                    &&& final(players)@.last().player.username() == Some(username@)
                },
                Err(e) => {
                    &&& final(players)@ == old(players)@
                    &&& final(party).active_player == old(party).active_player
                    &&& capacity_verdict(party_count(old(players)@), plugin.size_limit()) == Err::<
                        (),
                        PlayerHandlerError,
                    >(e)
                },
            },
    {
        match self.verify_if_party_size_exceeds_limit(plugin, party, players) {
            Ok(()) => {},
            Err(e) => {
                return Err(e);
            },
        }
        let party_size = match party.get_player_count_party(players) {
            Ok(n) => n,
            Err(e) => {
                return Err(e);
            },
        };
        let player_username = username.to_owned();
        players.push(
            PlayerComponent {
                player: PlayerIdentity {
                    uuid: synced_uuid,
                    email: None,
                    username: Some(player_username),
                    role,
                },
            },
        );
        let _ = party.set_active_player_index(party_size);
        proof {
            assert(players@.drop_last() =~= old(players)@);
        }
        Ok(())
    }

    /// Adds a new computer-controlled player of this machine, under a newly
    /// generated id whose value is not determined here; all else is as in
    /// [`PlayerHandlerInterface::add_new_synced_player`].
    pub fn pipeline_db_and_party_add_new_synced_player_ai_local(
        &self,
        party: &mut Party,
        players: &mut Vec<PlayerComponent>,
        plugin: &BevyEasyPlayerHandlerPlugin,
        username: &str,
    ) -> (r: Result<(), PlayerHandlerError>)
        ensures
            final(party).main_player_uuid == old(party).main_player_uuid,
            final(party).player_map == old(party).player_map,
            match r {
                Ok(()) => {
                    &&& capacity_verdict(party_count(old(players)@), plugin.size_limit()) is Ok
                    &&& final(party).active_player == party_count(old(players)@)
                    &&& final(players)@.len() == old(players)@.len() + 1
                    &&& final(players)@.drop_last() == old(players)@
                    &&& final(players)@.last().player.role == PlayerType::PlayerAiLocal
                    &&& final(players)@.last().player.email() is None
                    &&& final(players)@.last().player.username() == Some(username@)
                },
                Err(e) => {
                    &&& final(players)@ == old(players)@
                    &&& final(party).active_player == old(party).active_player
                    &&& capacity_verdict(party_count(old(players)@), plugin.size_limit()) == Err::<
                        (),
                        PlayerHandlerError,
                    >(e)
                },
            },
    {
        let synced_uuid = fresh_uuid();
        self.add_new_synced_player(
            party,
            players,
            plugin,
            username,
            PlayerType::PlayerAiLocal,
            synced_uuid,
        )
    }

    /// Adds a new human player of this machine, under a newly generated id
    /// whose value is not determined here; all else is as in
    /// [`PlayerHandlerInterface::add_new_synced_player`].
    pub fn pipeline_db_and_party_add_new_synced_player_local(
        &self,
        party: &mut Party,
        players: &mut Vec<PlayerComponent>,
        plugin: &BevyEasyPlayerHandlerPlugin,
        username: &str,
    ) -> (r: Result<(), PlayerHandlerError>)
        ensures
            final(party).main_player_uuid == old(party).main_player_uuid,
            final(party).player_map == old(party).player_map,
            match r {
                Ok(()) => {
                    &&& capacity_verdict(party_count(old(players)@), plugin.size_limit()) is Ok
                    &&& final(party).active_player == party_count(old(players)@)
                    &&& final(players)@.len() == old(players)@.len() + 1
                    &&& final(players)@.drop_last() == old(players)@
                    &&& final(players)@.last().player.role == PlayerType::PlayerLocal
                    &&& final(players)@.last().player.email() is None
                    &&& final(players)@.last().player.username() == Some(username@)
                },
                Err(e) => {
                    &&& final(players)@ == old(players)@
                    &&& final(party).active_player == old(party).active_player
                    &&& capacity_verdict(party_count(old(players)@), plugin.size_limit()) == Err::<
                        (),
                        PlayerHandlerError,
                    >(e)
                },
            },
    {
        let synced_uuid = fresh_uuid();
        self.add_new_synced_player(
            party,
            players,
            plugin,
            username,
            PlayerType::PlayerLocal,
            synced_uuid,
        )
    }
}

} // verus!
