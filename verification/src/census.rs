//! What the party reads from, and writes to, the live players.

use vstd::prelude::*;
use crate::component::{
    count_of_type, has_live, ids_of, ids_of_type, is_first_live, is_last_live, is_last_of_type,
    lemma_census_total, party_count, PlayerComponent,
};
use crate::error::{PlayerFault, PlayerHandlerError};
use crate::party::Party;
use crate::player::{Player, PlayerType};
use crate::slots::seated_at;

verus! {

/// The last position at which a live player has the id `id`, if any has.
pub fn find_last_live(players: &Vec<PlayerComponent>, id: u128) -> (r: Option<usize>)
    ensures
        match r {
            Some(i) => is_last_live(players@, id, i as int),
            None => !has_live(players@, id),
        },
{
    let mut found: Option<usize> = None;
    let mut i: usize = 0;
    while i < players.len()
        invariant
            i <= players.len(),
            match found {
                Some(at) => at < i && players@[at as int].player.uuid == id && forall|j: int|
                    at < j < i ==> players@[j].player.uuid != id,
                None => forall|j: int| 0 <= j < i ==> players@[j].player.uuid != id,
            },
        decreases players.len() - i,
    {
        if players[i].player.uuid == id {
            found = Some(i);
        }
        i += 1;
    }
    found
}

/// The first position at which a live player has the id `id`, if any has.
pub fn find_first_live(players: &Vec<PlayerComponent>, id: u128) -> (r: Option<usize>)
    ensures
        match r {
            Some(i) => is_first_live(players@, id, i as int),
            None => !has_live(players@, id),
        },
{
    let mut i: usize = 0;
    while i < players.len()
        invariant
            i <= players.len(),
            forall|j: int| 0 <= j < i ==> players@[j].player.uuid != id,
        decreases players.len() - i,
    {
        if players[i].player.uuid == id {
            return Some(i);
        }
        i += 1;
    }
    None
}

/// The ids of the live players with the role `kind`, in order.
pub fn collect_ids_of_type(players: &Vec<PlayerComponent>, kind: PlayerType) -> (ids: Vec<u128>)
    ensures
        ids@ == ids_of_type(players@, kind),
{
    let mut ids: Vec<u128> = Vec::new();
    let mut i: usize = 0;
    while i < players.len()
        invariant
            i <= players.len(),
            ids@ == ids_of_type(players@.take(i as int), kind),
        decreases players.len() - i,
    {
        proof {
            assert(players@.take(i + 1).drop_last() =~= players@.take(i as int));
        }
        if players[i].player.role == kind {
            ids.push(players[i].player.uuid);
        }
        i += 1;
    }
    proof {
        assert(players@.take(players.len() as int) =~= players@);
    }
    ids
}

/// How many live players have the role `kind`.
pub fn count_players_of_type(players: &Vec<PlayerComponent>, kind: PlayerType) -> (count: usize)
    ensures
        count == count_of_type(players@, kind),
{
    let mut count: usize = 0;
    let mut i: usize = 0;
    while i < players.len()
        invariant
            i <= players.len(),
            count <= i,
            count == count_of_type(players@.take(i as int), kind),
        decreases players.len() - i,
    {
        proof {
            assert(players@.take(i + 1).drop_last() =~= players@.take(i as int));
        }
        if players[i].player.role == kind {
            count += 1;
        }
        i += 1;
    }
    proof {
        assert(players@.take(players.len() as int) =~= players@);
    }
    count
}

impl Party {
    /// The last live player whose id is the one in the active slot:
    /// `SlotEmpty` when the cursor points at a slot without a player,
    /// `NotFound` when no live player has that id.
    pub fn find_active_player(&self, players: &Vec<PlayerComponent>) -> (r: Result<
        usize,
        PlayerHandlerError,
    >)
        ensures
            match r {
                Ok(i) => self.find_active_player_spec(players@) == Ok::<int, PlayerHandlerError>(
                    i as int,
                ) && is_last_live(players@, self.slots()[self.active_player], i as int),
                Err(e) => self.find_active_player_spec(players@) == Err::<
                    int,
                    PlayerHandlerError,
                >(e),
            },
    {
        let target_uuid: u128 = match self.get_player_map_active_player_uuid() {
            Ok(id) => *id,
            Err(e) => {
                return Err(e);
            },
        };
        match find_last_live(players, target_uuid) {
            Some(i) => {
                proof {
                    let c = choose|c: int| is_last_live(players@, target_uuid, c);
                    assert(is_last_live(players@, target_uuid, i as int));
                    assert(c == i);
                }
                Ok(i)
            },
            None => Err(PlayerHandlerError::NotFound),
        }
    }

    /// A copy of the first live player with the id `target_uuid`;
    /// `NotFound` exactly when no live player has that id.
    pub fn clone_player(&self, target_uuid: &u128, players: &Vec<PlayerComponent>) -> (r: Result<
        PlayerComponent,
        PlayerHandlerError,
    >)
        ensures
            match r {
                Ok(copy) => exists|i: int|
                    is_first_live(players@, *target_uuid, i) && copy == #[trigger] players@[i],
                Err(e) => !has_live(players@, *target_uuid) && e == PlayerHandlerError::NotFound,
            },
    {
        match find_first_live(players, *target_uuid) {
            Some(i) => {
                let player_component = PlayerComponent { player: players[i].player.copy_of() };
                Ok(player_component)
            },
            None => Err(PlayerHandlerError::NotFound),
        }
    }

    /// The role of the active player; fails as
    /// [`Party::find_active_player`] does.
    pub fn clone_active_player_player_type(&self, players: &Vec<PlayerComponent>) -> (r: Result<
        PlayerType,
        PlayerHandlerError,
    >)
        ensures
            match (r, self.find_active_player_spec(players@)) {
                (Ok(kind), Ok(i)) => kind == players@[i].player.role,
                (Err(e), Err(cause)) => e == cause,
                _ => false,
            },
    {
        let i = match self.find_active_player(players) {
            Ok(i) => i,
            Err(e) => {
                return Err(e);
            },
        };
        Ok(players[i].player.role)
    }

    /// The email of the active player; fails as
    /// [`Party::find_active_player`] does, and with the player's
    /// `MissingEmail` when it has none set.
    pub fn clone_active_player_player_email(&self, players: &Vec<PlayerComponent>) -> (r: Result<
        String,
        PlayerHandlerError,
    >)
        ensures
            match (r, self.find_active_player_spec(players@)) {
                (Ok(text), Ok(i)) => players@[i].player.email() == Some(text@),
                (Err(e), Ok(i)) => players@[i].player.email() is None && e
                    == players@[i].player.failure(PlayerFault::MissingEmail),
                (Err(e), Err(cause)) => e == cause,
                _ => false,
            },
    {
        let i = match self.find_active_player(players) {
            Ok(i) => i,
            Err(e) => {
                return Err(e);
            },
        };
        match players[i].player.get_player_email() {
            Ok(text) => Ok(text.clone()),
            Err(e) => Err(e),
        }
    }

    /// The id of the active player as the live player holds it; fails as
    /// [`Party::find_active_player`] does.
    pub fn clone_active_player_uuid(&self, players: &Vec<PlayerComponent>) -> (r: Result<
        u128,
        PlayerHandlerError,
    >)
        ensures
            match (r, self.find_active_player_spec(players@)) {
                (Ok(id), Ok(i)) => id == players@[i].player.uuid && seated_at(
                    self.slots(),
                    self.active_player,
                    id,
                ),
                (Err(e), Err(cause)) => e == cause,
                _ => false,
            },
    {
        let i = match self.find_active_player(players) {
            Ok(i) => i,
            Err(e) => {
                return Err(e);
            },
        };
        Ok(players[i].player.uuid)
    }

    /// The username of the active player; fails as
    /// [`Party::find_active_player`] does, and with the player's
    /// `MissingUsername` when it has none set.
    pub fn clone_active_player_player_username(&self, players: &Vec<PlayerComponent>) -> (r:
        Result<String, PlayerHandlerError>)
        ensures
            match (r, self.find_active_player_spec(players@)) {
                (Ok(text), Ok(i)) => players@[i].player.username() == Some(text@),
                (Err(e), Ok(i)) => players@[i].player.username() is None && e
                    == players@[i].player.failure(PlayerFault::MissingUsername),
                (Err(e), Err(cause)) => e == cause,
                _ => false,
            },
    {
        let i = match self.find_active_player(players) {
            Ok(i) => i,
            Err(e) => {
                return Err(e);
            },
        };
        match players[i].player.get_player_username() {
            Ok(text) => Ok(text.clone()),
            Err(e) => Err(e),
        }
    }

    /// What [`Party::find_active_player`] returns: the position of the
    /// active player among the live players, or why there is none.
    pub open spec fn find_active_player_spec(&self, players: Seq<PlayerComponent>) -> Result<
        int,
        PlayerHandlerError,
    > {
        if !self.slots().contains_key(self.active_player) {
            Err(PlayerHandlerError::SlotEmpty)
        } else if !has_live(players, self.slots()[self.active_player]) {
            Err(PlayerHandlerError::NotFound)
        } else {
            Ok(
                choose|i: int| is_last_live(players, self.slots()[self.active_player], i),
            )
        }
    }

    /// The id of the last live player with the role of the main player;
    /// `MainPlayerMissing` exactly when no live player has that role.
    pub fn clone_main_player_uuid(&self, players: &Vec<PlayerComponent>) -> (r: Result<
        u128,
        PlayerHandlerError,
    >)
        ensures
            match r {
                Ok(id) => exists|i: int|
                    is_last_of_type(players@, PlayerType::PlayerMain, i)
                        && #[trigger] players@[i].player.uuid == id,
                Err(e) => count_of_type(players@, PlayerType::PlayerMain) == 0 && (forall|i: int|
                    0 <= i < players@.len() ==> players@[i].player.role != PlayerType::PlayerMain)
                    && e == PlayerHandlerError::MainPlayerMissing,
            },
    {
        let mut return_id: Option<u128> = None;
        let ghost mut at: int = 0;
        let mut i: usize = 0;
        while i < players.len()
            invariant
                i <= players.len(),
                match return_id {
                    Some(id) => is_last_of_type(players@.take(i as int), PlayerType::PlayerMain, at)
                        && players@[at].player.uuid == id,
                    None => forall|j: int|
                        0 <= j < i ==> players@[j].player.role != PlayerType::PlayerMain,
                },
                return_id is None ==> count_of_type(players@.take(i as int), PlayerType::PlayerMain)
                    == 0,
            decreases players.len() - i,
        {
            proof {
                assert(players@.take(i + 1).drop_last() =~= players@.take(i as int));
            }
            if players[i].player.role == PlayerType::PlayerMain {
                return_id = Some(players[i].player.uuid);
                proof {
                    at = i as int;
                }
            }
            i += 1;
        }
        proof {
            assert(players@.take(players.len() as int) =~= players@);
        }
        match return_id {
            Some(id) => Ok(id),
            None => Err(PlayerHandlerError::MainPlayerMissing),
        }
    }

    /// The ids of all live players, in order. Never fails.
    pub fn get_all_players_ids(&self, players: &Vec<PlayerComponent>) -> (r: Result<
        Vec<u128>,
        PlayerHandlerError,
    >)
        ensures
            r is Ok,
            r.unwrap()@ == ids_of(players@),
    {
        let mut id_storage: Vec<u128> = Vec::new();
        let mut i: usize = 0;
        while i < players.len()
            invariant
                i <= players.len(),
                id_storage@ == ids_of(players@.take(i as int)),
            decreases players.len() - i,
        {
            id_storage.push(players[i].player.uuid);
            proof {
                assert(ids_of(players@.take(i + 1)) =~= ids_of(players@.take(i as int)).push(
                    players@[i as int].player.uuid,
                ));
            }
            i += 1;
        }
        proof {
            assert(players@.take(players.len() as int) =~= players@);
        }
        Ok(id_storage)
    }

    /// The id and role of every live player, in order. Never fails.
    pub fn get_all_players_ids_and_types(&self, players: &Vec<PlayerComponent>) -> (r: Result<
        Vec<(u128, PlayerType)>,
        PlayerHandlerError,
    >)
        ensures
            r is Ok,
            r.unwrap()@ == players@.map_values(
                |p: PlayerComponent| (p.player.uuid, p.player.role),
            ),
    {
        let mut id_type_storage: Vec<(u128, PlayerType)> = Vec::new();
        let mut i: usize = 0;
        while i < players.len()
            invariant
                i <= players.len(),
                id_type_storage@ == players@.take(i as int).map_values(
                    |p: PlayerComponent| (p.player.uuid, p.player.role),
                ),
            decreases players.len() - i,
        {
            id_type_storage.push((players[i].player.uuid, players[i].player.role));
            proof {
                assert(players@.take(i + 1).map_values(
                    |p: PlayerComponent| (p.player.uuid, p.player.role),
                ) =~= players@.take(i as int).map_values(
                    |p: PlayerComponent| (p.player.uuid, p.player.role),
                ).push((players@[i as int].player.uuid, players@[i as int].player.role)));
            }
            i += 1;
        }
        proof {
            assert(players@.take(players.len() as int) =~= players@);
        }
        Ok(id_type_storage)
    }

    /// The size of the party: the live players of every role but the test
    /// reference. Never fails.
    pub fn get_player_count_party(&self, players: &Vec<PlayerComponent>) -> (r: Result<
        usize,
        PlayerHandlerError,
    >)
        ensures
            r is Ok,
            r.unwrap() == party_count(players@),
    {
        proof {
            lemma_census_total(players@);
            assert(players@.len() == players.len());
        }
        let count_ai_all = match self.get_player_count_ai_total(players) {
            Ok(n) => n,
            Err(e) => {
                return Err(e);
            },
        };
        let count_local = count_players_of_type(players, PlayerType::PlayerLocal);
        let count_main = count_players_of_type(players, PlayerType::PlayerMain);
        let count_remote = count_players_of_type(players, PlayerType::PlayerRemote);
        Ok(count_ai_all + count_local + count_main + count_remote)
    }

    /// How many live players are the main player. Never fails.
    pub fn get_player_count_main(&self, players: &Vec<PlayerComponent>) -> (r: Result<
        usize,
        PlayerHandlerError,
    >)
        ensures
            r is Ok,
            r.unwrap() == count_of_type(players@, PlayerType::PlayerMain),
    {
        Ok(count_players_of_type(players, PlayerType::PlayerMain))
    }

    /// How many live players are computer-controlled, here or elsewhere.
    /// Never fails.
    pub fn get_player_count_ai_total(&self, players: &Vec<PlayerComponent>) -> (r: Result<
        usize,
        PlayerHandlerError,
    >)
        ensures
            r is Ok,
            r.unwrap() == count_of_type(players@, PlayerType::PlayerAiLocal) + count_of_type(
                players@,
                PlayerType::PlayerAiRemote,
            ),
    {
        proof {
            lemma_census_total(players@);
            assert(players@.len() == players.len());
        }
        let count_ai = count_players_of_type(players, PlayerType::PlayerAiLocal);
        let count_remote = count_players_of_type(players, PlayerType::PlayerAiRemote);
        Ok(count_ai + count_remote)
    }

    /// How many live players are computer-controlled on this machine. Never
    /// fails.
    pub fn get_player_count_ai_local(&self, players: &Vec<PlayerComponent>) -> (r: Result<
        usize,
        PlayerHandlerError,
    >)
        ensures
            r is Ok,
            r.unwrap() == count_of_type(players@, PlayerType::PlayerAiLocal),
    {
        Ok(count_players_of_type(players, PlayerType::PlayerAiLocal))
    }

    /// How many live players are computer-controlled elsewhere. Never fails.
    pub fn get_player_count_ai_remote(&self, players: &Vec<PlayerComponent>) -> (r: Result<
        usize,
        PlayerHandlerError,
    >)
        ensures
            r is Ok,
            r.unwrap() == count_of_type(players@, PlayerType::PlayerAiRemote),
    {
        Ok(count_players_of_type(players, PlayerType::PlayerAiRemote))
    }

    /// How many live players are human players on this machine, the main
    /// player not counted. Never fails.
    pub fn get_player_count_local(&self, players: &Vec<PlayerComponent>) -> (r: Result<
        usize,
        PlayerHandlerError,
    >)
        ensures
            r is Ok,
            r.unwrap() == count_of_type(players@, PlayerType::PlayerLocal),
    {
        Ok(count_players_of_type(players, PlayerType::PlayerLocal))
    }

    /// How many live players are human players connected from elsewhere.
    /// Never fails.
    pub fn get_player_count_remote(&self, players: &Vec<PlayerComponent>) -> (r: Result<
        usize,
        PlayerHandlerError,
    >)
        ensures
            r is Ok,
            r.unwrap() == count_of_type(players@, PlayerType::PlayerRemote),
    {
        Ok(count_players_of_type(players, PlayerType::PlayerRemote))
    }

    /// Whether `target_id` sits in the slot map, and whether a live player
    /// has that id. Never fails.
    pub fn verify_player_exists_player_map_and_component(
        &self,
        players: &Vec<PlayerComponent>,
        target_id: &u128,
    ) -> (r: Result<(bool, bool), PlayerHandlerError>)
        ensures
            r is Ok,
            r.unwrap().0 == crate::slots::is_seated(self.slots(), *target_id),
            r.unwrap().1 == has_live(players@, *target_id),
    {
        let exists_player_map = match self.verify_player_exists_player_map_uuid(target_id) {
            Ok(found) => found,
            Err(e) => {
                return Err(e);
            },
        };
        let exists_player_component = match self.verify_player_exists_player_component(
            players,
            target_id,
        ) {
            Ok(found) => found,
            Err(e) => {
                return Err(e);
            },
        };
        Ok((exists_player_map, exists_player_component))
    }

    /// Whether a live player has the id `target_id`. Never fails.
    pub fn verify_player_exists_player_component(
        &self,
        players: &Vec<PlayerComponent>,
        target_id: &u128,
    ) -> (r: Result<bool, PlayerHandlerError>)
        ensures
            r == Ok::<bool, PlayerHandlerError>(has_live(players@, *target_id)),
    {
        Ok(find_first_live(players, *target_id).is_some())
    }

    /// The ids of the computer-controlled players on this machine, in
    /// order. Never fails.
    pub fn get_party_local_ai_uuids_vec(&self, players: &Vec<PlayerComponent>) -> (r: Result<
        Vec<u128>,
        PlayerHandlerError,
    >)
        ensures
            r is Ok,
            r.unwrap()@ == ids_of_type(players@, PlayerType::PlayerAiLocal),
    {
        Ok(collect_ids_of_type(players, PlayerType::PlayerAiLocal))
    }

    /// Chooses the live player to take out when a computer-controlled
    /// player on this machine is to leave: the first live player whose id
    /// is that of the first such player. `NotFound` exactly when
    /// there is no such player. The party itself is not changed.
    pub fn remove_player_ai(&self, players: &Vec<PlayerComponent>) -> (r: Result<
        usize,
        PlayerHandlerError,
    >)
        ensures
            match r {
                Ok(i) => count_of_type(players@, PlayerType::PlayerAiLocal) > 0 && is_first_live(
                    players@,
                    ids_of_type(players@, PlayerType::PlayerAiLocal)[0],
                    i as int,
                ),
                Err(e) => count_of_type(players@, PlayerType::PlayerAiLocal) == 0 && e
                    == PlayerHandlerError::NotFound,
            },
    {
        let ai_vec = collect_ids_of_type(players, PlayerType::PlayerAiLocal);
        if ai_vec.len() == 0 {
            return Err(PlayerHandlerError::NotFound);
        }
        let target = ai_vec[0];
        proof {
            lemma_ids_of_type_are_live(players@, PlayerType::PlayerAiLocal, 0);
        }
        match find_first_live(players, target) {
            Some(i) => Ok(i),
            None => Err(PlayerHandlerError::NotFound),
        }
    }
}

/// Every id listed for a role belongs to a live player.
pub proof fn lemma_ids_of_type_are_live(players: Seq<PlayerComponent>, kind: PlayerType, n: int)
    requires
        0 <= n < ids_of_type(players, kind).len(),
    ensures
        has_live(players, ids_of_type(players, kind)[n]),
    decreases players.len(),
{
    if players.len() > 0 {
        let rest = players.drop_last();
        if n < ids_of_type(rest, kind).len() {
            lemma_ids_of_type_are_live(rest, kind, n);
            let i = choose|i: int|
                0 <= i < rest.len() && rest[i].player.uuid == ids_of_type(rest, kind)[n];
            assert(players[i].player.uuid == ids_of_type(players, kind)[n]);
        } else {
            assert(players[players.len() - 1].player.uuid == ids_of_type(players, kind)[n]);
        }
    }
}

} // verus!
