//! The live players of a session, as the roster reads them: one identity
//! record per player, kept in the order in which the host enumerates them.

use vstd::prelude::*;
use crate::error::{PlayerFault, PlayerHandlerError};
use crate::ids::fresh_uuid;
use crate::player::{Player, PlayerType};
use crate::plugin::text_of;

verus! {

/// Who a player is: id, optional email and username, and role.
#[derive(Clone, Debug)]
pub struct PlayerIdentity {
    pub uuid: u128,
    pub email: Option<String>,
    pub username: Option<String>,
    pub role: PlayerType,
}

/// One live player of the session.
#[derive(Clone, Debug)]
pub struct PlayerComponent {
    pub player: PlayerIdentity,
}

impl Player for PlayerIdentity {
    open spec fn email(&self) -> Option<Seq<char>> {
        text_of(self.email)
    }

    open spec fn username(&self) -> Option<Seq<char>> {
        text_of(self.username)
    }

    open spec fn id(&self) -> u128 {
        self.uuid
    }

    open spec fn kind(&self) -> PlayerType {
        self.role
    }

    open spec fn failure(&self, fault: PlayerFault) -> PlayerHandlerError {
        match self.role {
            PlayerType::PlayerAiLocal => PlayerHandlerError::PlayerAiCallFailed(fault),
            PlayerType::PlayerAiRemote => PlayerHandlerError::PlayerAiCallFailed(fault),
            PlayerType::PlayerLocal => PlayerHandlerError::PlayerLocalCallFailed(fault),
            PlayerType::PlayerMain => PlayerHandlerError::PlayerMainCallFailed(fault),
            PlayerType::PlayerRemote => PlayerHandlerError::PlayerRemoteCallFailed(fault),
            PlayerType::PlayerTestRef => PlayerHandlerError::PlayerRemoteCallFailed(fault),
        }
    }

    fn new(
        player_email: Option<String>,
        player_username: Option<String>,
        player_uuid: Option<u128>,
        player_type: PlayerType,
    ) -> (p: Self) {
        let uuid: u128 = match player_uuid {
            Some(id) => id,
            None => fresh_uuid(),
        };
        PlayerIdentity { uuid, email: player_email, username: player_username, role: player_type }
    }

    fn get_player_email(&self) -> (r: Result<&String, PlayerHandlerError>) {
        match &self.email {
            Some(email) => Ok(email),
            None => Err(self.report(PlayerFault::MissingEmail)),
        }
    }

    fn get_player_id(&self) -> (r: Result<&u128, PlayerHandlerError>) {
        Ok(&self.uuid)
    }

    fn get_player_type(&self) -> (r: Result<&PlayerType, PlayerHandlerError>) {
        Ok(&self.role)
    }

    fn get_player_username(&self) -> (r: Result<&String, PlayerHandlerError>) {
        match &self.username {
            Some(username) => Ok(username),
            None => Err(self.report(PlayerFault::MissingUsername)),
        }
    }

    fn set_player_email(&mut self, new_email: &str) -> (r: Result<(), PlayerHandlerError>) {
        let email = new_email.to_owned();
        let unchanged = match &self.email {
            Some(current) => *current == email,
            None => {
                return Err(self.report(PlayerFault::MissingEmail));
            },
        };
        if unchanged {
            return Err(self.report(PlayerFault::EmailUnchanged));
        }
        self.email = Some(email);
        Ok(())
    }

    fn set_player_id(&mut self, new_id: u128) -> (r: Result<(), PlayerHandlerError>) {
        if self.uuid == new_id {
            return Err(self.report(PlayerFault::IdUnchanged));
        }
        self.uuid = new_id;
        Ok(())
    }

    fn set_player_username(&mut self, new_username: &str) -> (r: Result<(), PlayerHandlerError>) {
        let username = new_username.to_owned();
        let unchanged = match &self.username {
            Some(current) => *current == username,
            None => {
                return Err(self.report(PlayerFault::MissingUsername));
            },
        };
        if unchanged {
            return Err(self.report(PlayerFault::UsernameUnchanged));
        }
        self.username = Some(username);
        Ok(())
    }
}

impl PlayerIdentity {
    /// The error with which a player of this role reports `fault`.
    pub fn report(&self, fault: PlayerFault) -> (e: PlayerHandlerError)
        ensures
            e == self.failure(fault),
    {
        match self.role {
            PlayerType::PlayerAiLocal => PlayerHandlerError::PlayerAiCallFailed(fault),
            PlayerType::PlayerAiRemote => PlayerHandlerError::PlayerAiCallFailed(fault),
            PlayerType::PlayerLocal => PlayerHandlerError::PlayerLocalCallFailed(fault),
            PlayerType::PlayerMain => PlayerHandlerError::PlayerMainCallFailed(fault),
            PlayerType::PlayerRemote => PlayerHandlerError::PlayerRemoteCallFailed(fault),
            PlayerType::PlayerTestRef => PlayerHandlerError::PlayerRemoteCallFailed(fault),
        }
    }

    /// A field-by-field copy.
    pub fn copy_of(&self) -> (c: Self)
        ensures
            c == *self,
    {
        let email = match &self.email {
            Some(text) => Some(text.clone()),
            None => None,
        };
        let username = match &self.username {
            Some(text) => Some(text.clone()),
            None => None,
        };
        PlayerIdentity { uuid: self.uuid, email, username, role: self.role }
    }
}

impl PlayerComponent {
    /// The live record of a player of any kind. A field that the player
    /// does not have set stays unset.
    pub fn from_player<P: Player>(player: &P) -> (c: Self)
        ensures
            c.player.id() == player.id(),
            c.player.kind() == player.kind(),
            c.player.email() == player.email(),
            c.player.username() == player.username(),
    {
        let email = match player.get_player_email() {
            Ok(text) => Some(text.clone()),
            Err(_) => None,
        };
        let username = match player.get_player_username() {
            Ok(text) => Some(text.clone()),
            Err(_) => None,
        };
        let uuid = match player.get_player_id() {
            Ok(id) => *id,
            Err(_) => 0,
        };
        let role = match player.get_player_type() {
            Ok(kind) => *kind,
            Err(_) => PlayerType::PlayerRemote,
        };
        PlayerComponent { player: PlayerIdentity { uuid, email, username, role } }
    }
}

/// The ids of the live players, in order.
pub open spec fn ids_of(players: Seq<PlayerComponent>) -> Seq<u128> {
    players.map_values(|p: PlayerComponent| p.player.uuid)
}

/// Some live player has the id `id`.
pub open spec fn has_live(players: Seq<PlayerComponent>, id: u128) -> bool {
    exists|i: int| 0 <= i < players.len() && players[i].player.uuid == id
}

/// `i` is the last position at which a live player has the id `id`.
pub open spec fn is_last_live(players: Seq<PlayerComponent>, id: u128, i: int) -> bool {
    &&& 0 <= i < players.len()
    &&& players[i].player.uuid == id
    &&& forall|j: int| i < j < players.len() ==> players[j].player.uuid != id
}

/// Among the live players with the id `id`, if there are any, one comes
/// last.
pub proof fn lemma_last_live_exists(players: Seq<PlayerComponent>, id: u128)
    requires
        has_live(players, id),
    ensures
        exists|i: int| is_last_live(players, id, i),
    decreases players.len(),
{
    if players.last().player.uuid == id {
        assert(is_last_live(players, id, players.len() - 1));
    } else {
        let rest = players.drop_last();
        let w = choose|i: int| 0 <= i < players.len() && players[i].player.uuid == id;
        assert(rest[w].player.uuid == id);
        lemma_last_live_exists(rest, id);
        let l = choose|i: int| is_last_live(rest, id, i);
        assert forall|j: int| l < j < players.len() implies players[j].player.uuid != id by {
            if j < rest.len() {
                assert(rest[j].player.uuid != id);
            }
        }
        assert(players[l] == rest[l]);
        assert(is_last_live(players, id, l));
    }
}

/// `i` is the first position at which a live player has the id `id`.
pub open spec fn is_first_live(players: Seq<PlayerComponent>, id: u128, i: int) -> bool {
    &&& 0 <= i < players.len()
    &&& players[i].player.uuid == id
    &&& forall|j: int| 0 <= j < i ==> players[j].player.uuid != id
}

/// `i` is the last position at which a live player has the role `kind`.
pub open spec fn is_last_of_type(players: Seq<PlayerComponent>, kind: PlayerType, i: int) -> bool {
    &&& 0 <= i < players.len()
    &&& players[i].player.role == kind
    &&& forall|j: int| i < j < players.len() ==> players[j].player.role != kind
}

/// The ids of the live players with the role `kind`, in order.
pub open spec fn ids_of_type(players: Seq<PlayerComponent>, kind: PlayerType) -> Seq<u128>
    decreases players.len(),
{
    if players.len() == 0 {
        Seq::empty()
    } else if players.last().player.role == kind {
        ids_of_type(players.drop_last(), kind).push(players.last().player.uuid)
    } else {
        ids_of_type(players.drop_last(), kind)
    }
}

/// How many live players have the role `kind`.
pub open spec fn count_of_type(players: Seq<PlayerComponent>, kind: PlayerType) -> nat {
    ids_of_type(players, kind).len()
}

/// The size of the party: the live players of every role but the test
/// reference.
pub open spec fn party_count(players: Seq<PlayerComponent>) -> nat {
    count_of_type(players, PlayerType::PlayerAiLocal) + count_of_type(
        players,
        PlayerType::PlayerAiRemote,
    ) + count_of_type(players, PlayerType::PlayerLocal) + count_of_type(
        players,
        PlayerType::PlayerMain,
    ) + count_of_type(players, PlayerType::PlayerRemote)
}

/// A role is counted zero times exactly when no live player has it.
pub proof fn lemma_count_zero(players: Seq<PlayerComponent>, kind: PlayerType)
    ensures
        count_of_type(players, kind) == 0 <==> forall|j: int|
            0 <= j < players.len() ==> players[j].player.role != kind,
    decreases players.len(),
{
    if players.len() > 0 {
        let rest = players.drop_last();
        lemma_count_zero(rest, kind);
        if count_of_type(players, kind) == 0 {
            assert forall|j: int| 0 <= j < players.len() implies players[j].player.role
                != kind by {
                if j < rest.len() {
                    assert(rest[j].player.role != kind);
                }
            }
        } else if players.last().player.role != kind {
            let j = choose|j: int| 0 <= j < rest.len() && rest[j].player.role == kind;
            assert(players[j].player.role == kind);
        }
    }
}

/// Every live player is counted under exactly one role.
pub proof fn lemma_census_total(players: Seq<PlayerComponent>)
    ensures
        party_count(players) + count_of_type(players, PlayerType::PlayerTestRef) == players.len(),
    decreases players.len(),
{
    if players.len() > 0 {
        lemma_census_total(players.drop_last());
    }
}

} // verus!
