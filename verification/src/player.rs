//! Players: the role tag, the capability every player kind offers, and the
//! five player kinds.

use vstd::prelude::*;
use crate::error::{PlayerFault, PlayerHandlerError};
use crate::ids::fresh_uuid;
use crate::plugin::text_of;

verus! {

/// The role of a player. `PlayerTestRef` marks the reference record of the
/// durable store, which never becomes a live member of the party.
#[derive(Clone, Copy, Debug, PartialEq, Eq, Structural)]
pub enum PlayerType {
    PlayerAiLocal,
    PlayerAiRemote,
    PlayerLocal,
    PlayerMain,
    PlayerRemote,
    PlayerTestRef,
}

/// What every kind of player offers: its identity, read and written field
/// by field. A getter fails when its field is unset; a setter fails when
/// the field is unset or already holds the new value, and then changes
/// nothing.
pub trait Player: Sized {
    /// The player's email, if set.
    spec fn email(&self) -> Option<Seq<char>>;

    /// The player's username, if set.
    spec fn username(&self) -> Option<Seq<char>>;

    /// The player's id.
    spec fn id(&self) -> u128;

    /// The player's role.
    spec fn kind(&self) -> PlayerType;

    /// The error with which this player reports `fault`.
    spec fn failure(&self, fault: PlayerFault) -> PlayerHandlerError;

    /// A player with the given fields. Without an id a new one is generated,
    /// whose value is not determined here.
    fn new(
        player_email: Option<String>,
        player_username: Option<String>,
        player_uuid: Option<u128>,
        player_type: PlayerType,
    ) -> (p: Self)
        ensures
            p.email() == text_of(player_email),
            p.username() == text_of(player_username),
            p.kind() == player_type,
            player_uuid is Some ==> p.id() == player_uuid.unwrap(),
    ;

    /// The email; `MissingEmail` exactly when none is set.
    fn get_player_email(&self) -> (r: Result<&String, PlayerHandlerError>)
        ensures
            match r {
                Ok(s) => self.email() == Some(s@),
                Err(e) => self.email() is None && e == self.failure(PlayerFault::MissingEmail),
            },
    ;

    /// The id. Never fails.
    fn get_player_id(&self) -> (r: Result<&u128, PlayerHandlerError>)
        ensures
            r is Ok,
            *r.unwrap() == self.id(),
    ;

    /// The role. Never fails.
    fn get_player_type(&self) -> (r: Result<&PlayerType, PlayerHandlerError>)
        ensures
            r is Ok,
            *r.unwrap() == self.kind(),
    ;

    /// The username; `MissingUsername` exactly when none is set.
    fn get_player_username(&self) -> (r: Result<&String, PlayerHandlerError>)
        ensures
            match r {
                Ok(s) => self.username() == Some(s@),
                Err(e) => self.username() is None && e == self.failure(
                    PlayerFault::MissingUsername,
                ),
            },
    ;

    /// Replaces the email. `MissingEmail` when none was set,
    /// `EmailUnchanged` when the new one equals the old.
    fn set_player_email(&mut self, new_email: &str) -> (r: Result<(), PlayerHandlerError>)
        ensures
            final(self).id() == old(self).id(),
            final(self).kind() == old(self).kind(),
            final(self).username() == old(self).username(),
            match r {
                Ok(()) => {
                    &&& old(self).email() is Some
                    &&& old(self).email() != Some(new_email@)
                    &&& final(self).email() == Some(new_email@)
                },
                Err(e) => {
                    &&& final(self).email() == old(self).email()
                    &&& match old(self).email() {
                        None => e == old(self).failure(PlayerFault::MissingEmail),
                        Some(current) => current == new_email@ && e == old(self).failure(
                            PlayerFault::EmailUnchanged,
                        ),
                    }
                },
            },
    ;

    /// Replaces the id. `IdUnchanged` exactly when the new one equals the
    /// old.
    fn set_player_id(&mut self, new_id: u128) -> (r: Result<(), PlayerHandlerError>)
        ensures
            final(self).kind() == old(self).kind(),
            final(self).email() == old(self).email(),
            final(self).username() == old(self).username(),
            match r {
                Ok(()) => old(self).id() != new_id && final(self).id() == new_id,
                Err(e) => {
                    &&& final(self).id() == old(self).id()
                    &&& old(self).id() == new_id
                    &&& e == old(self).failure(PlayerFault::IdUnchanged)
                },
            },
    ;

    /// Replaces the username. `MissingUsername` when none was set,
    /// `UsernameUnchanged` when the new one equals the old.
    fn set_player_username(&mut self, new_username: &str) -> (r: Result<(), PlayerHandlerError>)
        ensures
            final(self).id() == old(self).id(),
            final(self).kind() == old(self).kind(),
            final(self).email() == old(self).email(),
            match r {
                Ok(()) => {
                    &&& old(self).username() is Some
                    &&& old(self).username() != Some(new_username@)
                    &&& final(self).username() == Some(new_username@)
                },
                Err(e) => {
                    &&& final(self).username() == old(self).username()
                    &&& match old(self).username() {
                        None => e == old(self).failure(PlayerFault::MissingUsername),
                        Some(current) => current == new_username@ && e == old(self).failure(
                            PlayerFault::UsernameUnchanged,
                        ),
                    }
                },
            },
    ;
}

/// A computer-controlled player that runs on this machine.
#[derive(Clone, Debug)]
pub struct PlayerAiLocal {
    player_email: Option<String>,
    player_uuid: u128,
    player_type: PlayerType,
    player_username: Option<String>,
}

impl Player for PlayerAiLocal {
    closed spec fn email(&self) -> Option<Seq<char>> {
        text_of(self.player_email)
    }

    closed spec fn username(&self) -> Option<Seq<char>> {
        text_of(self.player_username)
    }

    closed spec fn id(&self) -> u128 {
        self.player_uuid
    }

    closed spec fn kind(&self) -> PlayerType {
        self.player_type
    }

    open spec fn failure(&self, fault: PlayerFault) -> PlayerHandlerError {
        PlayerHandlerError::PlayerAiCallFailed(fault)
    }

    fn new(
        player_email: Option<String>,
        player_username: Option<String>,
        player_uuid: Option<u128>,
        player_type: PlayerType,
    ) -> (p: Self) {
        let player_uuid: u128 = match player_uuid {
            Some(id) => id,
            None => fresh_uuid(),
        };
        PlayerAiLocal { player_email, player_uuid, player_type, player_username }
    }

    fn get_player_email(&self) -> (r: Result<&String, PlayerHandlerError>) {
        match &self.player_email {
            Some(player_email) => Ok(player_email),
            None => Err(PlayerHandlerError::PlayerAiCallFailed(PlayerFault::MissingEmail)),
        }
    }

    fn get_player_id(&self) -> (r: Result<&u128, PlayerHandlerError>) {
        Ok(&self.player_uuid)
    }

    fn get_player_type(&self) -> (r: Result<&PlayerType, PlayerHandlerError>) {
        Ok(&self.player_type)
    }

    fn get_player_username(&self) -> (r: Result<&String, PlayerHandlerError>) {
        match &self.player_username {
            Some(player_username) => Ok(player_username),
            None => Err(PlayerHandlerError::PlayerAiCallFailed(PlayerFault::MissingUsername)),
        }
    }

    fn set_player_email(&mut self, new_email: &str) -> (r: Result<(), PlayerHandlerError>) {
        let email = new_email.to_owned();
        let unchanged = match &self.player_email {
            Some(player_email) => *player_email == email,
            None => {
                return Err(PlayerHandlerError::PlayerAiCallFailed(PlayerFault::MissingEmail));
            },
        };
        if unchanged {
            return Err(PlayerHandlerError::PlayerAiCallFailed(PlayerFault::EmailUnchanged));
        }
        self.player_email = Some(email);
        Ok(())
    }

    fn set_player_id(&mut self, new_id: u128) -> (r: Result<(), PlayerHandlerError>) {
        if self.player_uuid == new_id {
            return Err(PlayerHandlerError::PlayerAiCallFailed(PlayerFault::IdUnchanged));
        }
        self.player_uuid = new_id;
        Ok(())
    }

    fn set_player_username(&mut self, new_username: &str) -> (r: Result<(), PlayerHandlerError>) {
        let username = new_username.to_owned();
        let unchanged = match &self.player_username {
            Some(player_username) => *player_username == username,
            None => {
                return Err(PlayerHandlerError::PlayerAiCallFailed(PlayerFault::MissingUsername));
            },
        };
        if unchanged {
            return Err(PlayerHandlerError::PlayerAiCallFailed(PlayerFault::UsernameUnchanged));
        }
        self.player_username = Some(username);
        Ok(())
    }
}

/// A computer-controlled player that runs elsewhere.
#[derive(Clone, Debug)]
pub struct PlayerAiRemote {
    player_email: Option<String>,
    player_uuid: u128,
    player_type: PlayerType,
    player_username: Option<String>,
}

impl Player for PlayerAiRemote {
    closed spec fn email(&self) -> Option<Seq<char>> {
        text_of(self.player_email)
    }

    closed spec fn username(&self) -> Option<Seq<char>> {
        text_of(self.player_username)
    }

    closed spec fn id(&self) -> u128 {
        self.player_uuid
    }

    closed spec fn kind(&self) -> PlayerType {
        self.player_type
    }

    open spec fn failure(&self, fault: PlayerFault) -> PlayerHandlerError {
        PlayerHandlerError::PlayerAiCallFailed(fault)
    }

    fn new(
        player_email: Option<String>,
        player_username: Option<String>,
        player_uuid: Option<u128>,
        player_type: PlayerType,
    ) -> (p: Self) {
        let player_uuid: u128 = match player_uuid {
            Some(id) => id,
            None => fresh_uuid(),
        };
        PlayerAiRemote { player_email, player_uuid, player_type, player_username }
    }

    fn get_player_email(&self) -> (r: Result<&String, PlayerHandlerError>) {
        match &self.player_email {
            Some(player_email) => Ok(player_email),
            None => Err(PlayerHandlerError::PlayerAiCallFailed(PlayerFault::MissingEmail)),
        }
    }

    fn get_player_id(&self) -> (r: Result<&u128, PlayerHandlerError>) {
        Ok(&self.player_uuid)
    }

    fn get_player_type(&self) -> (r: Result<&PlayerType, PlayerHandlerError>) {
        Ok(&self.player_type)
    }

    fn get_player_username(&self) -> (r: Result<&String, PlayerHandlerError>) {
        match &self.player_username {
            Some(player_username) => Ok(player_username),
            None => Err(PlayerHandlerError::PlayerAiCallFailed(PlayerFault::MissingUsername)),
        }
    }

    fn set_player_email(&mut self, new_email: &str) -> (r: Result<(), PlayerHandlerError>) {
        let email = new_email.to_owned();
        let unchanged = match &self.player_email {
            Some(player_email) => *player_email == email,
            None => {
                return Err(PlayerHandlerError::PlayerAiCallFailed(PlayerFault::MissingEmail));
            },
        };
        if unchanged {
            return Err(PlayerHandlerError::PlayerAiCallFailed(PlayerFault::EmailUnchanged));
        }
        self.player_email = Some(email);
        Ok(())
    }

    fn set_player_id(&mut self, new_id: u128) -> (r: Result<(), PlayerHandlerError>) {
        if self.player_uuid == new_id {
            return Err(PlayerHandlerError::PlayerAiCallFailed(PlayerFault::IdUnchanged));
        }
        self.player_uuid = new_id;
        Ok(())
    }

    fn set_player_username(&mut self, new_username: &str) -> (r: Result<(), PlayerHandlerError>) {
        let username = new_username.to_owned();
        let unchanged = match &self.player_username {
            Some(player_username) => *player_username == username,
            None => {
                return Err(PlayerHandlerError::PlayerAiCallFailed(PlayerFault::MissingUsername));
            },
        };
        if unchanged {
            return Err(PlayerHandlerError::PlayerAiCallFailed(PlayerFault::UsernameUnchanged));
        }
        self.player_username = Some(username);
        Ok(())
    }
}

/// A human player on this machine.
#[derive(Clone, Debug)]
pub struct PlayerLocal {
    player_email: Option<String>,
    player_uuid: u128,
    player_type: PlayerType,
    player_username: Option<String>,
}

impl Player for PlayerLocal {
    closed spec fn email(&self) -> Option<Seq<char>> {
        text_of(self.player_email)
    }

    closed spec fn username(&self) -> Option<Seq<char>> {
        text_of(self.player_username)
    }

    closed spec fn id(&self) -> u128 {
        self.player_uuid
    }

    closed spec fn kind(&self) -> PlayerType {
        self.player_type
    }

    open spec fn failure(&self, fault: PlayerFault) -> PlayerHandlerError {
        PlayerHandlerError::PlayerLocalCallFailed(fault)
    }

    fn new(
        player_email: Option<String>,
        player_username: Option<String>,
        player_uuid: Option<u128>,
        player_type: PlayerType,
    ) -> (p: Self) {
        let player_uuid: u128 = match player_uuid {
            Some(id) => id,
            None => fresh_uuid(),
        };
        PlayerLocal { player_email, player_uuid, player_type, player_username }
    }

    fn get_player_email(&self) -> (r: Result<&String, PlayerHandlerError>) {
        match &self.player_email {
            Some(player_email) => Ok(player_email),
            None => Err(PlayerHandlerError::PlayerLocalCallFailed(PlayerFault::MissingEmail)),
        }
    }

    fn get_player_id(&self) -> (r: Result<&u128, PlayerHandlerError>) {
        Ok(&self.player_uuid)
    }

    fn get_player_type(&self) -> (r: Result<&PlayerType, PlayerHandlerError>) {
        Ok(&self.player_type)
    }

    fn get_player_username(&self) -> (r: Result<&String, PlayerHandlerError>) {
        match &self.player_username {
            Some(player_username) => Ok(player_username),
            None => Err(PlayerHandlerError::PlayerLocalCallFailed(PlayerFault::MissingUsername)),
        }
    }

    fn set_player_email(&mut self, new_email: &str) -> (r: Result<(), PlayerHandlerError>) {
        let email = new_email.to_owned();
        let unchanged = match &self.player_email {
            Some(player_email) => *player_email == email,
            None => {
                return Err(PlayerHandlerError::PlayerLocalCallFailed(PlayerFault::MissingEmail));
            },
        };
        if unchanged {
            return Err(PlayerHandlerError::PlayerLocalCallFailed(PlayerFault::EmailUnchanged));
        }
        self.player_email = Some(email);
        Ok(())
    }

    fn set_player_id(&mut self, new_id: u128) -> (r: Result<(), PlayerHandlerError>) {
        if self.player_uuid == new_id {
            return Err(PlayerHandlerError::PlayerLocalCallFailed(PlayerFault::IdUnchanged));
        }
        self.player_uuid = new_id;
        Ok(())
    }

    fn set_player_username(&mut self, new_username: &str) -> (r: Result<(), PlayerHandlerError>) {
        let username = new_username.to_owned();
        let unchanged = match &self.player_username {
            Some(player_username) => *player_username == username,
            None => {
                return Err(PlayerHandlerError::PlayerLocalCallFailed(PlayerFault::MissingUsername));
            },
        };
        if unchanged {
            return Err(PlayerHandlerError::PlayerLocalCallFailed(PlayerFault::UsernameUnchanged));
        }
        self.player_username = Some(username);
        Ok(())
    }
}

/// The hosting player of the session.
#[derive(Clone, Debug)]
pub struct PlayerMain {
    player_email: Option<String>,
    player_uuid: u128,
    player_type: PlayerType,
    player_username: Option<String>,
}

impl Player for PlayerMain {
    closed spec fn email(&self) -> Option<Seq<char>> {
        text_of(self.player_email)
    }

    closed spec fn username(&self) -> Option<Seq<char>> {
        text_of(self.player_username)
    }

    closed spec fn id(&self) -> u128 {
        self.player_uuid
    }

    closed spec fn kind(&self) -> PlayerType {
        self.player_type
    }

    open spec fn failure(&self, fault: PlayerFault) -> PlayerHandlerError {
        PlayerHandlerError::PlayerMainCallFailed(fault)
    }

    fn new(
        player_email: Option<String>,
        player_username: Option<String>,
        player_uuid: Option<u128>,
        player_type: PlayerType,
    ) -> (p: Self) {
        let player_uuid: u128 = match player_uuid {
            Some(id) => id,
            None => fresh_uuid(),
        };
        PlayerMain { player_email, player_uuid, player_type, player_username }
    }

    fn get_player_email(&self) -> (r: Result<&String, PlayerHandlerError>) {
        match &self.player_email {
            Some(player_email) => Ok(player_email),
            None => Err(PlayerHandlerError::PlayerMainCallFailed(PlayerFault::MissingEmail)),
        }
    }

    fn get_player_id(&self) -> (r: Result<&u128, PlayerHandlerError>) {
        Ok(&self.player_uuid)
    }

    fn get_player_type(&self) -> (r: Result<&PlayerType, PlayerHandlerError>) {
        Ok(&self.player_type)
    }

    fn get_player_username(&self) -> (r: Result<&String, PlayerHandlerError>) {
        match &self.player_username {
            Some(player_username) => Ok(player_username),
            None => Err(PlayerHandlerError::PlayerMainCallFailed(PlayerFault::MissingUsername)),
        }
    }

    fn set_player_email(&mut self, new_email: &str) -> (r: Result<(), PlayerHandlerError>) {
        let email = new_email.to_owned();
        let unchanged = match &self.player_email {
            Some(player_email) => *player_email == email,
            None => {
                return Err(PlayerHandlerError::PlayerMainCallFailed(PlayerFault::MissingEmail));
            },
        };
        if unchanged {
            return Err(PlayerHandlerError::PlayerMainCallFailed(PlayerFault::EmailUnchanged));
        }
        self.player_email = Some(email);
        Ok(())
    }

    fn set_player_id(&mut self, new_id: u128) -> (r: Result<(), PlayerHandlerError>) {
        if self.player_uuid == new_id {
            return Err(PlayerHandlerError::PlayerMainCallFailed(PlayerFault::IdUnchanged));
        }
        self.player_uuid = new_id;
        Ok(())
    }

    fn set_player_username(&mut self, new_username: &str) -> (r: Result<(), PlayerHandlerError>) {
        let username = new_username.to_owned();
        let unchanged = match &self.player_username {
            Some(player_username) => *player_username == username,
            None => {
                return Err(PlayerHandlerError::PlayerMainCallFailed(PlayerFault::MissingUsername));
            },
        };
        if unchanged {
            return Err(PlayerHandlerError::PlayerMainCallFailed(PlayerFault::UsernameUnchanged));
        }
        self.player_username = Some(username);
        Ok(())
    }
}

/// A human player connected from elsewhere.
#[derive(Clone, Debug)]
pub struct PlayerRemote {
    player_email: Option<String>,
    player_uuid: u128,
    player_type: PlayerType,
    player_username: Option<String>,
}

impl Player for PlayerRemote {
    closed spec fn email(&self) -> Option<Seq<char>> {
        text_of(self.player_email)
    }

    closed spec fn username(&self) -> Option<Seq<char>> {
        text_of(self.player_username)
    }

    closed spec fn id(&self) -> u128 {
        self.player_uuid
    }

    closed spec fn kind(&self) -> PlayerType {
        self.player_type
    }

    open spec fn failure(&self, fault: PlayerFault) -> PlayerHandlerError {
        PlayerHandlerError::PlayerRemoteCallFailed(fault)
    }

    fn new(
        player_email: Option<String>,
        player_username: Option<String>,
        player_uuid: Option<u128>,
        player_type: PlayerType,
    ) -> (p: Self) {
        let player_uuid: u128 = match player_uuid {
            Some(id) => id,
            None => fresh_uuid(),
        };
        PlayerRemote { player_email, player_uuid, player_type, player_username }
    }

    fn get_player_email(&self) -> (r: Result<&String, PlayerHandlerError>) {
        match &self.player_email {
            Some(player_email) => Ok(player_email),
            None => Err(PlayerHandlerError::PlayerRemoteCallFailed(PlayerFault::MissingEmail)),
        }
    }

    fn get_player_id(&self) -> (r: Result<&u128, PlayerHandlerError>) {
        Ok(&self.player_uuid)
    }

    fn get_player_type(&self) -> (r: Result<&PlayerType, PlayerHandlerError>) {
        Ok(&self.player_type)
    }

    fn get_player_username(&self) -> (r: Result<&String, PlayerHandlerError>) {
        match &self.player_username {
            Some(player_username) => Ok(player_username),
            None => Err(PlayerHandlerError::PlayerRemoteCallFailed(PlayerFault::MissingUsername)),
        }
    }

    fn set_player_email(&mut self, new_email: &str) -> (r: Result<(), PlayerHandlerError>) {
        let email = new_email.to_owned();
        let unchanged = match &self.player_email {
            Some(player_email) => *player_email == email,
            None => {
                return Err(PlayerHandlerError::PlayerRemoteCallFailed(PlayerFault::MissingEmail));
            },
        };
        if unchanged {
            return Err(PlayerHandlerError::PlayerRemoteCallFailed(PlayerFault::EmailUnchanged));
        }
        self.player_email = Some(email);
        Ok(())
    }

    fn set_player_id(&mut self, new_id: u128) -> (r: Result<(), PlayerHandlerError>) {
        if self.player_uuid == new_id {
            return Err(PlayerHandlerError::PlayerRemoteCallFailed(PlayerFault::IdUnchanged));
        }
        self.player_uuid = new_id;
        Ok(())
    }

    fn set_player_username(&mut self, new_username: &str) -> (r: Result<(), PlayerHandlerError>) {
        let username = new_username.to_owned();
        let unchanged = match &self.player_username {
            Some(player_username) => *player_username == username,
            None => {
                return Err(PlayerHandlerError::PlayerRemoteCallFailed(PlayerFault::MissingUsername));
            },
        };
        if unchanged {
            return Err(PlayerHandlerError::PlayerRemoteCallFailed(PlayerFault::UsernameUnchanged));
        }
        self.player_username = Some(username);
        Ok(())
    }
}

} // verus!
