//! The handler's configuration: who the main player is and how large the
//! party may grow.

use vstd::prelude::*;
use crate::error::PlayerHandlerError;
use crate::ids::{fresh_uuid, uuid_text, uuid_to_string};

verus! {

/// Configuration of the player handler, filled in by chained setters and
/// completed by [`BevyEasyPlayerHandlerPlugin::build`].
#[derive(Clone)]
pub struct BevyEasyPlayerHandlerPlugin {
    main_player_email: Option<String>,
    main_player_username: Option<String>,
    main_player_uuid: Option<u128>,
    party_size: Option<usize>,
}

/// The characters of an optional string.
pub open spec fn text_of(s: Option<String>) -> Option<Seq<char>> {
    match s {
        Some(t) => Some(t@),
        None => None,
    }
}

impl BevyEasyPlayerHandlerPlugin {
    /// The configured email of the main player.
    pub closed spec fn email(&self) -> Option<Seq<char>> {
        text_of(self.main_player_email)
    }

    /// The configured username of the main player.
    pub closed spec fn username(&self) -> Option<Seq<char>> {
        text_of(self.main_player_username)
    }

    /// The configured id of the main player.
    pub closed spec fn uuid(&self) -> Option<u128> {
        self.main_player_uuid
    }

    /// The configured party size limit.
    pub closed spec fn size_limit(&self) -> Option<usize> {
        self.party_size
    }

    /// A configuration with nothing set.
    pub fn init() -> (p: Self)
        ensures
            p.email() is None,
            p.username() is None,
            p.uuid() is None,
            p.size_limit() is None,
    {
        BevyEasyPlayerHandlerPlugin {
            main_player_email: None,
            main_player_username: None,
            main_player_uuid: None,
            party_size: None,
        }
    }

    /// Sets the main player's email.
    pub fn main_player_email(self, main_player_email: &str) -> (p: Self)
        ensures
            p.email() == Some(main_player_email@),
            p.username() == self.username(),
            p.uuid() == self.uuid(),
            p.size_limit() == self.size_limit(),
    {
        let mut p = self;
        p.main_player_email = Some(main_player_email.to_owned());
        p
    }

    /// Sets the main player's username.
    pub fn main_player_username(self, main_player_username: &str) -> (p: Self)
        ensures
            p.username() == Some(main_player_username@),
            p.email() == self.email(),
            p.uuid() == self.uuid(),
            p.size_limit() == self.size_limit(),
    {
        let mut p = self;
        p.main_player_username = Some(main_player_username.to_owned());
        p
    }

    /// Sets the main player's id.
    pub fn main_player_uuid(self, main_player_uuid: &u128) -> (p: Self)
        ensures
            p.uuid() == Some(*main_player_uuid),
            p.email() == self.email(),
            p.username() == self.username(),
            p.size_limit() == self.size_limit(),
    {
        let mut p = self;
        p.main_player_uuid = Some(*main_player_uuid);
        p
    }

    /// Sets the party size limit.
    pub fn party_size(self, party_size: usize) -> (p: Self)
        ensures
            p.size_limit() == Some(party_size),
            p.email() == self.email(),
            p.username() == self.username(),
            p.uuid() == self.uuid(),
    {
        let mut p = self;
        p.party_size = Some(party_size);
        p
    }

    /// Completes the configuration given the id to use where none was set:
    /// a missing username becomes the text of the main player's id, and a
    /// missing size limit becomes 1.
    pub fn build_with(self, fallback_uuid: u128) -> (p: Self)
        ensures
            p.email() == self.email(),
            p.uuid() == Some(
                match self.uuid() {
                    Some(id) => id,
                    None => fallback_uuid,
                },
            ),
            p.username() == Some(
                match self.username() {
                    Some(name) => name,
                    None => uuid_text(p.uuid().unwrap()),
                },
            ),
            p.size_limit() == Some(
                match self.size_limit() {
                    Some(n) => n,
                    None => 1usize,
                },
            ),
    {
        let mut p = self;
        let id: u128 = match p.main_player_uuid {
            Some(id) => id,
            None => fallback_uuid,
        };
        p.main_player_uuid = Some(id);
        if p.main_player_username.is_none() {
            p.main_player_username = Some(uuid_to_string(id));
        }
        let party_size: usize = match p.party_size {
            Some(n) => n,
            None => 1,
        };
        p.party_size = Some(party_size);
        p
    }

    /// Completes the configuration. Where no id was set for the main player
    /// a new one is generated, whose value is not determined here; all else
    /// is as in [`BevyEasyPlayerHandlerPlugin::build_with`].
    pub fn build(self) -> (p: Self)
        ensures
            p.email() == self.email(),
            p.uuid() is Some,
            self.uuid() is Some ==> p.uuid() == self.uuid(),
            p.username() == Some(
                match self.username() {
                    Some(name) => name,
                    None => uuid_text(p.uuid().unwrap()),
                },
            ),
            p.size_limit() == Some(
                match self.size_limit() {
                    Some(n) => n,
                    None => 1usize,
                },
            ),
    {
        if self.main_player_uuid.is_none() {
            let id = fresh_uuid();
            self.build_with(id)
        } else {
            self.build_with(0)
        }
    }

    /// The main player's email, if one is set. Never fails.
    pub fn get_main_player_email(&self) -> (r: Result<Option<&String>, PlayerHandlerError>)
        ensures
            r is Ok,
            match r.unwrap() {
                Some(s) => self.email() == Some(s@),
                None => self.email() is None,
            },
    {
        Ok(self.main_player_email.as_ref())
    }

    /// The main player's username, if one is set. Never fails.
    pub fn get_main_player_username(&self) -> (r: Result<Option<&String>, PlayerHandlerError>)
        ensures
            r is Ok,
            match r.unwrap() {
                Some(s) => self.username() == Some(s@),
                None => self.username() is None,
            },
    {
        Ok(self.main_player_username.as_ref())
    }

    /// The main player's id, if one is set. Never fails.
    pub fn get_main_player_uuid(&self) -> (r: Result<Option<&u128>, PlayerHandlerError>)
        ensures
            r is Ok,
            match r.unwrap() {
                Some(id) => self.uuid() == Some(*id),
                None => self.uuid() is None,
            },
    {
        Ok(self.main_player_uuid.as_ref())
    }

    /// The party size limit, if one is set. Never fails.
    pub fn get_party_size_limit(&self) -> (r: Result<Option<&usize>, PlayerHandlerError>)
        ensures
            r is Ok,
            match r.unwrap() {
                Some(n) => self.size_limit() == Some(*n),
                None => self.size_limit() is None,
            },
    {
        Ok(self.party_size.as_ref())
    }

    /// Replaces the party size limit. Never fails.
    pub fn set_party_size_limit(&mut self, party_size: usize) -> (r: Result<(), PlayerHandlerError>)
        ensures
            r is Ok,
            final(self).size_limit() == Some(party_size),
            final(self).email() == old(self).email(),
            final(self).username() == old(self).username(),
            final(self).uuid() == old(self).uuid(),
    {
        self.party_size = Some(party_size);
        Ok(())
    }

    /// Replaces the main player's id. Never fails.
    pub fn set_main_player_uuid(&mut self, new_uuid: &u128) -> (r: Result<(), PlayerHandlerError>)
        ensures
            r is Ok,
            final(self).uuid() == Some(*new_uuid),
            final(self).email() == old(self).email(),
            final(self).username() == old(self).username(),
            final(self).size_limit() == old(self).size_limit(),
    {
        self.main_player_uuid = Some(*new_uuid);
        Ok(())
    }
}

} // verus!
