//! What the party writes to the live players, and how players leave.

use vstd::prelude::*;
use crate::component::{
    has_live, ids_of, is_last_live, lemma_last_live_exists, PlayerComponent, PlayerIdentity,
};
use crate::error::{PlayerFault, PlayerHandlerError};
use crate::party::Party;
use crate::player::Player;
use crate::plugin::BevyEasyPlayerHandlerPlugin;
use crate::slots::{all_leave, is_seated, leaves, leaves_a_gap, seated_at, stopped_at};

verus! {

/// `after` differs from `before` at most at position `i`.
pub open spec fn changed_only_at(
    before: Seq<PlayerComponent>,
    after: Seq<PlayerComponent>,
    i: int,
) -> bool {
    &&& before.len() == after.len()
    &&& forall|j: int| 0 <= j < before.len() && j != i ==> after[j] == before[j]
}

/// `after` is `before` with the id `id`: role, email and username read the
/// same.
pub open spec fn renamed_to(before: PlayerIdentity, after: PlayerIdentity, id: u128) -> bool {
    &&& after.uuid == id
    &&& after.role == before.role
    &&& after.email() == before.email()
    &&& after.username() == before.username()
}

/// The ids of the live players other than `spared`, in order.
pub open spec fn ids_besides(players: Seq<PlayerComponent>, spared: u128) -> Seq<u128>
    decreases players.len(),
{
    if players.len() == 0 {
        Seq::empty()
    } else if players.last().player.uuid != spared {
        ids_besides(players.drop_last(), spared).push(players.last().player.uuid)
    } else {
        ids_besides(players.drop_last(), spared)
    }
}

/// The ids of the live players other than `spared`, in order.
pub fn collect_ids_besides(players: &Vec<PlayerComponent>, spared: u128) -> (ids: Vec<u128>)
    ensures
        ids@ == ids_besides(players@, spared),
{
    let mut ids: Vec<u128> = Vec::new();
    let mut i: usize = 0;
    while i < players.len()
        invariant
            i <= players.len(),
            ids@ == ids_besides(players@.take(i as int), spared),
        decreases players.len() - i,
    {
        proof {
            assert(players@.take(i + 1).drop_last() =~= players@.take(i as int));
        }
        if players[i].player.uuid != spared {
            ids.push(players[i].player.uuid);
        }
        i += 1;
    }
    proof {
        assert(players@.take(players.len() as int) =~= players@);
    }
    ids
}

impl Party {
    /// Where the cursor stands after a player has left: one lower if it
    /// pointed at the last slot of the roster, else where it was.
    pub open spec fn lowered_cursor(&self) -> usize {
        if self.active_player == self.slots().len() {
            (self.active_player - 1) as usize
        } else {
            self.active_player
        }
    }

    /// Takes the players `ids` out of the slot map, one after the other as
    /// [`Party::player_map_remove_player`] does, and stops at the first
    /// that fails: `Ok(())` after all have left, else the position of the
    /// player at which it stopped and the error of that removal.
    pub fn player_map_remove_players(
        &mut self,
        plugin: &BevyEasyPlayerHandlerPlugin,
        ids: &Vec<u128>,
    ) -> (r: Result<(), (usize, PlayerHandlerError)>)
        ensures
            final(self).main_player_uuid == old(self).main_player_uuid,
            final(self).active_player == old(self).active_player,
            match r {
                Ok(()) => all_leave(
                    old(self).slots(),
                    ids@,
                    plugin.size_limit(),
                    final(self).slots(),
                ),
                Err((at, e)) => {
                    &&& e == PlayerHandlerError::NotFound || e
                        == PlayerHandlerError::PartySizeLimitMissing || e
                        == PlayerHandlerError::PartyFullNoGap
                    &&& stopped_at(
                        old(self).slots(),
                        ids@,
                        plugin.size_limit(),
                        final(self).slots(),
                        at as int,
                        e,
                    )
                },
            },
    {
        let mut i: usize = 0;
        while i < ids.len()
            invariant
                i <= ids.len(),
                self.main_player_uuid == old(self).main_player_uuid,
                self.active_player == old(self).active_player,
                all_leave(old(self).slots(), ids@.take(i as int), plugin.size_limit(), self.slots()),
            decreases ids.len() - i,
        {
            let ghost mid = self.slots();
            match self.player_map_remove_player(plugin, &ids[i]) {
                Ok(()) => {
                    proof {
                        assert(ids@.take(i + 1).drop_last() =~= ids@.take(i as int));
                        assert(leaves(mid, ids@.take(i + 1).last(), plugin.size_limit(), self.slots()));
                    }
                },
                Err(e) => {
                    proof {
                        assert(all_leave(
                            old(self).slots(),
                            ids@.take(i as int),
                            plugin.size_limit(),
                            mid,
                        ));
                    }
                    return Err((i, e));
                },
            }
            i += 1;
        }
        proof {
            assert(ids@.take(ids.len() as int) =~= ids@);
        }
        Ok(())
    }

    /// Clears the live players out of the slot map: the cursor goes to slot
    /// 1, then every live player, in order, leaves as
    /// [`Party::player_map_remove_player`] says. The first removal that
    /// fails ends the run with its error, the earlier players gone. The
    /// live players themselves are not touched: taking them away is the
    /// caller's part.
    pub fn player_map_and_component_remove_all_players(
        &mut self,
        players: &Vec<PlayerComponent>,
        plugin: &BevyEasyPlayerHandlerPlugin,
    ) -> (r: Result<(), PlayerHandlerError>)
        ensures
            final(self).main_player_uuid == old(self).main_player_uuid,
            final(self).active_player == 1,
            match r {
                Ok(()) => all_leave(
                    old(self).slots(),
                    ids_of(players@),
                    plugin.size_limit(),
                    final(self).slots(),
                ),
                Err(e) => {
                    &&& e == PlayerHandlerError::NotFound || e
                        == PlayerHandlerError::PartySizeLimitMissing || e
                        == PlayerHandlerError::PartyFullNoGap
                    &&& exists|at: int| #[trigger]
                        stopped_at(
                            old(self).slots(),
                            ids_of(players@),
                            plugin.size_limit(),
                            final(self).slots(),
                            at,
                            e,
                        )
                },
            },
    {
        let _ = self.set_active_player_index(1);
        let ids = match self.get_all_players_ids(players) {
            Ok(ids) => ids,
            Err(e) => {
                return Err(e);
            },
        };
        match self.player_map_remove_players(plugin, &ids) {
            Ok(()) => Ok(()),
            Err((at, e)) => {
                proof {
                    assert(stopped_at(
                        old(self).slots(),
                        ids@,
                        plugin.size_limit(),
                        self.slots(),
                        at as int,
                        e,
                    ));
                }
                Err(e)
            },
        }
    }

    /// Clears the live players other than the main player out of the slot
    /// map: the cursor goes to slot 1; `MainPlayerMissing`, with nothing
    /// else changed, when no main player is cached; then every live player
    /// whose id is not the main player's leaves, in order, as
    /// [`Party::player_map_remove_player`] says. The first removal that
    /// fails ends the run with its error, the earlier players gone.
    pub fn player_map_and_component_remove_all_players_besides_main(
        &mut self,
        players: &Vec<PlayerComponent>,
        plugin: &BevyEasyPlayerHandlerPlugin,
    ) -> (r: Result<(), PlayerHandlerError>)
        ensures
            final(self).main_player_uuid == old(self).main_player_uuid,
            final(self).active_player == 1,
            old(self).main_player_uuid is None ==> r == Err::<(), PlayerHandlerError>(
                PlayerHandlerError::MainPlayerMissing,
            ) && final(self).slots() == old(self).slots(),
            old(self).main_player_uuid is Some ==> match r {
                Ok(()) => all_leave(
                    old(self).slots(),
                    ids_besides(players@, old(self).main_player_uuid.unwrap()),
                    plugin.size_limit(),
                    final(self).slots(),
                ),
                Err(e) => {
                    &&& e == PlayerHandlerError::NotFound || e
                        == PlayerHandlerError::PartySizeLimitMissing || e
                        == PlayerHandlerError::PartyFullNoGap
                    &&& exists|at: int| #[trigger]
                        stopped_at(
                            old(self).slots(),
                            ids_besides(players@, old(self).main_player_uuid.unwrap()),
                            plugin.size_limit(),
                            final(self).slots(),
                            at,
                            e,
                        )
                },
            },
    {
        let _ = self.set_active_player_index(1);
        let main_player_id = match self.get_main_player_uuid() {
            Ok(id) => id,
            Err(e) => {
                return Err(e);
            },
        };
        let ids = collect_ids_besides(players, main_player_id);
        let ghost goal = ids_besides(players@, main_player_id);
        let result: Result<(), PlayerHandlerError> = match self.player_map_remove_players(
            plugin,
            &ids,
        ) {
            Ok(()) => Ok(()),
            Err((at, e)) => {
                proof {
                    assert(stopped_at(
                        old(self).slots(),
                        goal,
                        plugin.size_limit(),
                        self.slots(),
                        at as int,
                        e,
                    ));
                }
                Err(e)
            },
        };
        proof {
            assert(goal == ids_besides(players@, old(self).main_player_uuid.unwrap()));
            assert(result is Ok ==> all_leave(
                old(self).slots(),
                goal,
                plugin.size_limit(),
                self.slots(),
            ));
            assert(result matches Err(e) ==> exists|at: int| #[trigger]
                stopped_at(old(self).slots(), goal, plugin.size_limit(), self.slots(), at, e));
        }
        result
    }

    /// Replaces the email of the active player. Fails, changing nothing, as
    /// [`Party::find_active_player`] does, and as the player's own
    /// `set_player_email` does.
    pub fn set_active_player_email(
        &self,
        players: &mut Vec<PlayerComponent>,
        player_email: &str,
    ) -> (r: Result<(), PlayerHandlerError>)
        ensures
            match (r, self.find_active_player_spec(old(players)@)) {
                (Ok(()), Ok(i)) => {
                    &&& changed_only_at(old(players)@, final(players)@, i)
                    &&& old(players)@[i].player.email() is Some
                    &&& old(players)@[i].player.email() != Some(player_email@)
                    &&& final(players)@[i].player.email() == Some(player_email@)
                    &&& final(players)@[i].player.uuid == old(players)@[i].player.uuid
                    &&& final(players)@[i].player.role == old(players)@[i].player.role
                    &&& final(players)@[i].player.username() == old(players)@[i].player.username()
                },
                (Err(e), Ok(i)) => {
                    &&& final(players)@ == old(players)@
                    &&& match old(players)@[i].player.email() {
                        None => e == old(players)@[i].player.failure(PlayerFault::MissingEmail),
                        Some(current) => current == player_email@ && e == old(players)@[i].player.failure(PlayerFault::EmailUnchanged),
                    }
                },
                (Err(e), Err(cause)) => e == cause && final(players)@ == old(players)@,
                _ => false,
            },
    {
        let i = match self.find_active_player(players) {
            Ok(i) => i,
            Err(e) => {
                return Err(e);
            },
        };
        let mut player = players[i].player.copy_of();
        match player.set_player_email(player_email) {
            Ok(()) => {
                players.set(i, PlayerComponent { player });
                Ok(())
            },
            Err(e) => Err(e),
        }
    }

    /// Replaces the username of the active player. Fails, changing nothing,
    /// as [`Party::find_active_player`] does, and as the player's own
    /// `set_player_username` does.
    pub fn set_active_player_username(
        &self,
        players: &mut Vec<PlayerComponent>,
        player_username: &str,
    ) -> (r: Result<(), PlayerHandlerError>)
        ensures
            match (r, self.find_active_player_spec(old(players)@)) {
                (Ok(()), Ok(i)) => {
                    &&& changed_only_at(old(players)@, final(players)@, i)
                    &&& old(players)@[i].player.username() is Some
                    &&& old(players)@[i].player.username() != Some(player_username@)
                    &&& final(players)@[i].player.username() == Some(player_username@)
                    &&& final(players)@[i].player.uuid == old(players)@[i].player.uuid
                    &&& final(players)@[i].player.role == old(players)@[i].player.role
                    &&& final(players)@[i].player.email() == old(players)@[i].player.email()
                },
                (Err(e), Ok(i)) => {
                    &&& final(players)@ == old(players)@
                    &&& match old(players)@[i].player.username() {
                        None => e == old(players)@[i].player.failure(PlayerFault::MissingUsername),
                        Some(current) => current == player_username@ && e == old(players)@[i].player.failure(PlayerFault::UsernameUnchanged),
                    }
                },
                (Err(e), Err(cause)) => e == cause && final(players)@ == old(players)@,
                _ => false,
            },
    {
        let i = match self.find_active_player(players) {
            Ok(i) => i,
            Err(e) => {
                return Err(e);
            },
        };
        let mut player = players[i].player.copy_of();
        match player.set_player_username(player_username) {
            Ok(()) => {
                players.set(i, PlayerComponent { player });
                Ok(())
            },
            Err(e) => Err(e),
        }
    }

    /// Replaces the id that the active player's live object holds. Fails,
    /// changing nothing, as [`Party::find_active_player`] does, and with
    /// the player's `IdUnchanged` when it already holds `new_uuid`.
    pub fn set_active_player_uuid_player_component(
        &self,
        players: &mut Vec<PlayerComponent>,
        new_uuid: &u128,
    ) -> (r: Result<(), PlayerHandlerError>)
        ensures
            match (r, self.find_active_player_spec(old(players)@)) {
                (Ok(()), Ok(i)) => {
                    &&& changed_only_at(old(players)@, final(players)@, i)
                    &&& old(players)@[i].player.uuid != *new_uuid
                    &&& final(players)@[i].player.uuid == *new_uuid
                    &&& final(players)@[i].player.role == old(players)@[i].player.role
                    &&& final(players)@[i].player.email() == old(players)@[i].player.email()
                    &&& final(players)@[i].player.username() == old(players)@[i].player.username()
                },
                (Err(e), Ok(i)) => {
                    &&& final(players)@ == old(players)@
                    &&& old(players)@[i].player.uuid == *new_uuid
                    &&& e == old(players)@[i].player.failure(PlayerFault::IdUnchanged)
                },
                (Err(e), Err(cause)) => e == cause && final(players)@ == old(players)@,
                _ => false,
            },
    {
        let i = match self.find_active_player(players) {
            Ok(i) => i,
            Err(e) => {
                return Err(e);
            },
        };
        let mut player = players[i].player.copy_of();
        match player.set_player_id(*new_uuid) {
            Ok(()) => {
                players.set(i, PlayerComponent { player });
                Ok(())
            },
            Err(e) => Err(e),
        }
    }

    /// Gives the active player the id `new_uuid`, in its live object and in
    /// the slot map.
    ///
    /// Fails, changing nothing: with `SlotEmpty` when the cursor
    /// points at a slot without a player; else with `IdentityUnchanged`
    /// when that slot already holds `new_uuid`; else with `NotFound`
    /// when no live player has the slot's id.
    pub fn set_active_player_uuid_player_map_and_component(
        &mut self,
        players: &mut Vec<PlayerComponent>,
        new_uuid: u128,
    ) -> (r: Result<(), PlayerHandlerError>)
        ensures
            final(self).active_player == old(self).active_player,
            final(self).main_player_uuid == old(self).main_player_uuid,
            match r {
                Ok(()) => {
                    &&& old(self).find_active_player_spec(old(players)@) is Ok
                    &&& old(self).slots()[old(self).active_player] != new_uuid
                    &&& final(self).slots() == old(self).slots().insert(
                        old(self).active_player,
                        new_uuid,
                    )
                    &&& changed_only_at(
                        old(players)@,
                        final(players)@,
                        old(self).find_active_player_spec(old(players)@).unwrap(),
                    )
                    &&& renamed_to(
                        old(players)@[old(self).find_active_player_spec(
                            old(players)@,
                        ).unwrap()].player,
                        final(players)@[old(self).find_active_player_spec(
                            old(players)@,
                        ).unwrap()].player,
                        new_uuid,
                    )
                },
                Err(e) => {
                    &&& final(self).slots() == old(self).slots()
                    &&& final(players)@ == old(players)@
                    &&& e == if !old(self).slots().contains_key(old(self).active_player) {
                        PlayerHandlerError::SlotEmpty
                    } else if old(self).slots()[old(self).active_player] == new_uuid {
                        PlayerHandlerError::IdentityUnchanged
                    } else {
                        PlayerHandlerError::NotFound
                    }
                    &&& e == PlayerHandlerError::NotFound ==> !has_live(
                        old(players)@,
                        old(self).slots()[old(self).active_player],
                    )
                },
            },
    {
        let active_player_uuid: u128 = match self.get_player_map_active_player_uuid() {
            Ok(id) => *id,
            Err(e) => {
                return Err(e);
            },
        };
        if active_player_uuid == new_uuid {
            return Err(PlayerHandlerError::IdentityUnchanged);
        }
        proof {
            if has_live(players@, active_player_uuid) {
                lemma_last_live_exists(players@, active_player_uuid);
            }
        }
        match self.set_active_player_uuid_player_component(players, &new_uuid) {
            Ok(()) => {},
            Err(e) => {
                return Err(e);
            },
        }
        let _ = self.set_active_player_uuid_player_map(&new_uuid);
        let updated_active_player_uuid: u128 = match self.get_player_map_active_player_uuid() {
            Ok(id) => *id,
            Err(e) => {
                return Err(e);
            },
        };
        if active_player_uuid == updated_active_player_uuid {
            return Err(PlayerHandlerError::IdentityMismatch);
        }
        Ok(())
    }

    /// Gives the only live player, who sits in the active slot, the id
    /// `new_uuid`, in its live object and in the slot map.
    ///
    /// Fails, changing nothing: with `NotFound` unless exactly one player
    /// is live; else with `IdentityUnchanged` when the player already has
    /// that id; else with `SlotEmpty` when the cursor points at a slot
    /// without a player; else with `NotFound` when the slot holds another
    /// id than the player's.
    pub fn init_main_player_uuid_player_map(
        &mut self,
        players: &mut Vec<PlayerComponent>,
        new_uuid: u128,
    ) -> (r: Result<(), PlayerHandlerError>)
        ensures
            final(self).active_player == old(self).active_player,
            final(self).main_player_uuid == old(self).main_player_uuid,
            final(players)@.len() == old(players)@.len(),
            match r {
                Ok(()) => {
                    &&& old(players)@.len() == 1
                    &&& old(players)@[0].player.uuid != new_uuid
                    &&& seated_at(
                        old(self).slots(),
                        old(self).active_player,
                        old(players)@[0].player.uuid,
                    )
                    &&& final(self).slots() == old(self).slots().insert(
                        old(self).active_player,
                        new_uuid,
                    )
                    &&& renamed_to(old(players)@[0].player, final(players)@[0].player, new_uuid)
                },
                Err(e) => {
                    &&& final(self).slots() == old(self).slots()
                    &&& final(players)@ == old(players)@
                    &&& e == if old(players)@.len() != 1 {
                        PlayerHandlerError::NotFound
                    } else if old(players)@[0].player.uuid == new_uuid {
                        PlayerHandlerError::IdentityUnchanged
                    } else if !old(self).slots().contains_key(old(self).active_player) {
                        PlayerHandlerError::SlotEmpty
                    } else {
                        PlayerHandlerError::NotFound
                    }
                    &&& old(players)@.len() == 1 && e == PlayerHandlerError::NotFound ==> old(self).slots()[old(self).active_player] != old(players)@[0].player.uuid
                },
            },
    {
        if players.len() != 1 {
            return Err(PlayerHandlerError::NotFound);
        }
        let active_player_uuid: u128 = players[0].player.uuid;
        if active_player_uuid == new_uuid {
            return Err(PlayerHandlerError::IdentityUnchanged);
        }
        let seated: u128 = match self.get_player_map_active_player_uuid() {
            Ok(id) => *id,
            Err(e) => {
                return Err(e);
            },
        };
        if seated != active_player_uuid {
            proof {
                assert(!has_live(players@, seated));
            }
            return Err(PlayerHandlerError::NotFound);
        }
        proof {
            assert(is_last_live(players@, seated, 0));
        }
        match self.set_active_player_uuid_player_component(players, &new_uuid) {
            Ok(()) => {},
            Err(e) => {
                return Err(e);
            },
        }
        let _ = self.set_active_player_uuid_player_map(&new_uuid);
        let updated_active_player_uuid: u128 = match self.get_player_map_active_player_uuid() {
            Ok(id) => *id,
            Err(e) => {
                return Err(e);
            },
        };
        if active_player_uuid == updated_active_player_uuid {
            return Err(PlayerHandlerError::IdentityMismatch);
        }
        Ok(())
    }

    /// Takes `target_player` out of the party.
    ///
    /// The checks, in order, each leaving the party as it was:
    /// `ProtectedPlayer` when the target is the main player, cached in the
    /// party or configured in `plugin`; `NotFound` when the target sits in
    /// no slot. Otherwise the player leaves its slot, the cursor moves down
    /// by one if it pointed at the last slot of the roster, and the gaps
    /// are collapsed; a failure of the collapse (`PartySizeLimitMissing`,
    /// `PartyFullNoGap`) is handed on with the player already removed.
    /// Taking the player's live object away is the caller's part.
    pub fn remove_player(
        &mut self,
        plugin: &BevyEasyPlayerHandlerPlugin,
        target_player: &u128,
    ) -> (r: Result<(), PlayerHandlerError>)
        ensures
            final(self).main_player_uuid == old(self).main_player_uuid,
            old(self).main_player_uuid == Some(*target_player) || plugin.uuid() == Some(
                *target_player,
            ) <==> r == Err::<(), PlayerHandlerError>(PlayerHandlerError::ProtectedPlayer),
            match r {
                Ok(()) => {
                    &&& leaves(
                        old(self).slots(),
                        *target_player,
                        plugin.size_limit(),
                        final(self).slots(),
                    )
                    &&& final(self).active_player == old(self).lowered_cursor()
                },
                Err(PlayerHandlerError::ProtectedPlayer) => {
                    &&& final(self).slots() == old(self).slots()
                    &&& final(self).active_player == old(self).active_player
                },
                Err(PlayerHandlerError::NotFound) => {
                    &&& !is_seated(old(self).slots(), *target_player)
                    &&& final(self).slots() == old(self).slots()
                    &&& final(self).active_player == old(self).active_player
                },
                Err(e) => {
                    &&& e == PlayerHandlerError::PartySizeLimitMissing || e
                        == PlayerHandlerError::PartyFullNoGap
                    &&& leaves_a_gap(
                        old(self).slots(),
                        *target_player,
                        plugin.size_limit(),
                        final(self).slots(),
                        e == PlayerHandlerError::PartySizeLimitMissing,
                    )
                    &&& final(self).active_player == old(self).lowered_cursor()
                },
            },
    {
        broadcast use vstd::std_specs::hash::group_hash_axioms;

        if self.is_main_player(target_player) {
            return Err(PlayerHandlerError::ProtectedPlayer);
        }
        match plugin.get_main_player_uuid() {
            Ok(Some(main_player)) => {
                if *main_player == *target_player {
                    return Err(PlayerHandlerError::ProtectedPlayer);
                }
            },
            _ => {},
        }
        if self.find_player_map_index(target_player).is_none() {
            return Err(PlayerHandlerError::NotFound);
        }
        if self.active_player == self.player_map.len() {
            self.active_player = self.active_player - 1;
        }
        self.player_map_remove_player(plugin, target_player)
    }
}

} // verus!
