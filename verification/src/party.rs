//! The party: the slot map, the active cursor and the cached main player.

use vstd::prelude::*;
use std::collections::HashMap;
use vstd::std_specs::iter::IteratorSpec;
use crate::error::PlayerHandlerError;
use crate::plugin::BevyEasyPlayerHandlerPlugin;
use crate::slots::{
    collapsed, is_next_slot, is_seated, is_top_slot, leaves, leaves_a_gap, lists_roster, lemma_move_keeps_occupants, lemma_occupants_len,
    lemma_packed_occupants, occupants, seated_at, window_full,
};

verus! {

/// The roster of a session. Slots are numbered from 1; `active_player` is
/// the slot the cursor points at, which need not be occupied.
pub struct Party {
    pub active_player: usize,
    pub main_player_uuid: Option<u128>,
    pub player_map: HashMap<usize, u128>,
}

impl Party {
    /// The slot map as a mathematical map.
    pub open spec fn slots(&self) -> Map<usize, u128> {
        self.player_map@
    }

    /// An empty party with the cursor on slot 1 and no main player known.
    pub fn new() -> (party: Self)
        ensures
            party.active_player == 1,
            party.main_player_uuid is None,
            party.slots() == Map::<usize, u128>::empty(),
    {
        let active_player: usize = 1;
        let main_player_uuid: Option<u128> = None;
        let player_map: HashMap<usize, u128> = HashMap::new();
        Party { active_player, main_player_uuid, player_map }
    }

    /// A copy of the slot map. Never fails.
    pub fn clone_player_map(&self) -> (r: Result<HashMap<usize, u128>, PlayerHandlerError>)
        ensures
            r is Ok,
            r.unwrap()@ == self.slots(),
    {
        let result = self.player_map.clone();
        Ok(result)
    }

    /// The player in the active slot; `SlotEmpty` exactly when the
    /// cursor points at a slot without a player.
    pub fn get_player_map_active_player_uuid(&self) -> (r: Result<&u128, PlayerHandlerError>)
        ensures
            match r {
                Ok(id) => seated_at(self.slots(), self.active_player, *id),
                Err(e) => !self.slots().contains_key(self.active_player) && e
                    == PlayerHandlerError::SlotEmpty,
            },
    {
        broadcast use vstd::std_specs::hash::group_hash_axioms;

        match self.player_map.get(&self.active_player) {
            Some(id) => Ok(id),
            None => Err(PlayerHandlerError::SlotEmpty),
        }
    }

    /// The slot the cursor points at. Never fails.
    pub fn get_active_player_index(&self) -> (r: Result<usize, PlayerHandlerError>)
        ensures
            r == Ok::<usize, PlayerHandlerError>(self.active_player),
    {
        let active_player = self.active_player;
        Ok(active_player)
    }

    /// Points the cursor at `target`, whether or not that slot is occupied.
    /// Never fails.
    pub fn set_active_player_index(&mut self, target: usize) -> (r: Result<
        (),
        PlayerHandlerError,
    >)
        ensures
            r is Ok,
            final(self).active_player == target,
            final(self).main_player_uuid == old(self).main_player_uuid,
            final(self).player_map == old(self).player_map,
    {
        self.active_player = target;
        Ok(())
    }

    /// Seats `new_uuid` in the active slot if that slot is occupied, and
    /// changes nothing otherwise. Never fails.
    pub fn set_active_player_uuid_player_map(&mut self, new_uuid: &u128) -> (r: Result<
        (),
        PlayerHandlerError,
    >)
        ensures
            r is Ok,
            final(self).active_player == old(self).active_player,
            final(self).main_player_uuid == old(self).main_player_uuid,
            final(self).slots() == if old(self).slots().contains_key(old(self).active_player) {
                old(self).slots().insert(old(self).active_player, *new_uuid)
            } else {
                old(self).slots()
            },
    {
        broadcast use vstd::std_specs::hash::group_hash_axioms;

        let target_index = self.active_player;
        if self.player_map.contains_key(&target_index) {
            self.player_map.insert(target_index, *new_uuid);
        }
        Ok(())
    }

    /// The cached id of the main player; `MainPlayerMissing` exactly when
    /// none is cached.
    pub fn get_main_player_uuid(&self) -> (r: Result<u128, PlayerHandlerError>)
        ensures
            match r {
                Ok(id) => self.main_player_uuid == Some(id),
                Err(e) => self.main_player_uuid is None && e
                    == PlayerHandlerError::MainPlayerMissing,
            },
    {
        match self.main_player_uuid {
            Some(id) => Ok(id),
            None => Err(PlayerHandlerError::MainPlayerMissing),
        }
    }

    /// Caches `new_uuid` as the main player's id. Never fails.
    pub fn set_main_player_uuid(&mut self, new_uuid: &u128) -> (r: Result<(), PlayerHandlerError>)
        ensures
            r is Ok,
            final(self).main_player_uuid == Some(*new_uuid),
            final(self).active_player == old(self).active_player,
            final(self).player_map == old(self).player_map,
    {
        self.main_player_uuid = Some(*new_uuid);
        Ok(())
    }

    /// Whether `target_id` is the cached main player.
    pub fn is_main_player(&self, target_id: &u128) -> (main: bool)
        ensures
            main == (self.main_player_uuid == Some(*target_id)),
    {
        match self.main_player_uuid {
            Some(id) => id == *target_id,
            None => false,
        }
    }

    /// The player in slot `target_idx`, if the slot is occupied.
    pub fn get_player_map_uuid_at(&self, target_idx: usize) -> (r: Option<u128>)
        ensures
            match r {
                Some(id) => seated_at(self.slots(), target_idx, id),
                None => !self.slots().contains_key(target_idx),
            },
    {
        broadcast use vstd::std_specs::hash::group_hash_axioms;

        match self.player_map.get(&target_idx) {
            Some(id) => Some(*id),
            None => None,
        }
    }

    /// The slot in which `target_id` sits, if it sits in one.
    pub fn find_player_map_index(&self, target_id: &u128) -> (r: Option<usize>)
        ensures
            match r {
                Some(slot) => seated_at(self.slots(), slot, *target_id),
                None => forall|k: usize| !seated_at(self.slots(), k, *target_id),
            },
    {
        broadcast use vstd::std_specs::hash::group_hash_axioms;

        let mut found: Option<usize> = None;
        for pair in it: self.player_map.iter()
            invariant
                match found {
                    Some(slot) => seated_at(self.slots(), slot, *target_id),
                    None => forall|i: int| 0 <= i < it.index() ==> *it.seq()[i].1 != *target_id,
                },
        {
            if *pair.1 == *target_id {
                found = Some(*pair.0);
            }
        }
        found
    }

    /// Whether `target_id` sits in some slot. Never fails.
    pub fn verify_player_exists_player_map_uuid(&self, target_id: &u128) -> (r: Result<
        bool,
        PlayerHandlerError,
    >)
        ensures
            r is Ok,
            r.unwrap() == crate::slots::is_seated(self.slots(), *target_id),
    {
        let exists = self.find_player_map_index(target_id).is_some();
        Ok(exists)
    }

    /// Whether slot `target_idx` is occupied. Never fails.
    pub fn verify_player_exists_player_map_index(&self, target_idx: usize) -> (r: Result<
        bool,
        PlayerHandlerError,
    >)
        ensures
            r == Ok::<bool, PlayerHandlerError>(self.slots().contains_key(target_idx)),
    {
        broadcast use vstd::std_specs::hash::group_hash_axioms;

        Ok(self.player_map.contains_key(&target_idx))
    }

    /// The players of the roster, one entry for every occupied slot, in an
    /// order of the slots that is not determined here.
    pub fn get_player_map_uuids(&self) -> (ids: Vec<u128>)
        ensures
            exists|order: Seq<usize>| lists_roster(self.slots(), order, ids@),
    {
        broadcast use vstd::std_specs::hash::group_hash_axioms;

        let mut ids: Vec<u128> = Vec::new();
        let ghost mut order: Seq<usize> = Seq::empty();
        let ghost pairs = vstd::std_specs::hash::spec_hash_map_iter(&self.player_map).remaining();
        for pair in it: self.player_map.iter()
            invariant
                it.seq() == pairs,
                ids@.len() == it.index(),
                order.len() == it.index(),
                forall|i: int| 0 <= i < it.index() ==> order[i] == *pairs[i].0,
                forall|i: int| 0 <= i < it.index() ==> ids@[i] == *pairs[i].1,
        {
            ids.push(*pair.1);
            proof {
                order = order.push(*pair.0);
            }
        }
        proof {
            let m = self.slots();
            assert(order.len() == pairs.len());
            assert(pairs.no_duplicates());
            assert forall|i: int, j: int|
                0 <= i < order.len() && 0 <= j < order.len() && i != j implies order[i]
                != order[j] by {
                if order[i] == order[j] {
                    assert(m[*pairs[i].0] == *pairs[i].1);
                    assert(m[*pairs[j].0] == *pairs[j].1);
                    assert(pairs[i] == pairs[j]);
                }
            }
            assert forall|k: usize| m.contains_key(k) implies order.contains(k) by {
                assert(pairs.contains((&k, &m[k])));
                let i = choose|i: int| 0 <= i < pairs.len() && pairs[i] == (&k, &m[k]);
                assert(order[i] == k);
            }
            assert forall|k: usize| order.contains(k) implies m.contains_key(k) by {
                let i = choose|i: int| 0 <= i < order.len() && order[i] == k;
                assert(m.contains_key(*pairs[i].0));
            }
            assert forall|i: int| 0 <= i < order.len() implies ids@[i] == m[#[trigger] order[i]] by {
                assert(m[*pairs[i].0] == *pairs[i].1);
            }
            assert(lists_roster(m, order, ids@));
        }
        ids
    }

    /// The occupied slots, each once, in an order that is not determined
    /// here.
    pub fn get_player_map_indices(&self) -> (slots: Vec<usize>)
        ensures
            slots@.no_duplicates(),
            forall|k: usize| self.slots().contains_key(k) <==> slots@.contains(k),
    {
        broadcast use vstd::std_specs::hash::group_hash_axioms;

        let mut slots: Vec<usize> = Vec::new();
        let ghost pairs = vstd::std_specs::hash::spec_hash_map_iter(&self.player_map).remaining();
        for pair in it: self.player_map.iter()
            invariant
                it.seq() == pairs,
                slots@.len() == it.index(),
                forall|i: int| 0 <= i < it.index() ==> slots@[i] == *pairs[i].0,
        {
            slots.push(*pair.0);
        }
        proof {
            let m = self.slots();
            assert(slots@.len() == pairs.len());
            assert(pairs.no_duplicates());
            assert forall|i: int, j: int|
                0 <= i < slots@.len() && 0 <= j < slots@.len() && i != j implies slots@[i]
                != slots@[j] by {
                if slots@[i] == slots@[j] {
                    assert(m[*pairs[i].0] == *pairs[i].1);
                    assert(m[*pairs[j].0] == *pairs[j].1);
                    assert(pairs[i] == pairs[j]);
                }
            }
            assert forall|k: usize| m.contains_key(k) implies slots@.contains(k) by {
                assert(pairs.contains((&k, &m[k])));
                let i = choose|i: int| 0 <= i < pairs.len() && pairs[i] == (&k, &m[k]);
                assert(slots@[i] == k);
            }
            assert forall|k: usize| slots@.contains(k) implies m.contains_key(k) by {
                let i = choose|i: int| 0 <= i < slots@.len() && slots@[i] == k;
                assert(m.contains_key(*pairs[i].0));
            }
        }
        slots
    }

    /// The highest occupied slot, if any slot is occupied.
    pub fn get_player_map_top_index(&self) -> (r: Option<usize>)
        ensures
            match r {
                Some(top) => is_top_slot(self.slots(), top),
                None => self.slots().dom() =~= Set::<usize>::empty(),
            },
    {
        broadcast use vstd::std_specs::hash::group_hash_axioms;

        let mut top: Option<usize> = None;
        for pair in it: self.player_map.iter()
            invariant
                match top {
                    Some(t) => self.slots().contains_key(t) && forall|i: int|
                        0 <= i < it.index() ==> *it.seq()[i].0 <= t,
                    None => it.index() == 0,
                },
        {
            let slot: usize = *pair.0;
            top =
            match top {
                Some(t) => if slot > t {
                    Some(slot)
                } else {
                    Some(t)
                },
                None => Some(slot),
            };
        }
        top
    }

    /// Exchanges the players of two occupied slots and leaves the cursor on
    /// `new_index`. `NoOp` when the two slots are one; otherwise
    /// `NotFound` when either slot is empty. A failed swap changes
    /// nothing.
    pub fn player_map_swap_players(&mut self, old_index: usize, new_index: usize) -> (r: Result<
        (),
        PlayerHandlerError,
    >)
        ensures
            final(self).main_player_uuid == old(self).main_player_uuid,
            match r {
                Ok(()) => {
                    &&& old_index != new_index
                    &&& old(self).slots().contains_key(old_index)
                    &&& old(self).slots().contains_key(new_index)
                    &&& final(self).slots() == old(self).slots().insert(
                        old_index,
                        old(self).slots()[new_index],
                    ).insert(new_index, old(self).slots()[old_index])
                    &&& final(self).active_player == new_index
                },
                Err(e) => {
                    &&& final(self).slots() == old(self).slots()
                    &&& final(self).active_player == old(self).active_player
                    &&& e == if old_index == new_index {
                        PlayerHandlerError::NoOp
                    } else {
                        PlayerHandlerError::NotFound
                    }
                    &&& old_index == new_index || !old(self).slots().contains_key(old_index)
                        || !old(self).slots().contains_key(new_index)
                },
            },
    {
        if old_index == new_index {
            return Err(PlayerHandlerError::NoOp);
        }
        let old_uuid = match self.get_player_map_uuid_at(old_index) {
            Some(id) => id,
            None => {
                return Err(PlayerHandlerError::NotFound);
            },
        };
        let new_uuid = match self.get_player_map_uuid_at(new_index) {
            Some(id) => id,
            None => {
                return Err(PlayerHandlerError::NotFound);
            },
        };
        let _ = self.set_active_player_index(old_index);
        let _ = self.set_active_player_uuid_player_map(&new_uuid);
        let _ = self.set_active_player_index(new_index);
        let _ = self.set_active_player_uuid_player_map(&old_uuid);
        Ok(())
    }

    /// Restores contiguity: the occupants of slots `1..=limit`, where
    /// `limit` is the configured party size limit, move down in slot order
    /// until they fill slots `1..=N`. Slots outside `1..=limit`, the cursor
    /// and the main player are left alone.
    ///
    /// Fails with `PartySizeLimitMissing` when no limit is configured, else
    /// with `PartyFullNoGap` when every slot in `1..=limit` is occupied; a
    /// failed call changes nothing.
    pub fn player_map_check_for_players_and_collapse_missing(
        &mut self,
        plugin: &BevyEasyPlayerHandlerPlugin,
    ) -> (r: Result<(), PlayerHandlerError>)
        ensures
            final(self).active_player == old(self).active_player,
            final(self).main_player_uuid == old(self).main_player_uuid,
            match r {
                Ok(()) => {
                    &&& plugin.size_limit() is Some
                    &&& !window_full(old(self).slots(), plugin.size_limit().unwrap())
                    &&& final(self).slots() == collapsed(
                        old(self).slots(),
                        plugin.size_limit().unwrap(),
                    )
                },
                Err(e) => {
                    &&& final(self).slots() == old(self).slots()
                    &&& match plugin.size_limit() {
                        None => e == PlayerHandlerError::PartySizeLimitMissing,
                        Some(limit) => window_full(old(self).slots(), limit) && e
                            == PlayerHandlerError::PartyFullNoGap,
                    }
                },
            },
    {
        broadcast use vstd::std_specs::hash::group_hash_axioms;

        let party_limit: usize = match plugin.get_party_size_limit() {
            Ok(Some(limit)) => *limit,
            _ => {
                return Err(PlayerHandlerError::PartySizeLimitMissing);
            },
        };

        // The occupancy vector: entry `i` stands for slot `i + 1`.
        let mut occupancy: Vec<bool> = Vec::new();
        let mut party_idx: usize = 0;
        while party_idx < party_limit
            invariant
                party_idx <= party_limit,
                occupancy.len() == party_idx,
            decreases party_limit - party_idx,
        {
            occupancy.push(false);
            party_idx += 1;
        }

        let ghost start = self.player_map@;
        let ghost mut packed: nat = 0;
        let ghost mut gap: usize = 0;
        let mut settled = false;
        while !settled
            invariant
                plugin.size_limit() == Some(party_limit),
                start == old(self).player_map@,
                occupancy.len() == party_limit,
                self.active_player == old(self).active_player,
                self.main_player_uuid == old(self).main_player_uuid,
                occupants(self.player_map@, party_limit as nat) == occupants(
                    start,
                    party_limit as nat,
                ),
                forall|k: usize|
                    !(1 <= k <= party_limit) ==> (#[trigger] self.player_map@.contains_key(k)
                        <==> start.contains_key(k)),
                forall|k: usize|
                    !(1 <= k <= party_limit) && start.contains_key(k)
                        ==> #[trigger] self.player_map@[k] == start[k],
                packed <= party_limit,
                forall|k: usize| 1 <= k <= packed ==> self.player_map@.contains_key(k),
                self.player_map@ == start || (1 <= gap <= party_limit
                    && !self.player_map@.contains_key(gap)),
                settled ==> forall|k: usize|
                    packed < k <= party_limit ==> !self.player_map@.contains_key(k),
                settled ==> packed < party_limit,
            decreases party_limit - packed + (if settled { 0nat } else { 1nat }),
        {
            // Recompute the occupancy from the map.
            let mut n: usize = 0;
            while n < party_limit
                invariant
                    n <= party_limit,
                    occupancy.len() == party_limit,
                    forall|i: int|
                        0 <= i < n ==> occupancy[i] == self.player_map@.contains_key(
                            (i + 1) as usize,
                        ),
                decreases party_limit - n,
            {
                let present = self.player_map.contains_key(&(n + 1));
                occupancy.set(n, present);
                n += 1;
            }

            // The first free slot, and the first occupied slot after it.
            let mut first_false: Option<usize> = None;
            let mut next_existing: Option<usize> = None;
            let mut i: usize = 0;
            while i < party_limit && next_existing.is_none()
                invariant
                    i <= party_limit,
                    occupancy.len() == party_limit,
                    match first_false {
                        None => next_existing is None && forall|j: int| 0 <= j < i ==> occupancy[j],
                        Some(free) => {
                            &&& 1 <= free <= i
                            &&& !occupancy[free - 1]
                            &&& forall|j: int| 0 <= j < free - 1 ==> occupancy[j]
                            &&& match next_existing {
                                None => forall|j: int| free - 1 <= j < i ==> !occupancy[j],
                                Some(taken) => {
                                    &&& free < taken <= party_limit
                                    &&& occupancy[taken - 1]
                                    &&& forall|j: int| free - 1 <= j < taken - 1 ==> !occupancy[j]
                                },
                            }
                        },
                    },
                decreases party_limit - i + (if next_existing is None { 1nat } else { 0nat }),
            {
                if occupancy[i] {
                    if first_false.is_some() {
                        next_existing = Some(i + 1);
                    }
                } else if first_false.is_none() {
                    first_false = Some(i + 1);
                }
                i += 1;
            }

            let free: usize = match first_false {
                Some(free) => free,
                None => {
                    proof {
                        assert forall|k: usize| 1 <= k <= party_limit implies self.player_map@.contains_key(
                            k,
                        ) by {
                            assert(occupancy[k - 1]);
                        }
                    }
                    return Err(PlayerHandlerError::PartyFullNoGap);
                },
            };
            match next_existing {
                None => {
                    proof {
                        assert forall|k: usize| 1 <= k <= free - 1 implies self.player_map@.contains_key(
                            k,
                        ) by {
                            assert(occupancy[k - 1]);
                        }
                        assert forall|k: usize| free - 1 < k <= party_limit implies !self.player_map@.contains_key(
                            k,
                        ) by {
                            assert(!occupancy[k - 1]);
                        }
                        packed = (free - 1) as nat;
                    }
                    settled = true;
                },
                Some(taken) => {
                    proof {
                        assert(occupancy[taken - 1]);
                        assert(self.player_map@.contains_key(taken));
                        assert forall|k: usize| free <= k < taken implies !self.player_map@.contains_key(
                            k,
                        ) by {
                            assert(!occupancy[k - 1]);
                        }
                        assert forall|k: usize| 1 <= k <= free implies k == free
                            || self.player_map@.contains_key(k) by {
                            if k < free {
                                assert(occupancy[k - 1]);
                            }
                        }
                        lemma_move_keeps_occupants(
                            self.player_map@,
                            free,
                            taken,
                            party_limit as nat,
                        );
                    }
                    let extracted_uuid: u128 = *self.player_map.get(&taken).unwrap();
                    self.player_map.insert(free, extracted_uuid);
                    self.player_map.remove(&taken);
                    proof {
                        packed = free as nat;
                        gap = taken;
                    }
                },
            }
        }
        proof {
            let limit = party_limit as nat;
            lemma_packed_occupants(self.player_map@, packed, limit);
            lemma_occupants_len(start, limit);
            assert(self.player_map@ =~= collapsed(start, party_limit));
        }
        Ok(())
    }

    /// Seats `new_uuid` one slot above the highest occupied slot (slot 1 in
    /// an empty party) and points the cursor at it.
    ///
    /// Fails, changing nothing, with `PartySizeLimitMissing` when no limit
    /// is configured, with `PartySizeAtSetLimit` when the party holds
    /// exactly as many players as the limit, and with
    /// `PartySizeGreaterThanSetLimit` when it holds more.
    pub fn player_map_insert_player(
        &mut self,
        plugin: &BevyEasyPlayerHandlerPlugin,
        new_uuid: &u128,
    ) -> (r: Result<(), PlayerHandlerError>)
        requires
            forall|k: usize| old(self).slots().contains_key(k) ==> k < usize::MAX,
        ensures
            final(self).main_player_uuid == old(self).main_player_uuid,
            match r {
                Ok(()) => {
                    &&& plugin.size_limit() is Some
                    &&& old(self).slots().len() < plugin.size_limit().unwrap()
                    &&& is_next_slot(old(self).slots(), final(self).active_player)
                    &&& final(self).slots() == old(self).slots().insert(
                        final(self).active_player,
                        *new_uuid,
                    )
                },
                Err(e) => {
                    &&& final(self).slots() == old(self).slots()
                    &&& final(self).active_player == old(self).active_player
                    &&& match plugin.size_limit() {
                        None => e == PlayerHandlerError::PartySizeLimitMissing,
                        Some(limit) => if old(self).slots().len() == limit {
                            e == PlayerHandlerError::PartySizeAtSetLimit
                        } else {
                            old(self).slots().len() > limit && e
                                == PlayerHandlerError::PartySizeGreaterThanSetLimit
                        },
                    }
                },
            },
    {
        broadcast use vstd::std_specs::hash::group_hash_axioms;

        let party_limit: usize = match plugin.get_party_size_limit() {
            Ok(Some(limit)) => *limit,
            _ => {
                return Err(PlayerHandlerError::PartySizeLimitMissing);
            },
        };
        let party_size = self.player_map.len();
        if party_size == party_limit {
            return Err(PlayerHandlerError::PartySizeAtSetLimit);
        }
        if party_size > party_limit {
            return Err(PlayerHandlerError::PartySizeGreaterThanSetLimit);
        }
        let slot: usize = match self.get_player_map_top_index() {
            Some(top) => top + 1,
            None => 1,
        };
        self.player_map.insert(slot, *new_uuid);
        self.active_player = slot;
        Ok(())
    }

    /// Takes `target_player` out of its slot and collapses the gap. The
    /// cursor and the main player are left alone, and nobody is protected:
    /// see [`Party::remove_player`].
    ///
    /// Fails with `NotFound`, changing nothing, exactly when the
    /// target sits in no slot. A failure of the collapse
    /// (`PartySizeLimitMissing`, `PartyFullNoGap`) is handed on with the
    /// player already removed.
    pub fn player_map_remove_player(
        &mut self,
        plugin: &BevyEasyPlayerHandlerPlugin,
        target_player: &u128,
    ) -> (r: Result<(), PlayerHandlerError>)
        ensures
            final(self).main_player_uuid == old(self).main_player_uuid,
            final(self).active_player == old(self).active_player,
            match r {
                Ok(()) => leaves(
                    old(self).slots(),
                    *target_player,
                    plugin.size_limit(),
                    final(self).slots(),
                ),
                Err(PlayerHandlerError::NotFound) => {
                    &&& !is_seated(old(self).slots(), *target_player)
                    &&& final(self).slots() == old(self).slots()
                },
                Err(e) => {
                    &&& e == PlayerHandlerError::PartySizeLimitMissing || e
                        == PlayerHandlerError::PartyFullNoGap
                    &&& leaves_a_gap(
                        old(self).slots(),
                        *target_player,
                        plugin.size_limit(),
                        final(self).slots(),
                        e == PlayerHandlerError::PartySizeLimitMissing,
                    )
                },
            },
    {
        broadcast use vstd::std_specs::hash::group_hash_axioms;

        let target: usize = match self.find_player_map_index(target_player) {
            Some(slot) => slot,
            None => {
                return Err(PlayerHandlerError::NotFound);
            },
        };
        self.player_map.remove(&target);
        let collapse = self.player_map_check_for_players_and_collapse_missing(plugin);
        proof {
            assert(seated_at(old(self).slots(), target, *target_player));
        }
        collapse
    }
}

} // verus!
