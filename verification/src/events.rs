//! What the party does when the host reports that a live player has
//! appeared or has gone.

use vstd::prelude::*;
use crate::census::find_first_live;
use crate::component::{has_live, PlayerComponent};
use crate::error::PlayerHandlerError;
use crate::ids::{uuid_text, uuid_to_string};
use crate::party::Party;
use crate::player::Player;
use crate::plugin::BevyEasyPlayerHandlerPlugin;
use crate::slots::{is_next_slot, is_seated, seated_at};
use crate::sync::DBPlayer;

verus! {

/// The name under which a player is recorded: its username, or a fixed text
/// when it has none.
pub open spec fn recorded_name(player: PlayerComponent) -> Seq<char> {
    match player.player.username {
        Some(name) => name@,
        None => "Username Fetch Failed"@,
    }
}

/// The slot map `m` without the players who are gone: a slot stays when a
/// live player has its id, or when its id is `main`.
pub open spec fn survivors(
    m: Map<usize, u128>,
    players: Seq<PlayerComponent>,
    main: Option<u128>,
) -> Map<usize, u128> {
    Map::new(
        |k: usize| m.contains_key(k) && (has_live(players, m[k]) || main == Some(m[k])),
        |k: usize| m[k],
    )
}

/// The main player sits in `m` but is not among the live players.
pub open spec fn main_is_gone(
    m: Map<usize, u128>,
    players: Seq<PlayerComponent>,
    main: Option<u128>,
) -> bool {
    main is Some && is_seated(m, main.unwrap()) && !has_live(players, main.unwrap())
}

/// A live player has appeared at position `spawned` of `players`.
///
/// A player who sits in no slot yet is seated as
/// [`Party::player_map_insert_player`] says: in the slot above the highest
/// occupied one, with the cursor advanced to that slot; a failure of that
/// is handed on, with nothing changed. A player who is seated already keeps
/// the slot, and the cursor stays where it is. Returns the record to write
/// into the durable store: the player's id as `uuid` prints it, and the
/// player's recorded name as both email and username.
pub fn on_player_component_spawned(
    party: &mut Party,
    plugin: &BevyEasyPlayerHandlerPlugin,
    players: &Vec<PlayerComponent>,
    spawned: usize,
) -> (r: Result<DBPlayer, PlayerHandlerError>)
    requires
        spawned < players@.len(),
        forall|k: usize| old(party).slots().contains_key(k) ==> k < usize::MAX,
    ensures
        final(party).main_player_uuid == old(party).main_player_uuid,
        match r {
            Ok(record) => {
                &&& record.uuid@ == uuid_text(players@[spawned as int].player.uuid)
                &&& record.email@ == recorded_name(players@[spawned as int])
                &&& record.username@ == recorded_name(players@[spawned as int])
                &&& if is_seated(old(party).slots(), players@[spawned as int].player.uuid) {
                    &&& final(party).slots() == old(party).slots()
                    &&& final(party).active_player == old(party).active_player
                } else {
                    &&& plugin.size_limit() is Some
                    &&& old(party).slots().len() < plugin.size_limit().unwrap()
                    &&& is_next_slot(old(party).slots(), final(party).active_player)
                    &&& final(party).slots() == old(party).slots().insert(
                        final(party).active_player,
                        players@[spawned as int].player.uuid,
                    )
                }
            },
            Err(e) => {
                &&& !is_seated(old(party).slots(), players@[spawned as int].player.uuid)
                &&& final(party).slots() == old(party).slots()
                &&& final(party).active_player == old(party).active_player
                &&& match plugin.size_limit() {
                    None => e == PlayerHandlerError::PartySizeLimitMissing,
                    Some(limit) => if old(party).slots().len() == limit {
                        e == PlayerHandlerError::PartySizeAtSetLimit
                    } else {
                        old(party).slots().len() > limit && e
                            == PlayerHandlerError::PartySizeGreaterThanSetLimit
                    },
                }
            },
        },
{
    let player = &players[spawned];
    let player_uuid: u128 = player.player.uuid;
    let username = match player.player.get_player_username() {
        Ok(name) => name.clone(),
        Err(_) => "Username Fetch Failed".to_owned(),
    };
    let map_entry_exists = party.find_player_map_index(&player_uuid).is_some();
    if !map_entry_exists {
        match party.player_map_insert_player(plugin, &player_uuid) {
            Ok(()) => {},
            Err(e) => {
                return Err(e);
            },
        }
    }
    Ok(DBPlayer { uuid: uuid_to_string(player_uuid), email: username.clone(), username })
}

/// A live player has gone; `players` are those who are left.
///
/// Every slot whose player is gone is freed, except the main player's. The
/// cursor stays, and the gaps are not collapsed here. Returns whether the
/// main player is the one who is gone, in which case the caller brings it
/// back from the durable store.
pub fn on_player_component_removal(party: &mut Party, players: &Vec<PlayerComponent>) -> (respawn:
    bool)
    ensures
        final(party).active_player == old(party).active_player,
        final(party).main_player_uuid == old(party).main_player_uuid,
        final(party).slots() == survivors(
            old(party).slots(),
            players@,
            old(party).main_player_uuid,
        ),
        respawn == main_is_gone(old(party).slots(), players@, old(party).main_player_uuid),
{
    broadcast use vstd::std_specs::hash::group_hash_axioms;

    let slots = party.get_player_map_indices();
    let ghost start = party.player_map@;
    let ghost main = party.main_player_uuid;
    let mut respawn = false;
    let mut n: usize = 0;
    while n < slots.len()
        invariant
            n <= slots.len(),
            start == old(party).slots(),
            main == old(party).main_player_uuid,
            slots@.no_duplicates(),
            forall|k: usize| start.contains_key(k) <==> slots@.contains(k),
            party.main_player_uuid == main,
            party.active_player == old(party).active_player,
            party.player_map@ == Map::new(
                |k: usize|
                    start.contains_key(k) && (!slots@.take(n as int).contains(k) || has_live(
                        players@,
                        start[k],
                    ) || main == Some(start[k])),
                |k: usize| start[k],
            ),
            respawn == exists|j: int|
                0 <= j < n && main == Some(start[#[trigger] slots@[j]]) && !has_live(
                    players@,
                    start[slots@[j]],
                ),
        decreases slots.len() - n,
    {
        let slot: usize = slots[n];
        let ghost done = slots@.take(n as int);
        let ghost seen = respawn;
        proof {
            assert(slots@.contains(slot));
            assert(start.contains_key(slot));
            if done.contains(slot) {
                let j = choose|j: int| 0 <= j < done.len() && done[j] == slot;
                assert(slots@[j] == slots@[n as int]);
            }
            assert(party.player_map@.contains_key(slot));
        }
        let id: u128 = *party.player_map.get(&slot).unwrap();
        if find_first_live(players, id).is_none() {
            if party.is_main_player(&id) {
                respawn = true;
            } else {
                party.player_map.remove(&slot);
            }
        }
        proof {
            let next = slots@.take(n + 1);
            assert(next =~= done.push(slot));
            assert forall|k: usize| next.contains(k) <==> (k == slot || done.contains(k)) by {
                if done.contains(k) {
                    let j = choose|j: int| 0 <= j < done.len() && done[j] == k;
                    assert(next[j] == k);
                }
                if k == slot {
                    assert(next[n as int] == k);
                }
            }
            assert(party.player_map@ =~= Map::new(
                |k: usize|
                    start.contains_key(k) && (!next.contains(k) || has_live(players@, start[k])
                        || main == Some(start[k])),
                |k: usize| start[k],
            ));
            if respawn {
                if seen {
                    let j = choose|j: int|
                        0 <= j < n && main == Some(start[#[trigger] slots@[j]]) && !has_live(
                            players@,
                            start[slots@[j]],
                        );
                    assert(0 <= j < n + 1 && main == Some(start[slots@[j]]));
                } else {
                    assert(main == Some(start[slots@[n as int]]));
                }
            }
        }
        n += 1;
    }
    proof {
        assert(slots@.take(slots@.len() as int) =~= slots@);
        assert(party.player_map@ =~= survivors(start, players@, main));
        if respawn {
            let j = choose|j: int|
                0 <= j < n && main == Some(start[#[trigger] slots@[j]]) && !has_live(
                    players@,
                    start[slots@[j]],
                );
            assert(slots@.contains(slots@[j]));
            assert(seated_at(start, slots@[j], main.unwrap()));
        }
        if main_is_gone(start, players@, main) {
            let k = choose|k: usize| seated_at(start, k, main.unwrap());
            assert(slots@.contains(k));
            let j = choose|j: int| 0 <= j < slots@.len() && slots@[j] == k;
            assert(main == Some(start[slots@[j]]));
        }
    }
    respawn
}

} // verus!
