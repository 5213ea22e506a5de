use bevy_easy_player_handler::{
    sync_plugin_party_main_player_uuid, BevyEasyPlayerHandlerPlugin, Party, PlayerHandlerError,
};
use std::collections::HashMap;
use uuid::Uuid;

fn limit(n: usize) -> BevyEasyPlayerHandlerPlugin {
    BevyEasyPlayerHandlerPlugin::init().party_size(n)
}

fn seated(entries: &[(usize, u128)]) -> Party {
    let mut party = Party::new();
    for (slot, id) in entries {
        party.player_map.insert(*slot, *id);
    }
    party
}

fn slot_map(entries: &[(usize, u128)]) -> HashMap<usize, u128> {
    let mut map = HashMap::new();
    for (slot, id) in entries {
        map.insert(*slot, *id);
    }
    map
}

fn occurrences(party: &Party, id: u128) -> usize {
    party.player_map.values().filter(|seated| **seated == id).count()
}

#[test]
fn test_insert_round_trip() {
    let mut party = Party::new();
    let plugin = limit(4);
    let first = Uuid::now_v7().as_u128();
    let second = Uuid::new_v4().as_u128();
    assert_eq!(party.player_map_insert_player(&plugin, &first), Ok(()));
    assert_eq!(occurrences(&party, first), 1);
    assert_eq!(party.player_map, slot_map(&[(1, first)]));
    assert_eq!(party.active_player, 1);
    assert_eq!(party.player_map_insert_player(&plugin, &second), Ok(()));
    assert_eq!(occurrences(&party, second), 1);
    assert_eq!(occurrences(&party, first), 1);
    assert_eq!(party.player_map, slot_map(&[(1, first), (2, second)]));
    assert_eq!(party.active_player, 2);
    assert_eq!(party.verify_player_exists_player_map_uuid(&second), Ok(true));
    assert_eq!(party.find_player_map_index(&second), Some(2));
    assert_eq!(party.get_player_map_uuid_at(2), Some(second));
    assert_eq!(party.get_player_map_uuid_at(3), None);
}

#[test]
fn test_insert_goes_above_the_highest_slot() {
    let mut party = seated(&[(2, 20), (5, 50)]);
    assert_eq!(party.get_player_map_top_index(), Some(5));
    assert_eq!(party.player_map_insert_player(&limit(9), &60), Ok(()));
    assert_eq!(party.player_map, slot_map(&[(2, 20), (5, 50), (6, 60)]));
    assert_eq!(party.active_player, 6);
    assert_eq!(Party::new().get_player_map_top_index(), None);
}

#[test]
fn test_insert_at_capacity() {
    let mut party = seated(&[(1, 10), (2, 20), (3, 30)]);
    party.active_player = 2;
    assert_eq!(
        party.player_map_insert_player(&limit(3), &40),
        Err(PlayerHandlerError::PartySizeAtSetLimit)
    );
    assert_eq!(party.player_map.len(), 3);
    assert_eq!(party.player_map, slot_map(&[(1, 10), (2, 20), (3, 30)]));
    assert_eq!(party.active_player, 2);
    assert_eq!(
        party.player_map_insert_player(&limit(2), &40),
        Err(PlayerHandlerError::PartySizeGreaterThanSetLimit)
    );
    assert_eq!(
        party.player_map_insert_player(&BevyEasyPlayerHandlerPlugin::init(), &40),
        Err(PlayerHandlerError::PartySizeLimitMissing)
    );
    assert_eq!(party.player_map.len(), 3);
}

#[test]
fn test_collapse_scenario() {
    let mut party = seated(&[(1, 0xA), (3, 0xC)]);
    party.active_player = 3;
    party.main_player_uuid = Some(0xA);
    assert_eq!(party.player_map_check_for_players_and_collapse_missing(&limit(3)), Ok(()));
    assert_eq!(party.player_map, slot_map(&[(1, 0xA), (2, 0xC)]));
    assert_eq!(party.active_player, 3);
    assert_eq!(party.main_player_uuid, Some(0xA));
}

#[test]
fn test_collapse_is_contiguous_and_keeps_order() {
    let mut party = seated(&[(2, 20), (4, 40), (5, 50), (8, 80)]);
    assert_eq!(party.player_map_check_for_players_and_collapse_missing(&limit(8)), Ok(()));
    assert_eq!(party.player_map, slot_map(&[(1, 20), (2, 40), (3, 50), (4, 80)]));
    for slot in 1..=party.player_map.len() {
        assert!(party.player_map.contains_key(&slot));
    }
}

#[test]
fn test_collapse_twice_changes_nothing_more() {
    let mut party = seated(&[(3, 30), (6, 60)]);
    assert_eq!(party.player_map_check_for_players_and_collapse_missing(&limit(6)), Ok(()));
    let once = party.clone_player_map().unwrap();
    assert_eq!(party.player_map_check_for_players_and_collapse_missing(&limit(6)), Ok(()));
    assert_eq!(party.player_map, once);
    assert_eq!(once, slot_map(&[(1, 30), (2, 60)]));
}

#[test]
fn test_collapse_leaves_slots_outside_the_limit() {
    let mut party = seated(&[(0, 1), (2, 20), (7, 70)]);
    assert_eq!(party.player_map_check_for_players_and_collapse_missing(&limit(3)), Ok(()));
    assert_eq!(party.player_map, slot_map(&[(0, 1), (1, 20), (7, 70)]));
}

#[test]
fn test_collapse_failures() {
    let mut full = seated(&[(1, 10), (2, 20)]);
    assert_eq!(
        full.player_map_check_for_players_and_collapse_missing(&limit(2)),
        Err(PlayerHandlerError::PartyFullNoGap)
    );
    assert_eq!(full.player_map, slot_map(&[(1, 10), (2, 20)]));
    assert_eq!(
        full.player_map_check_for_players_and_collapse_missing(&limit(0)),
        Err(PlayerHandlerError::PartyFullNoGap)
    );
    assert_eq!(
        full.player_map_check_for_players_and_collapse_missing(&BevyEasyPlayerHandlerPlugin::init()),
        Err(PlayerHandlerError::PartySizeLimitMissing)
    );
    let mut empty = Party::new();
    assert_eq!(empty.player_map_check_for_players_and_collapse_missing(&limit(2)), Ok(()));
    assert_eq!(empty.player_map.len(), 0);
}

#[test]
fn test_swap_scenario_and_failures() {
    let mut party = seated(&[(1, 0xA), (2, 0xB)]);
    assert_eq!(party.player_map_swap_players(1, 2), Ok(()));
    assert_eq!(party.player_map, slot_map(&[(1, 0xB), (2, 0xA)]));
    assert_eq!(party.active_player, 2);
    assert_eq!(party.player_map_swap_players(2, 2), Err(PlayerHandlerError::NoOp));
    assert_eq!(party.player_map_swap_players(1, 3), Err(PlayerHandlerError::NotFound));
    assert_eq!(party.player_map_swap_players(4, 1), Err(PlayerHandlerError::NotFound));
    assert_eq!(party.player_map, slot_map(&[(1, 0xB), (2, 0xA)]));
    assert_eq!(party.active_player, 2);
}

#[test]
fn test_active_slot_lookup() {
    let mut party = seated(&[(1, 10)]);
    assert_eq!(party.get_player_map_active_player_uuid(), Ok(&10));
    assert_eq!(party.set_active_player_index(4), Ok(()));
    assert_eq!(
        party.get_player_map_active_player_uuid(),
        Err(PlayerHandlerError::SlotEmpty)
    );
    // Writing through the cursor does not create a slot.
    assert_eq!(party.set_active_player_uuid_player_map(&99), Ok(()));
    assert_eq!(party.player_map, slot_map(&[(1, 10)]));
}

#[test]
fn test_removal_with_a_failed_collapse_keeps_the_player_out() {
    let mut party = seated(&[(1, 10), (2, 20), (9, 90)]);
    assert_eq!(
        party.player_map_remove_player(&limit(2), &90),
        Err(PlayerHandlerError::PartyFullNoGap)
    );
    assert_eq!(party.player_map, slot_map(&[(1, 10), (2, 20)]));
    assert_eq!(
        party.player_map_remove_player(&BevyEasyPlayerHandlerPlugin::init(), &10),
        Err(PlayerHandlerError::PartySizeLimitMissing)
    );
    assert_eq!(party.player_map, slot_map(&[(2, 20)]));
}

#[test]
fn test_main_player_is_never_removed() {
    for entries in [vec![], vec![(1usize, 10u128)], vec![(1, 10), (2, 20)], vec![(3, 10)]] {
        let mut party = seated(&entries);
        party.main_player_uuid = Some(10);
        let before = party.clone_player_map().unwrap();
        assert_eq!(
            party.remove_player(&limit(5), &10),
            Err(PlayerHandlerError::ProtectedPlayer)
        );
        assert_eq!(party.player_map, before);
    }
    // The configured main player is protected as well.
    let mut party = seated(&[(1, 10), (2, 20)]);
    let plugin = limit(5).main_player_uuid(&20);
    assert_eq!(party.remove_player(&plugin, &20), Err(PlayerHandlerError::ProtectedPlayer));
    assert!(party.is_main_player(&20) == false);
    sync_plugin_party_main_player_uuid(&mut party, &plugin);
    assert!(party.is_main_player(&20));
    sync_plugin_party_main_player_uuid(&mut party, &BevyEasyPlayerHandlerPlugin::init());
    assert!(party.is_main_player(&20));
}

#[test]
fn test_plugin_builder() {
    let plugin = BevyEasyPlayerHandlerPlugin::init();
    assert_eq!(plugin.get_main_player_email(), Ok(None));
    assert_eq!(plugin.get_main_player_username(), Ok(None));
    assert_eq!(plugin.get_main_player_uuid(), Ok(None));
    assert_eq!(plugin.get_party_size_limit(), Ok(None));

    let id: u128 = 0xa1a2a3a4_b1b2_c1c2_d1d2_d3d4d5d6d7d8;
    let built = BevyEasyPlayerHandlerPlugin::init().main_player_uuid(&id).build();
    assert_eq!(built.get_main_player_uuid(), Ok(Some(&id)));
    assert_eq!(
        built.get_main_player_username(),
        Ok(Some(&"a1a2a3a4-b1b2-c1c2-d1d2-d3d4d5d6d7d8".to_string()))
    );
    assert_eq!(built.get_main_player_email(), Ok(None));
    assert_eq!(built.get_party_size_limit(), Ok(Some(&1)));

    let mut named = BevyEasyPlayerHandlerPlugin::init()
        .main_player_email("host@example.com")
        .main_player_username("host")
        .party_size(4)
        .build();
    assert_eq!(named.get_main_player_email(), Ok(Some(&"host@example.com".to_string())));
    assert_eq!(named.get_main_player_username(), Ok(Some(&"host".to_string())));
    assert_eq!(named.get_party_size_limit(), Ok(Some(&4)));
    assert!(named.get_main_player_uuid().unwrap().is_some());
    assert_eq!(named.set_party_size_limit(6), Ok(()));
    assert_eq!(named.get_party_size_limit(), Ok(Some(&6)));
    assert_eq!(named.set_main_player_uuid(&5), Ok(()));
    assert_eq!(named.get_main_player_uuid(), Ok(Some(&5)));

    let fallback = BevyEasyPlayerHandlerPlugin::init().build_with(id);
    assert_eq!(fallback.get_main_player_uuid(), Ok(Some(&id)));
}

#[test]
fn test_roster_listing() {
    let party = seated(&[(1, 10), (4, 40), (2, 20)]);
    let mut ids = party.get_player_map_uuids();
    ids.sort();
    assert_eq!(ids, vec![10, 20, 40]);
    assert_eq!(Party::new().get_player_map_uuids(), Vec::<u128>::new());
    let mut slots = party.get_player_map_indices();
    slots.sort();
    assert_eq!(slots, vec![1, 2, 4]);

    let mut grown = seated(&[(1, 10)]);
    assert_eq!(grown.player_map_insert_player(&limit(3), &77), Ok(()));
    let listed = grown.get_player_map_uuids();
    assert_eq!(listed.iter().filter(|id| **id == 77).count(), 1);
    assert_eq!(listed.len(), 2);
}
