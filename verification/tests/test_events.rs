use bevy_easy_player_handler::{
    on_player_component_removal, on_player_component_spawned, BevyEasyPlayerHandlerPlugin,
    DBPlayer, Party, PlayerComponent, PlayerHandlerError, PlayerHandlerInterface, PlayerIdentity,
    PlayerType,
};
use std::collections::HashMap;
use uuid::Uuid;

fn live(uuid: u128, role: PlayerType, username: Option<&str>) -> PlayerComponent {
    PlayerComponent {
        player: PlayerIdentity {
            uuid,
            email: None,
            username: username.map(|name| name.to_string()),
            role,
        },
    }
}

fn seated(entries: &[(usize, u128)]) -> Party {
    let mut party = Party::new();
    for (slot, id) in entries {
        party.player_map.insert(*slot, *id);
    }
    party
}

fn slot_map(entries: &[(usize, u128)]) -> HashMap<usize, u128> {
    let mut map = HashMap::new();
    for (slot, id) in entries {
        map.insert(*slot, *id);
    }
    map
}

fn record(uuid: u128, email: &str, username: &str) -> DBPlayer {
    DBPlayer {
        uuid: Uuid::from_u128(uuid).to_string(),
        email: email.to_string(),
        username: username.to_string(),
    }
}

#[test]
fn test_spawned_player_is_seated_and_recorded() {
    let plugin = BevyEasyPlayerHandlerPlugin::init().party_size(3);
    let mut party = seated(&[(1, 10)]);
    let x: u128 = 0x00112233_4455_6677_8899_aabbccddeeff;
    let players = vec![
        live(10, PlayerType::PlayerMain, Some("host")),
        live(x, PlayerType::PlayerLocal, Some("guest")),
    ];
    let written = on_player_component_spawned(&mut party, &plugin, &players, 1).unwrap();
    assert_eq!(written.uuid, "00112233-4455-6677-8899-aabbccddeeff");
    assert_eq!(written.email, "guest");
    assert_eq!(written.username, "guest");
    assert_eq!(party.player_map, slot_map(&[(1, 10), (2, x)]));
    assert_eq!(party.active_player, 2);

    // A player who is seated already keeps the slot.
    let again = on_player_component_spawned(&mut party, &plugin, &players, 0).unwrap();
    assert_eq!(again.username, "host");
    assert_eq!(party.player_map, slot_map(&[(1, 10), (2, x)]));
    assert_eq!(party.active_player, 2);
}

#[test]
fn test_spawned_player_without_a_name_or_a_seat() {
    let plugin = BevyEasyPlayerHandlerPlugin::init().party_size(1);
    let mut party = seated(&[(1, 10)]);
    let players = vec![
        live(10, PlayerType::PlayerMain, None),
        live(11, PlayerType::PlayerRemote, None),
    ];
    let written = on_player_component_spawned(&mut party, &plugin, &players, 0).unwrap();
    assert_eq!(written.username, "Username Fetch Failed");
    assert_eq!(written.email, "Username Fetch Failed");
    assert_eq!(
        on_player_component_spawned(&mut party, &plugin, &players, 1).err(),
        Some(PlayerHandlerError::PartySizeAtSetLimit)
    );
    assert_eq!(party.player_map, slot_map(&[(1, 10)]));
    assert_eq!(party.active_player, 1);
    let unset = BevyEasyPlayerHandlerPlugin::init();
    assert_eq!(
        on_player_component_spawned(&mut party, &unset, &players, 1).err(),
        Some(PlayerHandlerError::PartySizeLimitMissing)
    );
    let small = BevyEasyPlayerHandlerPlugin::init().party_size(0);
    assert_eq!(
        on_player_component_spawned(&mut party, &small, &players, 1).err(),
        Some(PlayerHandlerError::PartySizeGreaterThanSetLimit)
    );
}

#[test]
fn test_spawned_player_takes_the_slot_above_a_gap() {
    let plugin = BevyEasyPlayerHandlerPlugin::init().party_size(5);
    let mut party = seated(&[(1, 10), (3, 30)]);
    let players = vec![
        live(10, PlayerType::PlayerMain, Some("host")),
        live(30, PlayerType::PlayerLocal, Some("guest")),
        live(40, PlayerType::PlayerRemote, Some("late")),
    ];
    assert!(on_player_component_spawned(&mut party, &plugin, &players, 2).is_ok());
    assert_eq!(party.player_map, slot_map(&[(1, 10), (3, 30), (4, 40)]));
    assert_eq!(party.active_player, 4);

    // A failed seating leaves the cursor where it was.
    let small = BevyEasyPlayerHandlerPlugin::init().party_size(3);
    let more = vec![live(50, PlayerType::PlayerRemote, None)];
    assert_eq!(
        on_player_component_spawned(&mut party, &small, &more, 0).err(),
        Some(PlayerHandlerError::PartySizeAtSetLimit)
    );
    assert_eq!(party.active_player, 4);
    assert_eq!(party.player_map.len(), 3);
}

#[test]
fn test_removal_frees_the_slots_of_players_who_are_gone() {
    let mut party = seated(&[(1, 10), (2, 20), (3, 30)]);
    party.main_player_uuid = Some(10);
    party.active_player = 3;
    let left = vec![
        live(10, PlayerType::PlayerMain, None),
        live(30, PlayerType::PlayerLocal, None),
    ];
    assert_eq!(on_player_component_removal(&mut party, &left), false);
    assert_eq!(party.player_map, slot_map(&[(1, 10), (3, 30)]));
    assert_eq!(party.active_player, 3);
    assert_eq!(party.main_player_uuid, Some(10));
}

#[test]
fn test_removal_of_the_main_player_asks_for_it_back() {
    let mut party = seated(&[(1, 10), (2, 20)]);
    party.main_player_uuid = Some(10);
    let left = vec![live(20, PlayerType::PlayerLocal, None)];
    assert_eq!(on_player_component_removal(&mut party, &left), true);
    assert_eq!(party.player_map, slot_map(&[(1, 10), (2, 20)]));
    assert_eq!(party.active_player, 1);

    let mut nobody = seated(&[(0, 5), (1, 10), (7, 20)]);
    assert_eq!(on_player_component_removal(&mut nobody, &Vec::new()), false);
    assert_eq!(nobody.player_map.len(), 0);
}

#[test]
fn test_start_up_finish_with_a_surviving_store() {
    let phi = PlayerHandlerInterface::get();
    let test_ref = (1u128, "reference".to_string(), "ref@example.com".to_string());
    let records = vec![record(1, "r", "r"), record(9, "m", "m")];
    let mut plugin = BevyEasyPlayerHandlerPlugin::init()
        .main_player_email("host@example.com")
        .main_player_username("host")
        .party_size(4)
        .build();

    // The live main player differs from the stored one: the stored id wins.
    let mut party = seated(&[(1, 5)]);
    let mut players = vec![live(5, PlayerType::PlayerMain, Some("host"))];
    let written = phi
        .start_up_protocol_finish(&records, &mut party, &mut players, &mut plugin, &test_ref)
        .unwrap();
    assert!(written.is_empty());
    assert_eq!(players[0].player.uuid, 9);
    assert_eq!(party.player_map, slot_map(&[(1, 9)]));
    assert_eq!(party.main_player_uuid, Some(9));
    assert_eq!(plugin.get_main_player_uuid(), Ok(Some(&9)));

    // The live main player agrees with the stored one: nothing changes.
    let mut settled = seated(&[(1, 7), (2, 9)]);
    let mut same = vec![live(9, PlayerType::PlayerMain, Some("host"))];
    let written = phi
        .start_up_protocol_finish(&records, &mut settled, &mut same, &mut plugin, &test_ref)
        .unwrap();
    assert!(written.is_empty());
    assert_eq!(settled.player_map, slot_map(&[(1, 7), (2, 9)]));
    assert_eq!(settled.main_player_uuid, None);

    // Nobody to reconcile.
    let mut empty: Vec<PlayerComponent> = Vec::new();
    assert_eq!(
        phi.start_up_protocol_finish(&records, &mut settled, &mut empty, &mut plugin, &test_ref)
            .err(),
        Some(PlayerHandlerError::MainPlayerMissing)
    );
    let broken = vec![
        record(1, "r", "r"),
        DBPlayer { uuid: "?".to_string(), email: String::new(), username: String::new() },
    ];
    assert_eq!(
        phi.start_up_protocol_finish(&broken, &mut settled, &mut same, &mut plugin, &test_ref)
            .err(),
        Some(PlayerHandlerError::UuidParsingFailed)
    );
    assert_eq!(
        phi.start_up_protocol_finish(&broken, &mut settled, &mut empty, &mut plugin, &test_ref)
            .err(),
        Some(PlayerHandlerError::UuidParsingFailed)
    );
}

#[test]
fn test_start_up_finish_with_an_empty_store() {
    let phi = PlayerHandlerInterface::get();
    let test_ref = (1u128, "reference".to_string(), "ref@example.com".to_string());
    let mut plugin = BevyEasyPlayerHandlerPlugin::init()
        .main_player_email("host@example.com")
        .main_player_username("host")
        .build();
    let mut party = seated(&[(1, 5), (2, 6)]);
    let mut players = vec![
        live(5, PlayerType::PlayerMain, Some("host")),
        live(6, PlayerType::PlayerLocal, Some("guest")),
    ];
    let one_record = vec![record(1, "r", "r")];
    let written = phi
        .start_up_protocol_finish(&one_record, &mut party, &mut players, &mut plugin, &test_ref)
        .unwrap();
    assert_eq!(written.len(), 2);
    assert_eq!(written[0].uuid, "00000000-0000-0000-0000-000000000001");
    assert_eq!(written[0].email, "reference");
    assert_eq!(written[0].username, "ref@example.com");
    assert_eq!(written[1].email, "host@example.com");
    assert_eq!(written[1].username, "host");
    assert_eq!(players.len(), 1);
    assert_eq!(party.get_player_count_party(&players), Ok(1));
    assert_eq!(party.player_map.len(), 1);
    assert_eq!(party.player_map.get(&1), Some(&players[0].player.uuid));
}
