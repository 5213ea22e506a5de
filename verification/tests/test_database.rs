use bevy_easy_player_handler::{
    BevyEasyPlayerHandlerPlugin, DBPlayer, Party, PlayerComponent, PlayerFault,
    PlayerHandlerError, PlayerHandlerInterface, PlayerIdentity, PlayerType,
};
use uuid::Uuid;

const PLAYER_EMAIL: &str = "test@example.com";
const PLAYER_USERNAME: &str = "test_user";

fn live(uuid: u128, role: PlayerType) -> PlayerComponent {
    PlayerComponent {
        player: PlayerIdentity {
            uuid,
            email: Some(PLAYER_EMAIL.to_string()),
            username: Some(PLAYER_USERNAME.to_string()),
            role,
        },
    }
}

fn record(uuid: u128, email: &str, username: &str) -> DBPlayer {
    DBPlayer {
        uuid: String::from(Uuid::from_u128(uuid)),
        email: email.to_string(),
        username: username.to_string(),
    }
}

fn configured(limit: usize) -> BevyEasyPlayerHandlerPlugin {
    BevyEasyPlayerHandlerPlugin::init()
        .main_player_email(PLAYER_EMAIL)
        .main_player_username(PLAYER_USERNAME)
        .party_size(limit)
        .build()
}

fn test_ref() -> (u128, String, String) {
    (
        0x11111111_2222_3333_4444_555555555555,
        "ref@example.com".to_string(),
        "reference".to_string(),
    )
}

#[test]
fn test_database_start_up_protocol() -> Result<(), PlayerHandlerError> {
    let plugin = configured(4);
    let id = Uuid::now_v7().as_u128();
    let main = PlayerHandlerInterface::start_up_protocol(&plugin, id)?;
    assert_eq!(main.player.uuid, id);
    assert_eq!(main.player.role, PlayerType::PlayerMain);
    assert_eq!(main.player.email, Some(PLAYER_EMAIL.to_string()));
    assert_eq!(main.player.username, Some(PLAYER_USERNAME.to_string()));

    let nameless = BevyEasyPlayerHandlerPlugin::init().main_player_email(PLAYER_EMAIL);
    assert_eq!(
        PlayerHandlerInterface::start_up_protocol(&nameless, id).err(),
        Some(PlayerHandlerError::PlayerMainCallFailed(PlayerFault::MissingUsername))
    );
    let blank = BevyEasyPlayerHandlerPlugin::init();
    assert_eq!(
        PlayerHandlerInterface::start_up_protocol(&blank, id).err(),
        Some(PlayerHandlerError::PlayerMainCallFailed(PlayerFault::MissingEmail))
    );
    Ok(())
}

#[test]
fn test_database_start_up_protocol_finish() -> Result<(), PlayerHandlerError> {
    // An empty store: the session is rebuilt, and two records are to be written.
    let phi = PlayerHandlerInterface::get();
    let mut plugin = configured(4);
    let mut party = Party::new();
    let live_id = Uuid::now_v7().as_u128();
    let mut players = vec![PlayerHandlerInterface::start_up_protocol(&plugin, live_id)?];
    party.player_map.insert(1, live_id);

    let records: Vec<DBPlayer> = Vec::new();
    let written = phi.pipeline_db_and_party_startup_test_ref_and_init_main_player(
        &records,
        &mut party,
        &mut players,
        &mut plugin,
        &test_ref(),
    )?;
    assert_eq!(written.len(), 2);
    assert_eq!(written[0].uuid, "11111111-2222-3333-4444-555555555555");
    assert_eq!(written[0].email, "ref@example.com");
    assert_eq!(written[0].username, "reference");
    assert_eq!(written[1].email, PLAYER_EMAIL);
    assert_eq!(written[1].username, PLAYER_USERNAME);
    assert_eq!(party.get_player_count_party(&players)?, 1);
    let main_id = *plugin.get_main_player_uuid()?.unwrap();
    assert_eq!(written[1].uuid, Uuid::from_u128(main_id).to_string());
    assert_eq!(party.player_map.len(), 1);
    assert_eq!(party.player_map.get(&1), Some(&main_id));
    assert_eq!(party.get_main_player_uuid()?, main_id);
    assert_eq!(players[0].player.uuid, main_id);
    assert_eq!(players[0].player.role, PlayerType::PlayerMain);

    // The store as just written: the party is in sync with it.
    assert_eq!(phi.query_party_and_db_main_player_synced(&written, &party, &players)?, true);
    Ok(())
}

#[test]
fn test_database_verify_if_party_size_exceeds_limit() -> Result<(), PlayerHandlerError> {
    let phi = PlayerHandlerInterface::get();
    let party = Party::new();
    let plugin = configured(2);
    let mut players = vec![live(1, PlayerType::PlayerMain)];
    assert_eq!(phi.verify_if_party_size_exceeds_limit(&plugin, &party, &players), Ok(()));
    players.push(live(2, PlayerType::PlayerLocal));
    assert_eq!(
        phi.verify_if_party_size_exceeds_limit(&plugin, &party, &players),
        Err(PlayerHandlerError::PartySizeAtSetLimit)
    );
    players.push(live(3, PlayerType::PlayerAiRemote));
    assert_eq!(
        phi.verify_if_party_size_exceeds_limit(&plugin, &party, &players),
        Err(PlayerHandlerError::PartySizeGreaterThanSetLimit)
    );
    assert_eq!(
        phi.verify_if_party_size_exceeds_limit(&BevyEasyPlayerHandlerPlugin::init(), &party, &players),
        Err(PlayerHandlerError::PartySizeLimitMissing)
    );
    Ok(())
}

#[test]
fn test_database_dbplayer() -> Result<(), PlayerHandlerError> {
    let new_uuid = Uuid::now_v7();
    let dbplayer = DBPlayer {
        uuid: String::from(new_uuid.clone()),
        email: String::from(PLAYER_EMAIL),
        username: String::from(PLAYER_USERNAME),
    };
    let ref_uuid = dbplayer.get_uuid_string();
    let ref_email = dbplayer.get_email_string();
    let ref_username = dbplayer.get_username_string();

    assert_eq!(ref_uuid, &String::from(new_uuid.clone()));
    assert_eq!(ref_email, &String::from(PLAYER_EMAIL));
    assert_eq!(ref_username, &String::from(PLAYER_USERNAME));
    Ok(())
}

#[test]
fn test_bootstrap_leaves_two_records_and_one_player() {
    let phi = PlayerHandlerInterface::get();
    let mut plugin = configured(3);
    let mut party = Party::new();
    party.player_map.insert(1, 900);
    party.player_map.insert(2, 901);
    let mut players = vec![live(900, PlayerType::PlayerMain), live(901, PlayerType::PlayerLocal)];
    let x: u128 = 0xa1a2a3a4_b1b2_c1c2_d1d2_d3d4d5d6d7d8;
    let written =
        phi.bootstrap_party(&mut party, &mut players, &mut plugin, &test_ref(), x).unwrap();
    assert_eq!(written.len(), 2);
    assert_eq!(written[1].uuid, "a1a2a3a4-b1b2-c1c2-d1d2-d3d4d5d6d7d8");
    assert_eq!(players.len(), 1);
    assert_eq!(party.get_player_count_party(&players), Ok(1));
    assert_eq!(party.player_map.len(), 1);
    assert_eq!(party.player_map.get(&1), Some(&x));
    assert_eq!(party.active_player, 1);
    assert_eq!(party.main_player_uuid, Some(x));
    assert_eq!(plugin.get_main_player_uuid().unwrap(), Some(&x));
    assert_eq!(players[0].player.email, None);
}

#[test]
fn test_bootstrap_needs_the_main_player_named() {
    let phi = PlayerHandlerInterface::get();
    let mut plugin = BevyEasyPlayerHandlerPlugin::init().main_player_username(PLAYER_USERNAME);
    let mut party = Party::new();
    party.player_map.insert(1, 900);
    let mut players = vec![live(900, PlayerType::PlayerMain)];
    assert_eq!(
        phi.bootstrap_party(&mut party, &mut players, &mut plugin, &test_ref(), 5).err(),
        Some(PlayerHandlerError::PlayerMainCallFailed(PlayerFault::MissingEmail))
    );
    assert_eq!(players.len(), 1);
    assert_eq!(party.player_map.get(&1), Some(&900));
    assert_eq!(plugin.get_main_player_uuid(), Ok(None));
}

#[test]
fn test_reconciliation_durable_id_wins() {
    let phi = PlayerHandlerInterface::get();
    let mut plugin = configured(3);
    let x: u128 = 0xa1a2a3a4_b1b2_c1c2_d1d2_d3d4d5d6d7d8;
    let y: u128 = 77;
    let mut party = Party::new();
    party.player_map.insert(1, y);
    party.player_map.insert(2, 78);
    party.main_player_uuid = Some(y);
    party.active_player = 2;
    let mut players = vec![live(y, PlayerType::PlayerMain), live(78, PlayerType::PlayerLocal)];
    let records = vec![record(test_ref().0, "r", "r"), record(x, PLAYER_EMAIL, PLAYER_USERNAME)];

    assert_eq!(phi.query_party_and_db_main_player_synced(&records, &party, &players), Ok(false));
    let changed =
        phi.pipeline_db_and_party_sync_main_player_uuids(&records, &mut party, &mut players, &mut plugin);
    assert_eq!(changed, Ok(true));
    assert_eq!(players[0].player.uuid, x);
    assert_eq!(players[0].player.role, PlayerType::PlayerMain);
    assert_eq!(players[1].player.uuid, 78);
    assert_eq!(party.player_map.get(&1), Some(&x));
    assert_eq!(party.player_map.get(&2), Some(&78));
    assert_eq!(party.main_player_uuid, Some(x));
    assert_eq!(party.active_player, 2);
    assert_eq!(plugin.get_main_player_uuid().unwrap(), Some(&x));
    assert_eq!(phi.query_party_and_db_main_player_synced(&records, &party, &players), Ok(true));

    // A second run finds nothing to change.
    let again =
        phi.pipeline_db_and_party_sync_main_player_uuids(&records, &mut party, &mut players, &mut plugin);
    assert_eq!(again, Ok(false));
    assert_eq!(players[0].player.uuid, x);
}

#[test]
fn test_reconciliation_failures() {
    let phi = PlayerHandlerInterface::get();
    let mut plugin = configured(3);
    let mut party = Party::new();
    party.player_map.insert(1, 5);
    let mut players = vec![live(5, PlayerType::PlayerMain)];

    let short = vec![record(1, "r", "r")];
    assert_eq!(
        phi.pipeline_db_and_party_sync_main_player_uuids(&short, &mut party, &mut players, &mut plugin),
        Err(PlayerHandlerError::MainPlayerMissing)
    );
    assert_eq!(
        phi.query_db_main_player(&short).err(),
        Some(PlayerHandlerError::MainPlayerMissing)
    );

    let broken = vec![
        record(1, "r", "r"),
        DBPlayer { uuid: "not a uuid".to_string(), email: String::new(), username: String::new() },
    ];
    assert_eq!(
        phi.pipeline_db_and_party_sync_main_player_uuids(&broken, &mut party, &mut players, &mut plugin),
        Err(PlayerHandlerError::UuidParsingFailed)
    );
    assert_eq!(
        phi.query_party_and_db_main_player_synced(&broken, &party, &players),
        Err(PlayerHandlerError::UuidParsingFailed)
    );
    assert_eq!(players[0].player.uuid, 5);
    assert_eq!(party.player_map.get(&1), Some(&5));

    let good = vec![record(1, "r", "r"), record(9, "m", "m")];
    let mut nobody_main = vec![live(5, PlayerType::PlayerLocal)];
    assert_eq!(
        phi.pipeline_db_and_party_sync_main_player_uuids(&good, &mut party, &mut nobody_main, &mut plugin),
        Err(PlayerHandlerError::MainPlayerMissing)
    );
    assert_eq!(
        phi.query_party_and_db_main_player_synced(&good, &party, &nobody_main),
        Err(PlayerHandlerError::MainPlayerMissing)
    );
    let empty: Vec<PlayerComponent> = Vec::new();
    assert_eq!(phi.query_party_and_db_main_player_synced(&good, &party, &empty), Ok(false));
}

#[test]
fn test_startup_adopts_the_stored_main_player() {
    let phi = PlayerHandlerInterface::get();
    let mut plugin = configured(3);
    let mut party = Party::new();
    let mut players = vec![live(5, PlayerType::PlayerMain)];
    let records = vec![record(1, "r", "r"), record(9, "m", "m"), record(10, "o", "PlayerLocal")];
    let written = phi
        .startup_test_ref_and_init_main_player(
            &records,
            &mut party,
            &mut players,
            &mut plugin,
            &test_ref(),
            12345,
        )
        .unwrap();
    assert!(written.is_empty());
    assert_eq!(players[0].player.uuid, 9);
    assert_eq!(party.player_map.get(&1), Some(&9));
    assert_eq!(party.main_player_uuid, Some(9));
}

#[test]
fn test_record_count_decides_whether_the_pair_exists() {
    let phi = PlayerHandlerInterface::get();
    assert_eq!(phi.query_db_test_ref_and_main_player_exists(0), Ok(false));
    assert_eq!(phi.query_db_test_ref_and_main_player_exists(1), Ok(false));
    assert_eq!(phi.query_db_test_ref_and_main_player_exists(2), Ok(true));
    assert_eq!(phi.query_db_test_ref_and_main_player_exists(-3), Ok(false));
}

#[test]
fn test_test_ref_info_reads_the_id() {
    let phi = PlayerHandlerInterface::get();
    let info = phi.test_ref_info(
        "a1a2a3a4-b1b2-c1c2-d1d2-d3d4d5d6d7d8",
        "reference".to_string(),
        "ref@example.com".to_string(),
    );
    assert_eq!(
        info,
        Ok((
            0xa1a2a3a4_b1b2_c1c2_d1d2_d3d4d5d6d7d8,
            "reference".to_string(),
            "ref@example.com".to_string()
        ))
    );
    assert_eq!(
        phi.test_ref_info("zz", String::new(), String::new()),
        Err(PlayerHandlerError::UuidParsingFailed)
    );
}

#[test]
fn test_add_player_from_db_to_party() {
    let phi = PlayerHandlerInterface::get();
    let plugin = configured(3);
    let party = Party::new();
    let mut players = vec![live(5, PlayerType::PlayerMain)];
    let records = vec![
        record(1, "r", "r"),
        record(5, "m", "m"),
        record(20, "a", "PlayerAiLocal"),
        record(21, "b", "PlayerLocal"),
        record(22, "c", "somebody"),
    ];
    assert_eq!(
        phi.pipeline_db_and_party_add_player_from_db_to_party(&records, 1, &1, &party, &mut players, &plugin),
        Err(PlayerHandlerError::TestReferencePlayer)
    );
    assert_eq!(
        phi.pipeline_db_and_party_add_player_from_db_to_party(&records, 1, &5, &party, &mut players, &plugin),
        Err(PlayerHandlerError::AlreadyInParty)
    );
    assert_eq!(
        phi.pipeline_db_and_party_add_player_from_db_to_party(&records, 1, &99, &party, &mut players, &plugin),
        Err(PlayerHandlerError::NotFound)
    );
    assert_eq!(players.len(), 1);

    assert_eq!(
        phi.pipeline_db_and_party_add_player_from_db_to_party(&records, 1, &20, &party, &mut players, &plugin),
        Ok(())
    );
    assert_eq!(players.len(), 2);
    assert_eq!(players[1].player.uuid, 20);
    assert_eq!(players[1].player.role, PlayerType::PlayerAiLocal);
    assert_eq!(players[1].player.username, Some("PlayerAiLocal".to_string()));
    assert_eq!(players[1].player.email, None);

    assert_eq!(
        phi.pipeline_db_and_party_add_player_from_db_to_party(&records, 1, &21, &party, &mut players, &plugin),
        Ok(())
    );
    assert_eq!(players[2].player.role, PlayerType::PlayerLocal);

    assert_eq!(
        phi.pipeline_db_and_party_add_player_from_db_to_party(&records, 1, &22, &party, &mut players, &plugin),
        Err(PlayerHandlerError::PartySizeAtSetLimit)
    );
    let roomy = configured(9);
    assert_eq!(
        phi.pipeline_db_and_party_add_player_from_db_to_party(&records, 1, &22, &party, &mut players, &roomy),
        Ok(())
    );
    assert_eq!(players[3].player.role, PlayerType::PlayerRemote);
    assert_eq!(players[3].player.username, Some("somebody".to_string()));
    let tight = configured(2);
    assert_eq!(
        phi.pipeline_db_and_party_add_player_from_db_to_party(&records, 1, &99, &party, &mut players, &tight),
        Err(PlayerHandlerError::PartySizeGreaterThanSetLimit)
    );
}

#[test]
fn test_add_main_player_from_db_to_party() {
    let phi = PlayerHandlerInterface::get();
    let mut players: Vec<PlayerComponent> = Vec::new();
    let records = vec![record(1, "r", "r"), record(5, "m", "host")];
    assert_eq!(
        phi.pipeline_db_and_party_add_main_player_from_db_to_party(&records, 1, &1, &mut players),
        Err(PlayerHandlerError::TestReferencePlayer)
    );
    assert_eq!(
        phi.pipeline_db_and_party_add_main_player_from_db_to_party(&records, 1, &6, &mut players),
        Err(PlayerHandlerError::NotFound)
    );
    assert!(players.is_empty());
    assert_eq!(
        phi.pipeline_db_and_party_add_main_player_from_db_to_party(&records, 1, &5, &mut players),
        Ok(())
    );
    assert_eq!(players.len(), 1);
    assert_eq!(players[0].player.uuid, 5);
    assert_eq!(players[0].player.role, PlayerType::PlayerMain);
    assert_eq!(players[0].player.username, Some("host".to_string()));
}

#[test]
fn test_action_remove_player() {
    let phi = PlayerHandlerInterface::get();
    let plugin = configured(3);
    let mut party = Party::new();
    party.player_map.insert(1, 5);
    party.player_map.insert(2, 6);
    party.player_map.insert(3, 7);
    party.main_player_uuid = Some(5);
    party.active_player = 3;
    let players = vec![
        live(5, PlayerType::PlayerMain),
        live(6, PlayerType::PlayerLocal),
        live(7, PlayerType::PlayerRemote),
    ];
    assert_eq!(
        phi.pipeline_db_and_party_action_remove_player(1, &mut party, &players, &1, &plugin),
        Err(PlayerHandlerError::TestReferencePlayer)
    );
    assert_eq!(
        phi.pipeline_db_and_party_action_remove_player(1, &mut party, &players, &5, &plugin),
        Err(PlayerHandlerError::ProtectedPlayer)
    );
    assert_eq!(
        phi.pipeline_db_and_party_action_remove_player(1, &mut party, &players, &42, &plugin),
        Ok(())
    );
    // The cached main player is refused whoever is live.
    assert_eq!(
        phi.pipeline_db_and_party_action_remove_player(1, &mut party, &Vec::new(), &5, &plugin),
        Err(PlayerHandlerError::ProtectedPlayer)
    );
    assert_eq!(
        phi.pipeline_db_and_party_action_remove_player(1, &mut party, &Vec::new(), &6, &plugin),
        Ok(())
    );
    assert_eq!(party.player_map.len(), 3);
    assert_eq!(
        phi.pipeline_db_and_party_action_remove_player(1, &mut party, &players, &6, &plugin),
        Ok(())
    );
    assert_eq!(party.player_map.len(), 2);
    assert_eq!(party.player_map.get(&1), Some(&5));
    assert_eq!(party.player_map.get(&2), Some(&7));
    assert_eq!(party.active_player, 2);
}

#[test]
fn test_action_remove_player_protects_the_main_player_not_a_position() {
    let phi = PlayerHandlerInterface::get();
    let plugin = configured(4).main_player_uuid(&8);
    let mut party = Party::new();
    party.player_map.insert(1, 6);
    party.player_map.insert(2, 7);
    party.player_map.insert(3, 8);
    party.player_map.insert(4, 9);
    party.main_player_uuid = Some(9);
    let players = vec![
        live(6, PlayerType::PlayerLocal),
        live(7, PlayerType::PlayerMain),
        live(8, PlayerType::PlayerRemote),
        live(9, PlayerType::PlayerRemote),
    ];
    // By role, by configuration, by the party's cache.
    for target in [7u128, 8, 9] {
        assert_eq!(
            phi.pipeline_db_and_party_action_remove_player(1, &mut party, &players, &target, &plugin),
            Err(PlayerHandlerError::ProtectedPlayer)
        );
        assert_eq!(party.player_map.len(), 4);
        assert_eq!(party.active_player, 1);
    }
    // The first live player is not the main player here, and may leave.
    assert_eq!(
        phi.pipeline_db_and_party_action_remove_player(1, &mut party, &players, &6, &plugin),
        Ok(())
    );
    assert_eq!(party.player_map.len(), 3);
    assert_eq!(party.player_map.get(&1), Some(&7));
    assert_eq!(party.player_map.get(&2), Some(&8));
    assert_eq!(party.player_map.get(&3), Some(&9));
    // A live player who sits in no slot.
    let guest = vec![live(70, PlayerType::PlayerLocal)];
    assert_eq!(
        phi.pipeline_db_and_party_action_remove_player(1, &mut party, &guest, &70, &plugin),
        Err(PlayerHandlerError::NotFound)
    );
}

#[test]
fn test_add_new_synced_players() {
    let phi = PlayerHandlerInterface::get();
    let plugin = configured(3);
    let mut party = Party::new();
    let mut players = vec![live(5, PlayerType::PlayerMain)];
    assert_eq!(
        phi.pipeline_db_and_party_add_new_synced_player_local(&mut party, &mut players, &plugin, "second"),
        Ok(())
    );
    assert_eq!(players.len(), 2);
    assert_eq!(players[1].player.role, PlayerType::PlayerLocal);
    assert_eq!(players[1].player.username, Some("second".to_string()));
    assert_eq!(players[1].player.email, None);
    assert_ne!(players[1].player.uuid, 0);
    assert_eq!(party.active_player, 1);
    assert_eq!(
        phi.pipeline_db_and_party_add_new_synced_player_ai_local(&mut party, &mut players, &plugin, "bot"),
        Ok(())
    );
    assert_eq!(players[2].player.role, PlayerType::PlayerAiLocal);
    assert_ne!(players[2].player.uuid, players[1].player.uuid);
    assert_eq!(party.active_player, 2);
    assert_eq!(
        phi.pipeline_db_and_party_add_new_synced_player_local(&mut party, &mut players, &plugin, "late"),
        Err(PlayerHandlerError::PartySizeAtSetLimit)
    );
    assert_eq!(players.len(), 3);
    assert_eq!(
        phi.add_new_synced_player(&mut party, &mut players, &configured(9), "x", PlayerType::PlayerRemote, 44),
        Ok(())
    );
    assert_eq!(players[3].player.uuid, 44);
    assert_eq!(party.active_player, 3);
    assert_eq!(
        phi.add_new_synced_player(
            &mut party,
            &mut players,
            &BevyEasyPlayerHandlerPlugin::init(),
            "x",
            PlayerType::PlayerRemote,
            45
        ),
        Err(PlayerHandlerError::PartySizeLimitMissing)
    );
    assert_eq!(players.len(), 4);
}
