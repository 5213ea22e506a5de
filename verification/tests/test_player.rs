use bevy_easy_player_handler::{
    Player, PlayerAiLocal, PlayerAiRemote, PlayerFault, PlayerHandlerError, PlayerLocal,
    PlayerMain, PlayerRemote, PlayerType,
};
use uuid::Uuid;

const PLAYER_EMAIL: &str = "test@example.com";
const PLAYER_USERNAME: &str = "test_user";
const ALT_PLAYER_EMAIL: &str = "another_test@example.com";
const ALT_PLAYER_USERNAME: &str = "another_user";
const PLAYER_TYPE_AI_LOCAL: PlayerType = PlayerType::PlayerAiLocal;
const PLAYER_TYPE_AI_REMOTE: PlayerType = PlayerType::PlayerAiRemote;
const PLAYER_TYPE_LOCAL: PlayerType = PlayerType::PlayerLocal;
const PLAYER_TYPE_MAIN: PlayerType = PlayerType::PlayerMain;
const PLAYER_TYPE_REMOTE: PlayerType = PlayerType::PlayerRemote;

fn player_new_all_data<P: Player>(target_type: PlayerType) -> Result<(), PlayerHandlerError> {
    let email = Some(PLAYER_EMAIL.to_string());
    let username = Some(PLAYER_USERNAME.to_string());
    let uuid = Some(Uuid::now_v7().as_u128());

    let player = P::new(email.clone(), username.clone(), uuid, target_type);
    let player_email = player.get_player_email()?.to_owned();
    let player_type = player.get_player_type()?.to_owned();
    let player_username = player.get_player_username()?.to_owned();
    let player_uuid = player.get_player_id()?.to_owned();

    assert_eq!(Some(player_email), email);
    assert_eq!(Some(player_type), Some(target_type));
    assert_eq!(Some(player_username), username);
    assert_eq!(Some(player_uuid), uuid);
    Ok(())
}

fn player_new_uuid_missing<P: Player>(target_type: PlayerType) -> Result<(), PlayerHandlerError> {
    let email = Some(ALT_PLAYER_EMAIL.to_string());
    let username = Some(ALT_PLAYER_USERNAME.to_string());
    let player = P::new(email.clone(), username.clone(), None, target_type);

    let player_email = player.get_player_email()?.to_owned();
    let player_type = player.get_player_type()?.to_owned();
    let player_username = player.get_player_username()?.to_owned();
    let player_uuid = player.get_player_id()?.to_owned();

    assert_eq!(Some(player_email), email);
    assert_eq!(Some(player_type), Some(target_type));
    assert_eq!(Some(player_username), username);

    // Check that a new UUID was generated
    assert!(Uuid::from_u128(player_uuid).is_nil() == false);
    Ok(())
}

fn player_set<P: Player>(target_type: PlayerType) -> Result<(), PlayerHandlerError> {
    let email = Some(PLAYER_EMAIL.to_string());
    let username = Some(PLAYER_USERNAME.to_string());
    let uuid = Some(Uuid::now_v7().as_u128());

    let mut player = P::new(email.clone(), username.clone(), uuid.clone(), target_type);

    let new_uuid = Uuid::new_v4().as_u128();

    player.set_player_email(ALT_PLAYER_EMAIL)?;
    player.set_player_username(ALT_PLAYER_USERNAME)?;
    player.set_player_id(new_uuid.clone())?;

    let player_email = player.get_player_email()?.to_owned();
    let player_username = player.get_player_username()?.to_owned();
    let player_uuid = player.get_player_id()?.to_owned();

    assert_eq!(Some(player_email), Some(ALT_PLAYER_EMAIL.to_string()));
    assert_eq!(Some(player_username), Some(ALT_PLAYER_USERNAME.to_string()));
    assert_eq!(Some(player_uuid), Some(new_uuid));
    Ok(())
}

// --- PlayerAiLocal Tests --- //

#[test]
fn test_player_ai_local_new_all_data() -> Result<(), PlayerHandlerError> {
    player_new_all_data::<PlayerAiLocal>(PLAYER_TYPE_AI_LOCAL)
}

#[test]
fn test_player_ai_local_new_uuid_missing() -> Result<(), PlayerHandlerError> {
    player_new_uuid_missing::<PlayerAiLocal>(PLAYER_TYPE_AI_LOCAL)
}

#[test]
fn test_player_ai_local_set() -> Result<(), PlayerHandlerError> {
    player_set::<PlayerAiLocal>(PLAYER_TYPE_AI_LOCAL)
}

// --- PlayerAiRemote Tests --- //

#[test]
fn test_player_ai_remote_new_all_data() -> Result<(), PlayerHandlerError> {
    player_new_all_data::<PlayerAiRemote>(PLAYER_TYPE_AI_REMOTE)
}

#[test]
fn test_player_ai_remote_new_uuid_missing() -> Result<(), PlayerHandlerError> {
    player_new_uuid_missing::<PlayerAiRemote>(PLAYER_TYPE_AI_REMOTE)
}

#[test]
fn test_player_ai_remote_set() -> Result<(), PlayerHandlerError> {
    player_set::<PlayerAiRemote>(PLAYER_TYPE_AI_REMOTE)
}

// --- PlayerLocal Tests --- //

#[test]
fn test_player_local_new_all_data() -> Result<(), PlayerHandlerError> {
    player_new_all_data::<PlayerLocal>(PLAYER_TYPE_LOCAL)
}

#[test]
fn test_player_local_new_uuid_missing() -> Result<(), PlayerHandlerError> {
    player_new_uuid_missing::<PlayerLocal>(PLAYER_TYPE_LOCAL)
}

#[test]
fn test_player_local_set() -> Result<(), PlayerHandlerError> {
    player_set::<PlayerLocal>(PLAYER_TYPE_LOCAL)
}

// --- PlayerMain Tests --- //

#[test]
fn test_player_main_new_all_data() -> Result<(), PlayerHandlerError> {
    player_new_all_data::<PlayerMain>(PLAYER_TYPE_MAIN)
}

#[test]
fn test_player_main_new_uuid_missing() -> Result<(), PlayerHandlerError> {
    player_new_uuid_missing::<PlayerMain>(PLAYER_TYPE_MAIN)
}

#[test]
fn test_player_main_set() -> Result<(), PlayerHandlerError> {
    player_set::<PlayerMain>(PLAYER_TYPE_MAIN)
}

// --- PlayerRemote Tests --- //

#[test]
fn test_player_remote_new_all_data() -> Result<(), PlayerHandlerError> {
    player_new_all_data::<PlayerRemote>(PLAYER_TYPE_REMOTE)
}

#[test]
fn test_player_remote_new_uuid_missing() -> Result<(), PlayerHandlerError> {
    player_new_uuid_missing::<PlayerRemote>(PLAYER_TYPE_REMOTE)
}

#[test]
fn test_player_remote_set() -> Result<(), PlayerHandlerError> {
    player_set::<PlayerRemote>(PLAYER_TYPE_REMOTE)
}

// --- Failures of the getters and setters --- //

#[test]
fn test_player_getters_fail_on_unset_fields() {
    let ai = PlayerAiLocal::new(None, None, Some(1), PLAYER_TYPE_AI_LOCAL);
    assert_eq!(
        ai.get_player_email().err(),
        Some(PlayerHandlerError::PlayerAiCallFailed(PlayerFault::MissingEmail))
    );
    assert_eq!(
        ai.get_player_username().err(),
        Some(PlayerHandlerError::PlayerAiCallFailed(PlayerFault::MissingUsername))
    );
    let remote_ai = PlayerAiRemote::new(None, None, Some(1), PLAYER_TYPE_AI_REMOTE);
    assert_eq!(
        remote_ai.get_player_email().err(),
        Some(PlayerHandlerError::PlayerAiCallFailed(PlayerFault::MissingEmail))
    );
    let local = PlayerLocal::new(None, None, Some(1), PLAYER_TYPE_LOCAL);
    assert_eq!(
        local.get_player_email().err(),
        Some(PlayerHandlerError::PlayerLocalCallFailed(PlayerFault::MissingEmail))
    );
    let main = PlayerMain::new(None, None, Some(1), PLAYER_TYPE_MAIN);
    assert_eq!(
        main.get_player_username().err(),
        Some(PlayerHandlerError::PlayerMainCallFailed(PlayerFault::MissingUsername))
    );
    let remote = PlayerRemote::new(None, None, Some(1), PLAYER_TYPE_REMOTE);
    assert_eq!(
        remote.get_player_username().err(),
        Some(PlayerHandlerError::PlayerRemoteCallFailed(PlayerFault::MissingUsername))
    );
}

#[test]
fn test_player_setters_refuse_the_value_already_stored() {
    let mut player = PlayerLocal::new(
        Some(PLAYER_EMAIL.to_string()),
        Some(PLAYER_USERNAME.to_string()),
        Some(7),
        PLAYER_TYPE_LOCAL,
    );
    assert_eq!(
        player.set_player_email(PLAYER_EMAIL),
        Err(PlayerHandlerError::PlayerLocalCallFailed(PlayerFault::EmailUnchanged))
    );
    assert_eq!(
        player.set_player_username(PLAYER_USERNAME),
        Err(PlayerHandlerError::PlayerLocalCallFailed(PlayerFault::UsernameUnchanged))
    );
    assert_eq!(
        player.set_player_id(7),
        Err(PlayerHandlerError::PlayerLocalCallFailed(PlayerFault::IdUnchanged))
    );
    assert_eq!(player.get_player_email().unwrap(), PLAYER_EMAIL);
    assert_eq!(player.get_player_username().unwrap(), PLAYER_USERNAME);
    assert_eq!(*player.get_player_id().unwrap(), 7);
}

#[test]
fn test_player_setters_refuse_an_unset_field() {
    let mut player = PlayerMain::new(None, None, Some(7), PLAYER_TYPE_MAIN);
    assert_eq!(
        player.set_player_email(PLAYER_EMAIL),
        Err(PlayerHandlerError::PlayerMainCallFailed(PlayerFault::MissingEmail))
    );
    assert_eq!(
        player.set_player_username(PLAYER_USERNAME),
        Err(PlayerHandlerError::PlayerMainCallFailed(PlayerFault::MissingUsername))
    );
    assert!(player.get_player_email().is_err());
    assert!(player.get_player_username().is_err());
}
