use tf_log_parser::date::DateTime;
use tf_log_parser::module::lobbysettings::{GameType, LobbySettingsError, LobbySettingsHandler,
    Location};

#[test]
fn test_lobby_settings_happy_path() {
    let mut h = LobbySettingsHandler::new();
    h.try_handle(b"TF2Center Lobby #1104271 | Sign-ups open");
    h.try_handle(b"Leader: somedude (76561198012345678)");
    h.try_handle(b"Map: cp_process_final");
    h.try_handle(b"GameType: 6v6");
    h.try_handle(b"Location: Europe");
    h.try_handle(b"Advanced Lobby: true");
    h.try_handle(b"Region lock: false");
    h.try_handle(b"Allow offclassing: true");
    h.try_handle(b"Balancing: false");
    h.try_handle(b"Restriction: none");
    h.try_handle(b"Mumble required: true");
    h.try_handle(b"Launch date: Thu Jul 05 20:00:00 CEST 2018");
    h.try_handle(b"Server: fakkelbrigade.eu:27045");
    let settings = h.finish().unwrap().unwrap();
    assert_eq!(1104271, settings.id);
    assert_eq!(b"somedude".to_vec(), settings.leader.name);
    assert_eq!(76561198012345678, settings.leader.steam_id);
    assert_eq!(b"cp_process_final".to_vec(), settings.map);
    assert_eq!(GameType::Sixes, settings.game_type);
    assert_eq!(Location::Europe, settings.location);
    assert!(settings.advanced);
    assert!(!settings.region_lock);
    assert!(settings.allow_offclassing);
    assert!(!settings.balancing);
    assert_eq!(b"none".to_vec(), settings.restriction);
    assert!(settings.mumble_required);
    let local = DateTime { year: 2018, month: 7, day: 5, hour: 20, minute: 0, second: 0 };
    assert_eq!(local.timestamp() - 7200, settings.date);
    assert_eq!(b"fakkelbrigade.eu:27045".to_vec(), settings.server);
}

#[test]
fn test_lobby_settings_unknown_game_type_fails() {
    let mut h = LobbySettingsHandler::new();
    h.try_handle(b"TF2Center Lobby #5 | x");
    h.try_handle(b"GameType: 9v9");
    match h.finish() {
        Some(Err(LobbySettingsError::UnknownGameType(v))) => assert_eq!(b"9v9".to_vec(), v),
        other => panic!("expected an unknown-game-type error, got {:?}", other.is_some()),
    }
}

#[test]
fn test_lobby_settings_unknown_timezone_fails() {
    let mut h = LobbySettingsHandler::new();
    h.try_handle(b"TF2Center Lobby #5 | x");
    h.try_handle(b"Launch date: Thu Jul 05 20:00:00 PDT 2018");
    match h.finish() {
        Some(Err(LobbySettingsError::UnknownTimezone(_))) => {}
        other => panic!("expected an unknown-timezone error, got {:?}", other.is_some()),
    }
}

#[test]
fn test_lobby_settings_bad_values_fail() {
    let mut h = LobbySettingsHandler::new();
    h.try_handle(b"TF2Center Lobby #nope | x");
    assert_eq!(Some(Err(LobbySettingsError::InvalidInt)), h.finish());
    let mut h = LobbySettingsHandler::new();
    h.try_handle(b"TF2Center Lobby #5 | x");
    h.try_handle(b"Balancing: maybe");
    assert_eq!(Some(Err(LobbySettingsError::InvalidBool)), h.finish());
    let mut h = LobbySettingsHandler::new();
    h.try_handle(b"TF2Center Lobby #5 | x");
    h.try_handle(b"Launch date: yesterday around CEST noon");
    assert_eq!(Some(Err(LobbySettingsError::InvalidDate)), h.finish());
    let mut h = LobbySettingsHandler::new();
    h.try_handle(b"TF2Center Lobby #5 | x");
    h.try_handle(b"Leader: nobody");
    assert_eq!(
        Some(Err(LobbySettingsError::MalformedLeader(b"nobody".to_vec()))),
        h.finish()
    );
}

#[test]
fn test_lobby_settings_silent_before_announcement() {
    let mut h = LobbySettingsHandler::new();
    h.try_handle(b"Map: cp_badlands");
    assert!(h.finish().is_none());
}
