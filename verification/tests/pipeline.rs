use tf_log_parser::common::{SteamId3, SubjectId, Team};
use tf_log_parser::error::Error;
use tf_log_parser::module::chat::ChatType;
use tf_log_parser::module::classstats::ClassStatsHandler;
use tf_log_parser::common::Class;
use tf_log_parser::event::{EventMeta, GameEvent};
use tf_log_parser::raw_event::RawEvent;
use tf_log_parser::module::lobbysettings::LobbyHandler;
use tf_log_parser::{parse, parse_with_handler, split_lines, LogHandler};

const INDIVIDUAL_BASE: u64 = 0x0110_0001_0000_0000;

fn lines(log: &[u8]) -> Vec<&[u8]> {
    split_lines(log)
}

#[test]
fn test_line_split_reconstructs_lines() {
    let log: &[u8] = b"\xef\xbb\xbfL first line\nL second line\nL third line\n";
    let got = lines(log);
    assert_eq!(
        vec![b"first line".as_slice(), b"second line".as_slice(), b"third line".as_slice()],
        got
    );
}

#[test]
fn test_empty_log_parses_to_nothing() {
    let (global, per) = parse(b"").unwrap();
    assert_eq!(0, global.chat.len());
    assert_eq!(0, per.len());
}

#[test]
fn test_chat_scenario() {
    let log = br#"L 08/06/2018 - 21:13:57: "Alice<1><[U:1:100]><Red>" say "hello""#;
    let (global, per) = parse(log).unwrap();
    assert_eq!(1, global.chat.len());
    let msg = &global.chat[0];
    assert_eq!(0, msg.time);
    assert_eq!(b"Alice".to_vec(), msg.name);
    assert_eq!(INDIVIDUAL_BASE + 100, msg.steam_id);
    assert_eq!(b"hello".to_vec(), msg.message);
    assert_eq!(ChatType::All, msg.chat_type);
    assert_eq!(1, per.len());
    assert_eq!(SteamId3(INDIVIDUAL_BASE + 100), per[0].0);
    assert_eq!(0, per[0].1.medic_stats.charge_count);
    assert_eq!(0, per[0].1.heal_spread.entries.len());
}

#[test]
fn test_steam3_rendering() {
    assert_eq!("[U:1:100]", SteamId3(INDIVIDUAL_BASE + 100).steam3());
    assert_eq!("[U:1:22202]", SteamId3(76561197960287930).steam3());
    assert_eq!(
        Some(76561197960287930),
        SubjectId::Player(22202).steam_id()
    );
}

#[test]
fn test_role_change_updates_class() {
    let line = br#"08/06/2018 - 21:13:57: "makxbi<27><[U:1:40364391]><Red>" changed role to "sniper""#;
    let raw = RawEvent::parse(line).unwrap();
    let event = GameEvent::parse(&raw).unwrap();
    let mut handler = ClassStatsHandler::new();
    let id = raw.subject.id();
    let mut stats = tf_log_parser::module::classstats::ClassStats::new();
    let meta = EventMeta { time: 0, subject: id };
    handler.handle(&meta, id, &mut stats, &event);
    assert_eq!(Some(Class::Sniper), handler.get_class_of(id));
}

#[test]
fn test_damage_accounting_scenario() {
    let log = br#"L 08/06/2018 - 21:13:50: World triggered "Round_Start"
L 08/06/2018 - 21:13:51: "Bob<2><[U:1:200]><Blue>" spawned as "medic"
L 08/06/2018 - 21:13:57: "Alice<1><[U:1:100]><Red>" triggered "damage" against "Bob<2><[U:1:200]><Blue>" (damage "80")
L 08/06/2018 - 21:14:00: Team "Red" triggered "Round_Win" (winner "Red")
L 08/06/2018 - 21:14:05: "Alice<1><[U:1:100]><Red>" triggered "damage" against "Bob<2><[U:1:200]><Blue>" (damage "50")
"#;
    let (_global, per) = parse(log).unwrap();
    let alice = per
        .iter()
        .find(|e| e.0 == SteamId3(INDIVIDUAL_BASE + 100))
        .unwrap();
    assert_eq!(80, alice.1.class_stats.damage.medic);
    assert_eq!(0, alice.1.class_stats.damage.scout);
}

#[test]
fn test_kill_scenario() {
    let log = br#"L 08/06/2018 - 21:13:50: World triggered "Round_Start"
L 08/06/2018 - 21:13:51: "Alice<1><[U:1:100]><Red>" spawned as "soldier"
L 08/06/2018 - 21:13:52: "Bob<2><[U:1:200]><Blue>" spawned as "medic"
L 08/06/2018 - 21:13:57: "Alice<1><[U:1:100]><Red>" killed "Bob<2><[U:1:200]><Blue>" with "rocketlauncher"
"#;
    let (_global, per) = parse(log).unwrap();
    let alice = per.iter().find(|e| e.0 == SteamId3(INDIVIDUAL_BASE + 100)).unwrap();
    let bob = per.iter().find(|e| e.0 == SteamId3(INDIVIDUAL_BASE + 200)).unwrap();
    assert_eq!(1, alice.1.class_stats.kills.medic);
    assert_eq!(1, bob.1.class_stats.deaths.soldier);
    assert_eq!(0, bob.1.class_stats.deaths.medic);
}

#[test]
fn test_inactive_round_records_nothing() {
    // No Round_Start: the kill and the damage must not be counted.
    let log = br#"L 08/06/2018 - 21:13:51: "Alice<1><[U:1:100]><Red>" spawned as "soldier"
L 08/06/2018 - 21:13:52: "Bob<2><[U:1:200]><Blue>" spawned as "medic"
L 08/06/2018 - 21:13:57: "Alice<1><[U:1:100]><Red>" killed "Bob<2><[U:1:200]><Blue>" with "rocketlauncher"
L 08/06/2018 - 21:13:58: "Alice<1><[U:1:100]><Red>" triggered "damage" against "Bob<2><[U:1:200]><Blue>" (damage "80")
"#;
    let (_global, per) = parse(log).unwrap();
    let alice = per.iter().find(|e| e.0 == SteamId3(INDIVIDUAL_BASE + 100)).unwrap();
    let bob = per.iter().find(|e| e.0 == SteamId3(INDIVIDUAL_BASE + 200)).unwrap();
    assert_eq!(0, alice.1.class_stats.kills.medic);
    assert_eq!(0, alice.1.class_stats.damage.medic);
    assert_eq!(0, bob.1.class_stats.deaths.soldier);
}

#[test]
fn test_truncation_tolerance_scenario() {
    // The first payload is malformed; the next event is 120 s later, so the
    // bad event is treated as combiner truncation and skipped.
    let log = br#"L 08/06/2018 - 21:13:57: "Alice<1><[U:1:100]><Red>" triggered "damage" against "Bob<2><[U:1:200]><Blue>" (damage "oops")
L 08/06/2018 - 21:15:57: "Alice<1><[U:1:100]><Red>" say "hello"
"#;
    let (global, per) = parse(log).unwrap();
    assert_eq!(1, global.chat.len());
    assert_eq!(b"hello".to_vec(), global.chat[0].message);
    assert!(!per.is_empty());
}

#[test]
fn test_malformed_event_aborts_when_next_is_close() {
    let log = br#"L 08/06/2018 - 21:13:57: "Alice<1><[U:1:100]><Red>" triggered "damage" against "Bob<2><[U:1:200]><Blue>" (damage "oops")
L 08/06/2018 - 21:13:59: "Alice<1><[U:1:100]><Red>" say "hello"
"#;
    match parse(log) {
        Err(Error::MalformedEvent(_)) => {}
        other => panic!("expected a malformed-event error, got {:?}", other.is_ok()),
    }
}

#[test]
fn test_charge_lifecycle_scenario() {
    // The first heal is the first observed event, so it lands at match time 0;
    // the build it starts must still be counted.
    let log = br#"L 08/06/2018 - 21:13:57: "Medic<5><[U:1:500]><Red>" triggered "first_heal_after_spawn" (time "1.5")
L 08/06/2018 - 21:14:37: "Medic<5><[U:1:500]><Red>" triggered "chargeready"
L 08/06/2018 - 21:14:38: "Medic<5><[U:1:500]><Red>" triggered "chargedeployed"
L 08/06/2018 - 21:14:46: "Medic<5><[U:1:500]><Red>" triggered "chargeended" (duration "8.0")
L 08/06/2018 - 21:14:52: "Medic<5><[U:1:500]><Red>" triggered "medic_death" (ubercharge "0")
"#;
    let (_global, per) = parse(log).unwrap();
    let medic = per.iter().find(|e| e.0 == SteamId3(INDIVIDUAL_BASE + 500)).unwrap();
    let stats = &medic.1.medic_stats;
    assert_eq!(0, stats.advantages_lost);
    assert_eq!(1, stats.charge_count);
    assert_eq!(0, stats.drops);
    assert_eq!(1, stats.deaths_after_uber);
    assert_eq!(1, stats.uber_build_count);
    assert_eq!(40, stats.total_time_to_build);
    assert_eq!(800, stats.total_uber_length);
    assert_eq!(8.0_f64, stats.total_uber_length as f64 / 100.0 / stats.charge_count as f64);
    assert_eq!(150, stats.total_time_before_healing);
    assert_eq!(1, stats.start_healing_count);
    assert_eq!(
        40.0_f64,
        stats.total_time_to_build as f64 / stats.uber_build_count as f64
    );
}

#[test]
fn test_death_without_uber_is_not_after_uber() {
    // A death in the first ten seconds of the match, with no charge ever
    // ended, is not a death after an uber.
    let log = br#"L 08/06/2018 - 21:13:57: "Medic<5><[U:1:500]><Red>" triggered "first_heal_after_spawn" (time "1.5")
L 08/06/2018 - 21:14:02: "Medic<5><[U:1:500]><Red>" triggered "medic_death" (ubercharge "0")
"#;
    let (_global, per) = parse(log).unwrap();
    let medic = per.iter().find(|e| e.0 == SteamId3(INDIVIDUAL_BASE + 500)).unwrap();
    assert_eq!(0, medic.1.medic_stats.deaths_after_uber);
}

#[test]
fn test_heal_spread_conservation_scenario() {
    let log = br#"L 08/06/2018 - 21:13:57: "Medic<5><[U:1:500]><Red>" triggered "healed" against "Bob<2><[U:1:200]><Blue>" (healing "72")
L 08/06/2018 - 21:13:58: "Medic<5><[U:1:500]><Red>" triggered "healed" against "Cara<3><[U:1:50]><Blue>" (healing "28")
L 08/06/2018 - 21:13:59: "Medic<5><[U:1:500]><Red>" triggered "healed" against "Bob<2><[U:1:200]><Blue>" (healing "10")
"#;
    let (_global, per) = parse(log).unwrap();
    let medic = per.iter().find(|e| e.0 == SteamId3(INDIVIDUAL_BASE + 500)).unwrap();
    let spread = &medic.1.heal_spread.entries;
    assert_eq!(2, spread.len());
    // Ordered by the recipient's steam64 id: Cara (50) before Bob (200).
    assert_eq!((INDIVIDUAL_BASE + 50, 28), spread[0]);
    assert_eq!((INDIVIDUAL_BASE + 200, 82), spread[1]);
    let total: u32 = spread.iter().map(|e| e.1).sum();
    assert_eq!(72 + 28 + 10, total);
}

#[test]
fn test_parse_is_deterministic() {
    let log = br#"L 08/06/2018 - 21:13:50: World triggered "Round_Start"
L 08/06/2018 - 21:13:51: "Bob<2><[U:1:200]><Blue>" spawned as "medic"
L 08/06/2018 - 21:13:57: "Alice<1><[U:1:100]><Red>" triggered "damage" against "Bob<2><[U:1:200]><Blue>" (damage "80")
L 08/06/2018 - 21:13:58: "Alice<1><[U:1:100]><Red>" say "gg"
"#;
    let first = parse(log).unwrap();
    let second = parse(log).unwrap();
    assert_eq!(first, second);
    // Canonical ordering: per-player entries ascend by steam id.
    let keys: Vec<u64> = first.1.iter().map(|e| e.0 .0).collect();
    let mut sorted = keys.clone();
    sorted.sort();
    assert_eq!(sorted, keys);
}

#[test]
fn test_parse_with_handler_runs_a_custom_stack() {
    // The lobby reader as a pluggable stack: console chat drives it.
    let log = br#"L 08/06/2018 - 21:13:57: "Console<0><Console><Console>" say "TF2Center Lobby #42 | x"
L 08/06/2018 - 21:13:58: "Console<0><Console><Console>" say "Map: cp_badlands"
"#;
    let (global, per) = parse_with_handler(log, LobbyHandler::new()).unwrap();
    let settings = global.unwrap().unwrap();
    assert_eq!(42, settings.id);
    assert_eq!(b"cp_badlands".to_vec(), settings.map);
    assert!(per.is_empty());
}

#[test]
fn test_parse_with_handler_matches_parse_on_default_stack() {
    let log = br#"L 08/06/2018 - 21:13:50: World triggered "Round_Start"
L 08/06/2018 - 21:13:51: "Bob<2><[U:1:200]><Blue>" spawned as "medic"
L 08/06/2018 - 21:13:57: "Alice<1><[U:1:100]><Red>" triggered "damage" against "Bob<2><[U:1:200]><Blue>" (damage "80")
L 08/06/2018 - 21:13:58: "Alice<1><[U:1:100]><Red>" say "gg"
"#;
    let direct = parse(log).unwrap();
    let generic = parse_with_handler(log, LogHandler::new()).unwrap();
    assert_eq!(direct.0.chat, generic.0.chat);
    assert_eq!(direct.1, generic.1);
}

#[test]
fn test_bots_and_teams_are_excluded_from_per_player_output() {
    let log = br#"L 08/06/2018 - 21:13:50: World triggered "Round_Start"
L 08/06/2018 - 21:13:51: "Numnutz<17><BOT><Red>" spawned as "medic"
L 08/06/2018 - 21:13:57: "Alice<1><[U:1:100]><Red>" say "hi"
"#;
    let (_global, per) = parse(log).unwrap();
    assert_eq!(1, per.len());
    assert_eq!(SteamId3(INDIVIDUAL_BASE + 100), per[0].0);
}

#[test]
fn test_console_chat_is_not_collected_as_player_chat() {
    let log = br#"L 08/06/2018 - 21:13:57: "Console<0><Console><Console>" say "TF2Center Lobby #123 | x"
L 08/06/2018 - 21:13:58: "Alice<1><[U:1:100]><Red>" say "hi"
"#;
    let (global, _per) = parse(log).unwrap();
    assert_eq!(1, global.chat.len());
    assert_eq!(b"hi".to_vec(), global.chat[0].message);
}

#[test]
fn test_team_subject_events_flow_through() {
    let log = br#"L 08/06/2018 - 21:13:50: World triggered "Round_Start"
L 08/06/2018 - 21:14:00: Team "Red" triggered "Round_Win" (winner "Red")
"#;
    let (global, per) = parse(log).unwrap();
    assert_eq!(0, global.chat.len());
    assert_eq!(0, per.len());
    let raw = RawEvent::parse(&log[2..54]).unwrap();
    assert_eq!(Team::Spectator, Team::default());
    assert!(matches!(raw.subject, tf_log_parser::raw_event::RawSubject::System(_)));
}
