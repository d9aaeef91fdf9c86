use tf_log_parser::event::game::{PointCapturedEvent, TournamentModeStartedEvent};
use tf_log_parser::event::medic::HealedEvent;
use tf_log_parser::event::player::{DamageEvent, KillEvent, SayEvent, SpawnEvent};
use tf_log_parser::common::Class;
use tf_log_parser::error::{Error, GameEventError};
use tf_log_parser::event::parse_triple;
use tf_log_parser::event::GameEvent;
use tf_log_parser::keywords::RawEventType;
use tf_log_parser::raw_event::{RawEvent, RawSubject};

#[test]
fn test_damage_payload() {
    let ev = DamageEvent::parse(br#"against "Bob<2><[U:1:200]><Blue>" (damage "80") (realdamage "60") (weapon "scattergun")"#)
        .unwrap();
    assert_eq!(
        RawSubject::Player(b"Bob<2><[U:1:200]><Blue>".as_slice()),
        ev.target
    );
    assert_eq!(Some(80), ev.damage);
    assert_eq!(Some(60), ev.real_damage);
    assert_eq!(Some(b"scattergun".as_slice()), ev.weapon);
}

#[test]
fn test_zero_damage_stays_absent() {
    let ev = DamageEvent::parse(br#"against "Bob<2><[U:1:200]><Blue>" (damage "0")"#).unwrap();
    assert_eq!(None, ev.damage);
}

#[test]
fn test_kill_payload() {
    let ev = KillEvent::parse(
        br#""Bob<2><[U:1:200]><Blue>" with "rocketlauncher" (attacker_position "1 2 3") (victim_position "-4 5 6")"#,
    )
    .unwrap();
    assert_eq!(RawSubject::Player(b"Bob<2><[U:1:200]><Blue>".as_slice()), ev.target);
    assert_eq!(b"rocketlauncher".as_slice(), ev.weapon);
    assert_eq!(Some((1, 2, 3)), ev.attacker_position);
    assert_eq!(Some((-4, 5, 6)), ev.victim_position);
}

#[test]
fn test_triple_error_kinds() {
    assert_eq!(Ok((1, 2, 3)), parse_triple(b"1 2 3"));
    assert_eq!(Err(Error::Incomplete), parse_triple(b"1 2"));
    assert_eq!(Err(Error::Malformed), parse_triple(b"a 2 3"));
}

#[test]
fn test_spawn_payload() {
    let ev = SpawnEvent::parse(br#"as "soldier""#).unwrap();
    assert_eq!(Some(Class::Soldier), ev.class);
}

#[test]
fn test_say_payload_tolerates_truncation() {
    let ev = SayEvent::parse(br#""hello""#).unwrap();
    assert_eq!(b"hello".as_slice(), ev.text);
    let truncated = SayEvent::parse(br#""hell"#).unwrap();
    assert_eq!(b"hell".as_slice(), truncated.text);
}

#[test]
fn test_healed_payload() {
    let ev = HealedEvent::parse(br#"against "Bob<2><[U:1:200]><Blue>" (healing "72")"#).unwrap();
    assert_eq!(72, ev.amount);
    assert!(ev.target.is_some());
}

#[test]
fn test_point_captured_payload() {
    let ev = PointCapturedEvent::parse(
        br##"(cp "0") (cpname "#gully_cap") (numcappers "2") (player1 "A<1><[U:1:1]><Red>") (position1 "1 2 3") (player2 "B<2><[U:1:2]><Red>") (position2 "4 5 6")"##,
    )
    .unwrap();
    assert_eq!(Some(0), ev.cp);
    assert_eq!(Some(b"#gully_cap".as_slice()), ev.cp_name);
    assert_eq!(Some(2), ev.num_cappers);
    assert_eq!(2, ev.players.len());
    assert_eq!(RawSubject::Player(b"A<1><[U:1:1]><Red>".as_slice()), ev.players[0].0);
    assert_eq!((1, 2, 3), ev.players[0].1);
    assert_eq!((4, 5, 6), ev.players[1].1);
}

#[test]
fn test_unsupported_tag_is_reported() {
    let line: &[u8] = br#"08/06/2018 - 21:13:57: "A<1><[U:1:1]><Red>" frobnicated wildly"#;
    let raw = RawEvent::parse(line).unwrap();
    assert_eq!(RawEventType::Unknown, raw.ty);
    match GameEvent::parse(&raw) {
        Err(GameEventError::Unsupported(t)) => assert_eq!(RawEventType::Unknown, t),
        other => panic!("expected an unsupported-tag error, got {:?}", other.is_ok()),
    }
}

#[test]
fn test_malformed_payload_keeps_tag_and_params() {
    let line: &[u8] =
        br#"08/06/2018 - 21:13:57: "A<1><[U:1:1]><Red>" triggered "damage" against "B<2><[U:1:2]><Blue>" (damage "oops")"#;
    let raw = RawEvent::parse(line).unwrap();
    match GameEvent::parse(&raw) {
        Err(GameEventError::Malformed { ty, params }) => {
            assert_eq!(RawEventType::Damage, ty);
            assert_eq!(raw.params.to_vec(), params);
        }
        other => panic!("expected a malformed-payload error, got {:?}", other.is_ok()),
    }
}

#[test]
fn test_tournament_mode_payload() {
    let ev = TournamentModeStartedEvent::parse(b"\nBlue Team: BLU\nRed Team: RED\n").unwrap();
    assert_eq!(b"BLU".as_slice(), ev.blue);
    assert_eq!(b"RED".as_slice(), ev.red);
}
