use tf_log_parser::common::SubjectId;
use tf_log_parser::error::Error;
use tf_log_parser::keywords::RawEventType;
use tf_log_parser::parsing::find_between_end;
use tf_log_parser::raw_event::{split_player_subject, subject_parser, RawEvent, RawSubject};

#[test]
fn common_test_find_between_end() {
    assert_eq!(
        Some(b"foo".as_slice()),
        find_between_end(b"asd[foo]bar", b'[', b']')
    );
    assert_eq!(None, find_between_end(b"asd]foo[bar", b'[', b']'));
}

#[test]
fn parsing_test_find_between_end() {
    assert_eq!(
        Some(b"foo".as_slice()),
        find_between_end(b"asd[foo]bar", b'[', b']')
    );
    assert_eq!(None, find_between_end(b"asd]foo[bar", b'[', b']'));
}

#[test]
fn test_split_player_subject() {
    let (name, uid, steam, team) = split_player_subject(b"Fin<4><[U:1:129852188]><Blue>").unwrap();
    assert_eq!(
        (b"Fin".as_slice(), Some(b"4".as_slice()), b"[U:1:129852188]".as_slice(), b"Blue".as_slice()),
        (name, uid, steam, team)
    );
    let (name, uid, steam, team) =
        split_player_subject(b"Electra<3<8><[U:1:104485840]><Red>").unwrap();
    assert_eq!(
        (b"Electra<3".as_slice(), Some(b"8".as_slice()), b"[U:1:104485840]".as_slice(), b"Red".as_slice()),
        (name, uid, steam, team)
    );
    let (name, uid, steam, team) =
        split_player_subject(b"sorry, squidie<15><[U:1:83437541]><Red>").unwrap();
    assert_eq!(
        (b"sorry, squidie".as_slice(), Some(b"15".as_slice()), b"[U:1:83437541]".as_slice(), b"Red".as_slice()),
        (name, uid, steam, team)
    );
}

#[test]
fn test_subject_parser() {
    assert_eq!(
        (
            b"connected".as_slice(),
            RawSubject::Player(br#"Buddie :")<25><[U:1:123]><>"#.as_slice())
        ),
        subject_parser(br#""Buddie :")<25><[U:1:123]><>" connected"#).unwrap()
    );
}

#[test]
fn test_parse_raw() {
    let input: &[u8] =
        br#"08/06/2018 - 21:13:57: "makxbi<27><[U:1:40364391]><Red>" changed role to "sniper""#;
    let raw = RawEvent::parse(input).unwrap();
    assert_eq!(b"08/06/2018 - 21:13:57".as_slice(), raw.date.0);
    assert_eq!(
        RawSubject::Player(b"makxbi<27><[U:1:40364391]><Red>".as_slice()),
        raw.subject
    );
    assert_eq!(RawEventType::RoleChange, raw.ty);
    assert_eq!(br#"to "sniper""#.as_slice(), raw.params);
}

#[test]
fn test_short_line_is_skipped() {
    assert_eq!(Err(Error::Skip), RawEvent::parse(b"too short"));
}

#[test]
fn test_incomplete_subject_is_reported() {
    // 24+ bytes, and a team subject whose quote never closes.
    let line: &[u8] = b"08/06/2018 - 21:13:57: Team \"X";
    assert_eq!(Err(Error::Incomplete), RawEvent::parse(line));
}

#[test]
fn test_unknown_event_consumes_no_input() {
    let line: &[u8] = br#"08/06/2018 - 21:13:57: "A<1><[U:1:1]><Red>" frobnicated wildly"#;
    let raw = RawEvent::parse(line).unwrap();
    assert_eq!(RawEventType::Unknown, raw.ty);
    assert_eq!(b"frobnicated wildly".as_slice(), raw.params);
}

#[test]
fn test_longest_keyword_wins() {
    let line: &[u8] = br#"08/06/2018 - 21:13:57: "A<1><[U:1:1]><Red>" say_team "hi""#;
    let raw = RawEvent::parse(line).unwrap();
    assert_eq!(RawEventType::SayTeam, raw.ty);
}

#[test]
fn test_team_subjects() {
    // The seventh byte decides: lowercase `r` is Red, `b` is Blue, anything
    // else is read as a quoted team name and mapped to Spectator.
    let line: &[u8] = br#"08/06/2018 - 21:13:57: Team "red" triggered "Round_Win" (winner "Red")"#;
    let raw = RawEvent::parse(line).unwrap();
    assert_eq!(RawSubject::Team(tf_log_parser::common::Team::Red), raw.subject);
    assert_eq!(RawEventType::RoundWin, raw.ty);
    let cap: &[u8] = br#"08/06/2018 - 21:13:57: Team "Red" triggered "Round_Win" (winner "Red")"#;
    let raw2 = RawEvent::parse(cap).unwrap();
    assert_eq!(RawSubject::Team(tf_log_parser::common::Team::Spectator), raw2.subject);
}

#[test]
fn test_identity_is_stable_and_account_keyed() {
    let a = RawSubject::Player(b"Alice<1><[U:1:100]><Red>".as_slice());
    let b = RawSubject::Player(b"Zed<9><[U:1:100]><Blue>".as_slice());
    assert_eq!(a.id(), a.id());
    assert_eq!(SubjectId::Player(100), a.id());
    assert_eq!(a.id(), b.id());
}

#[test]
fn test_identity_bot_and_malformed() {
    let bot = RawSubject::Player(b"Numnutz<17><BOT><Red>".as_slice());
    assert_eq!(SubjectId::Bot(17), bot.id());
    let bad = RawSubject::Player(b"garbage".as_slice());
    assert_eq!(bad.id(), bad.id());
    match bad.id() {
        SubjectId::MalformedPlayer(_) => {}
        other => panic!("expected a malformed-player identity, got {:?}", other),
    }
}

#[test]
fn test_identity_steam2_descriptor() {
    // STEAM_0:0:50 is account 100 in the public universe.
    let s2 = RawSubject::Player(b"Joe<3><STEAM_0:0:50><Red>".as_slice());
    assert_eq!(SubjectId::Player(100), s2.id());
}
