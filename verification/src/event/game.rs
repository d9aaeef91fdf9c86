use vstd::prelude::*;

#[allow(unused_imports)]
use crate::common::{class_from_spec, team_from_spec, Class, Team};
use crate::error::Error;
use crate::event::keys::{is_key_cp, is_key_cpname, is_key_numcappers, key_numcappers, is_key_file, is_key_game, is_key_position, is_key_seconds, is_key_version, is_key_winner, key_cp, key_cpname, key_file, key_game, key_position, key_seconds, key_version, key_winner};
#[allow(unused_imports)]
use crate::event::{apply_all_view, apply_params, param_parse_with, param_parse_with_spec, param_pairs_spec,
    parse_triple, parse_triple_spec, quoted_value, quoted_value_spec, say_text, say_text_spec,
    EventFields};
#[allow(unused_imports)]
use crate::num::{parse_centi, parse_centi_spec, parse_u32, parse_u32_spec, parse_u8, parse_u8_spec};
#[allow(unused_imports)]
use crate::parsing::skip;
#[allow(unused_imports)]
use crate::raw_event::{against_subject_parser, against_subject_spec, RawSubject, RawSubjectView};

verus! {

#[derive(Debug, PartialEq, Eq)]
pub struct RoundWinEvent<'a> {
    pub team: Option<&'a [u8]>,
}

/// The mathematical shape of the payload.
pub struct RoundWinEventV {
    pub team: Option<Seq<u8>>,
}

impl<'a> View for RoundWinEvent<'a> {
    type V = RoundWinEventV;

    open spec fn view(&self) -> RoundWinEventV {
        RoundWinEventV {
            team: (match self.team { Some(x) => Some(x@), None => None }),
        }
    }
}

impl<'a> EventFields<'a> for RoundWinEvent<'a> {
    open spec fn apply_view(v: RoundWinEventV, key: Seq<u8>, value: Seq<u8>) -> Option<RoundWinEventV> {
        if key == key_winner() {
            Some(RoundWinEventV { team: Some(value), ..v })
        } else {
            Some(v)
        }
    }

    fn apply(self, key: &'a [u8], value: &'a [u8]) -> (r: Result<Self, Error>) {
        if is_key_winner(key) {
            Ok(RoundWinEvent { team: Some(value), ..self })
        } else {
            Ok(self)
        }
    }
}

/// What decoding this payload yields, over the parameter bytes.
pub open spec fn round_win_parse_spec(s: Seq<u8>) -> Option<RoundWinEventV> {
    apply_all_view::<RoundWinEvent<'static>>(
        RoundWinEventV { team: None },
        param_pairs_spec(s),
    )
}

impl<'a> RoundWinEvent<'a> {
    /// Decodes the payload from the parameter bytes.
    pub fn parse(input: &'a [u8]) -> (r: Result<Self, Error>)
        ensures
            match round_win_parse_spec(input@) {
                Some(v) => r matches Ok(ev) && ev@ == v,
                None => r is Err,
            },
    {
        apply_params(RoundWinEvent { team: None }, input)
    }
}

#[derive(Debug, PartialEq, Eq)]
pub struct RoundLengthEvent {
    pub length: Option<u32>,
}

/// The mathematical shape of the payload.
pub struct RoundLengthEventV {
    pub length: Option<u32>,
}

impl View for RoundLengthEvent {
    type V = RoundLengthEventV;

    open spec fn view(&self) -> RoundLengthEventV {
        RoundLengthEventV {
            length: (self.length),
        }
    }
}

impl<'a> EventFields<'a> for RoundLengthEvent {
    open spec fn apply_view(v: RoundLengthEventV, key: Seq<u8>, value: Seq<u8>) -> Option<RoundLengthEventV> {
        if key == key_seconds() {
            match parse_centi_spec(value) {
                Some(x) => Some(RoundLengthEventV { length: Some(x), ..v }),
                None => None,
            }
        } else {
            Some(v)
        }
    }

    fn apply(self, key: &'a [u8], value: &'a [u8]) -> (r: Result<Self, Error>) {
        if is_key_seconds(key) {
            match parse_centi(value) {
                Some(x) => Ok(RoundLengthEvent { length: Some(x), ..self }),
                None => Err(Error::Malformed),
            }
        } else {
            Ok(self)
        }
    }
}

/// What decoding this payload yields, over the parameter bytes.
pub open spec fn round_length_parse_spec(s: Seq<u8>) -> Option<RoundLengthEventV> {
    apply_all_view::<RoundLengthEvent>(
        RoundLengthEventV { length: None },
        param_pairs_spec(s),
    )
}

impl RoundLengthEvent {
    /// Decodes the payload from the parameter bytes.
    pub fn parse(input: &[u8]) -> (r: Result<Self, Error>)
        ensures
            match round_length_parse_spec(input@) {
                Some(v) => r matches Ok(ev) && ev@ == v,
                None => r is Err,
            },
    {
        apply_params(RoundLengthEvent { length: None }, input)
    }
}

#[derive(Debug, PartialEq, Eq)]
pub struct LogFileStartedEvent<'a> {
    pub file: Option<&'a [u8]>,
    pub game: Option<&'a [u8]>,
    pub version: Option<&'a [u8]>,
}

/// The mathematical shape of the payload.
pub struct LogFileStartedEventV {
    pub file: Option<Seq<u8>>,
    pub game: Option<Seq<u8>>,
    pub version: Option<Seq<u8>>,
}

impl<'a> View for LogFileStartedEvent<'a> {
    type V = LogFileStartedEventV;

    open spec fn view(&self) -> LogFileStartedEventV {
        LogFileStartedEventV {
            file: (match self.file { Some(x) => Some(x@), None => None }),
            game: (match self.game { Some(x) => Some(x@), None => None }),
            version: (match self.version { Some(x) => Some(x@), None => None }),
        }
    }
}

impl<'a> EventFields<'a> for LogFileStartedEvent<'a> {
    open spec fn apply_view(v: LogFileStartedEventV, key: Seq<u8>, value: Seq<u8>) -> Option<LogFileStartedEventV> {
        if key == key_file() {
            Some(LogFileStartedEventV { file: Some(value), ..v })
        } else if key == key_game() {
            Some(LogFileStartedEventV { game: Some(value), ..v })
        } else if key == key_version() {
            Some(LogFileStartedEventV { version: Some(value), ..v })
        } else {
            Some(v)
        }
    }

    fn apply(self, key: &'a [u8], value: &'a [u8]) -> (r: Result<Self, Error>) {
        if is_key_file(key) {
            Ok(LogFileStartedEvent { file: Some(value), ..self })
        } else if is_key_game(key) {
            Ok(LogFileStartedEvent { game: Some(value), ..self })
        } else if is_key_version(key) {
            Ok(LogFileStartedEvent { version: Some(value), ..self })
        } else {
            Ok(self)
        }
    }
}

/// What decoding this payload yields, over the parameter bytes.
pub open spec fn log_file_started_parse_spec(s: Seq<u8>) -> Option<LogFileStartedEventV> {
    apply_all_view::<LogFileStartedEvent<'static>>(
        LogFileStartedEventV { file: None, game: None, version: None },
        param_pairs_spec(s),
    )
}

impl<'a> LogFileStartedEvent<'a> {
    /// Decodes the payload from the parameter bytes.
    pub fn parse(input: &'a [u8]) -> (r: Result<Self, Error>)
        ensures
            match log_file_started_parse_spec(input@) {
                Some(v) => r matches Ok(ev) && ev@ == v,
                None => r is Err,
            },
    {
        apply_params(LogFileStartedEvent { file: None, game: None, version: None }, input)
    }
}

#[derive(Debug, PartialEq, Eq)]
pub struct CaptureBlockedEvent<'a> {
    pub cp: Option<u8>,
    pub cp_name: Option<&'a [u8]>,
    pub position: Option<(i32, i32, i32)>,
}

/// The mathematical shape of the payload.
pub struct CaptureBlockedEventV {
    pub cp: Option<u8>,
    pub cp_name: Option<Seq<u8>>,
    pub position: Option<(i32, i32, i32)>,
}

impl<'a> View for CaptureBlockedEvent<'a> {
    type V = CaptureBlockedEventV;

    open spec fn view(&self) -> CaptureBlockedEventV {
        CaptureBlockedEventV {
            cp: (self.cp),
            cp_name: (match self.cp_name { Some(x) => Some(x@), None => None }),
            position: (self.position),
        }
    }
}

impl<'a> EventFields<'a> for CaptureBlockedEvent<'a> {
    open spec fn apply_view(v: CaptureBlockedEventV, key: Seq<u8>, value: Seq<u8>) -> Option<CaptureBlockedEventV> {
        if key == key_cp() {
            match parse_u8_spec(value) {
                Some(x) => Some(CaptureBlockedEventV { cp: Some(x), ..v }),
                None => None,
            }
        } else if key == key_cpname() {
            Some(CaptureBlockedEventV { cp_name: Some(value), ..v })
        } else if key == key_position() {
            match parse_triple_spec(value) {
                Some(x) => Some(CaptureBlockedEventV { position: Some(x), ..v }),
                None => None,
            }
        } else {
            Some(v)
        }
    }

    fn apply(self, key: &'a [u8], value: &'a [u8]) -> (r: Result<Self, Error>) {
        if is_key_cp(key) {
            match parse_u8(value) {
                Some(x) => Ok(CaptureBlockedEvent { cp: Some(x), ..self }),
                None => Err(Error::Malformed),
            }
        } else if is_key_cpname(key) {
            Ok(CaptureBlockedEvent { cp_name: Some(value), ..self })
        } else if is_key_position(key) {
            let t = parse_triple(value)?;
            Ok(CaptureBlockedEvent { position: Some(t), ..self })
        } else {
            Ok(self)
        }
    }
}

/// What decoding this payload yields, over the parameter bytes.
pub open spec fn capture_blocked_parse_spec(s: Seq<u8>) -> Option<CaptureBlockedEventV> {
    apply_all_view::<CaptureBlockedEvent<'static>>(
        CaptureBlockedEventV { cp: None, cp_name: None, position: None },
        param_pairs_spec(s),
    )
}

impl<'a> CaptureBlockedEvent<'a> {
    /// Decodes the payload from the parameter bytes.
    pub fn parse(input: &'a [u8]) -> (r: Result<Self, Error>)
        ensures
            match capture_blocked_parse_spec(input@) {
                Some(v) => r matches Ok(ev) && ev@ == v,
                None => r is Err,
            },
    {
        apply_params(CaptureBlockedEvent { cp: None, cp_name: None, position: None }, input)
    }
}

#[derive(Debug, PartialEq, Eq)]
pub struct CurrentScoreEvent {
    pub score: u8,
    pub players: u8,
}

/// The mathematical shape of the payload.
pub struct CurrentScoreEventV {
    pub score: u8,
    pub players: u8,
}

impl View for CurrentScoreEvent {
    type V = CurrentScoreEventV;

    open spec fn view(&self) -> CurrentScoreEventV {
        CurrentScoreEventV {
            score: (self.score),
            players: (self.players),
        }
    }
}

/// What decoding this payload yields, over the parameter bytes.
pub open spec fn current_score_parse_spec(s: Seq<u8>) -> Option<CurrentScoreEventV> {
    let p0 = quoted_value_spec(s);
    if p0 is None {
        None
    } else {
        let f0 = parse_u8_spec((p0->0).0);
        if f0 is None {
            None
        } else {
            let p1 = param_parse_with_spec((p0->0).1, 4, false);
            if p1 is None {
                None
            } else {
                let f1 = parse_u8_spec((p1->0).0);
                if f1 is None {
                    None
                } else {
                    Some(CurrentScoreEventV { score: f0->0, players: f1->0 })
                }
            }
        }
    }
}

impl CurrentScoreEvent {
    /// Decodes the payload from the parameter bytes.
    pub fn parse(input: &[u8]) -> (r: Result<Self, Error>)
        ensures
            match current_score_parse_spec(input@) {
                Some(v) => r matches Ok(ev) && ev@ == v,
                None => r is Err,
            },
    {
        let (v0, rest0) = quoted_value(input)?;
        let f_score = match parse_u8(v0) { Some(x) => x, None => { return Err(Error::Malformed); } };
        let (v1, rest1) = param_parse_with(rest0, 4, false)?;
        let f_players = match parse_u8(v1) { Some(x) => x, None => { return Err(Error::Malformed); } };
        Ok(CurrentScoreEvent { score: f_score, players: f_players })
    }
}

#[derive(Debug, PartialEq, Eq)]
pub struct GameOverEvent<'a> {
    pub reason: &'a [u8],
}

/// The mathematical shape of the payload.
pub struct GameOverEventV {
    pub reason: Seq<u8>,
}

impl<'a> View for GameOverEvent<'a> {
    type V = GameOverEventV;

    open spec fn view(&self) -> GameOverEventV {
        GameOverEventV {
            reason: (self.reason@),
        }
    }
}

/// What decoding this payload yields, over the parameter bytes.
pub open spec fn game_over_parse_spec(s: Seq<u8>) -> Option<GameOverEventV> {
    let p0 = param_parse_with_spec(s, 6, false);
    if p0 is None {
        None
    } else {
        Some(GameOverEventV { reason: (p0->0).0 })
    }
}

impl<'a> GameOverEvent<'a> {
    /// Decodes the payload from the parameter bytes.
    pub fn parse(input: &'a [u8]) -> (r: Result<Self, Error>)
        ensures
            match game_over_parse_spec(input@) {
                Some(v) => r matches Ok(ev) && ev@ == v,
                None => r is Err,
            },
    {
        let (v0, rest0) = param_parse_with(input, 6, false)?;
        Ok(GameOverEvent { reason: v0 })
    }
}

#[derive(Debug, PartialEq, Eq)]
pub struct FinalScoreEvent {
    pub score: u8,
    pub players: u8,
}

/// The mathematical shape of the payload.
pub struct FinalScoreEventV {
    pub score: u8,
    pub players: u8,
}

impl View for FinalScoreEvent {
    type V = FinalScoreEventV;

    open spec fn view(&self) -> FinalScoreEventV {
        FinalScoreEventV {
            score: (self.score),
            players: (self.players),
        }
    }
}

/// What decoding this payload yields, over the parameter bytes.
pub open spec fn final_score_parse_spec(s: Seq<u8>) -> Option<FinalScoreEventV> {
    let p0 = quoted_value_spec(s);
    if p0 is None {
        None
    } else {
        let f0 = parse_u8_spec((p0->0).0);
        if f0 is None {
            None
        } else {
            let p1 = param_parse_with_spec((p0->0).1, 4, false);
            if p1 is None {
                None
            } else {
                let f1 = parse_u8_spec((p1->0).0);
                if f1 is None {
                    None
                } else {
                    Some(FinalScoreEventV { score: f0->0, players: f1->0 })
                }
            }
        }
    }
}

impl FinalScoreEvent {
    /// Decodes the payload from the parameter bytes.
    pub fn parse(input: &[u8]) -> (r: Result<Self, Error>)
        ensures
            match final_score_parse_spec(input@) {
                Some(v) => r matches Ok(ev) && ev@ == v,
                None => r is Err,
            },
    {
        let (v0, rest0) = quoted_value(input)?;
        let f_score = match parse_u8(v0) { Some(x) => x, None => { return Err(Error::Malformed); } };
        let (v1, rest1) = param_parse_with(rest0, 4, false)?;
        let f_players = match parse_u8(v1) { Some(x) => x, None => { return Err(Error::Malformed); } };
        Ok(FinalScoreEvent { score: f_score, players: f_players })
    }
}

/// The two team names announced when tournament mode starts.
#[derive(Debug, PartialEq, Eq)]
pub struct TournamentModeStartedEvent<'a> {
    pub blue: &'a [u8],
    pub red: &'a [u8],
}

/// The mathematical shape of the payload.
pub struct TournamentModeStartedEventV {
    pub blue: Seq<u8>,
    pub red: Seq<u8>,
}

impl<'a> View for TournamentModeStartedEvent<'a> {
    type V = TournamentModeStartedEventV;

    open spec fn view(&self) -> TournamentModeStartedEventV {
        TournamentModeStartedEventV { blue: self.blue@, red: self.red@ }
    }
}

/// What decoding this payload yields: the team names on the two lines
/// `Blue Team: ...` and `Red Team: ...` that follow the keyword.
pub open spec fn tournament_mode_started_parse_spec(s: Seq<u8>) -> Option<
    TournamentModeStartedEventV,
> {
    if s.len() < 12 {
        None
    } else {
        let t0 = s.subrange(12, s.len() as int);
        let k0 = crate::find::find_idx(t0, '\n' as u8);
        let blue = t0.subrange(0, k0);
        let t1 = if k0 == t0.len() {
            Seq::<u8>::empty()
        } else {
            t0.subrange(k0, t0.len() as int)
        };
        if t1.len() < 11 {
            None
        } else {
            let t2 = t1.subrange(11, t1.len() as int);
            let k2 = crate::find::find_idx(t2, '\n' as u8);
            Some(TournamentModeStartedEventV { blue, red: t2.subrange(0, k2) })
        }
    }
}

impl<'a> TournamentModeStartedEvent<'a> {
    /// Decodes the payload from the parameter bytes.
    pub fn parse(input: &'a [u8]) -> (r: Result<Self, Error>)
        ensures
            match tournament_mode_started_parse_spec(input@) {
                Some(v) => r matches Ok(ev) && ev@ == v,
                None => r is Err,
            },
    {
        let t0 = skip(input, 12)?;
        proof {
            crate::find::lemma_find_idx(t0@, '\n' as u8);
            if crate::find::find_idx(t0@, '\n' as u8) == t0@.len() {
                assert(t0@.subrange(0, t0@.len() as int) =~= t0@);
            }
        }
        let (at_nl, blue) = crate::parsing::take_until(t0, '\n' as u8);
        proof {
            crate::find::lemma_find_idx(at_nl@, '\n' as u8);
        }
        let t1 = skip(at_nl, 11)?;
        proof {
            crate::find::lemma_find_idx(t1@, '\n' as u8);
            if crate::find::find_idx(t1@, '\n' as u8) == t1@.len() {
                assert(t1@.subrange(0, t1@.len() as int) =~= t1@);
            }
        }
        let (_, red) = crate::parsing::take_until(t1, '\n' as u8);
        Ok(TournamentModeStartedEvent { blue, red })
    }
}

/// A point capture: the control point, its name, how many players capped, and
/// each capper with its position.
#[derive(Debug, PartialEq, Eq)]
pub struct PointCapturedEvent<'a> {
    pub cp: Option<u8>,
    pub cp_name: Option<&'a [u8]>,
    pub num_cappers: Option<u8>,
    pub players: Vec<(RawSubject<'a>, (i32, i32, i32))>,
}

/// The mathematical shape of the payload.
pub struct PointCapturedEventV {
    pub cp: Option<u8>,
    pub cp_name: Option<Seq<u8>>,
    pub num_cappers: Option<u8>,
    pub players: Seq<(RawSubjectView, (i32, i32, i32))>,
}

impl<'a> View for PointCapturedEvent<'a> {
    type V = PointCapturedEventV;

    open spec fn view(&self) -> PointCapturedEventV {
        PointCapturedEventV {
            cp: self.cp,
            cp_name: (match self.cp_name { Some(x) => Some(x@), None => None }),
            num_cappers: self.num_cappers,
            players: Seq::new(
                self.players@.len(),
                |i: int| (self.players@[i].0@, self.players@[i].1),
            ),
        }
    }
}

/// The known leading keys of a capture payload, folded into the fields; stops
/// without consuming at the first unknown key.
pub open spec fn pc_known_spec(cp: Option<u8>, cp_name: Option<Seq<u8>>, num_cappers: Option<u8>, s: Seq<u8>) -> Option<
    (Option<u8>, Option<Seq<u8>>, Option<u8>, Seq<u8>),
>
    decreases s.len() via pc_known_spec_decreases
{
    match crate::event::pair_parse_spec(s) {
        None => Some((cp, cp_name, num_cappers, s)),
        Some(step) => {
            let (rest, kv) = step;
            if kv.0 == key_cp() {
                match parse_u8_spec(kv.1) {
                    Some(x) => pc_known_spec(Some(x), cp_name, num_cappers, rest),
                    None => None,
                }
            } else if kv.0 == key_cpname() {
                pc_known_spec(cp, Some(kv.1), num_cappers, rest)
            } else if kv.0 == key_numcappers() {
                match parse_u8_spec(kv.1) {
                    Some(x) => pc_known_spec(cp, cp_name, Some(x), rest),
                    None => None,
                }
            } else {
                Some((cp, cp_name, num_cappers, s))
            }
        },
    }
}

#[via_fn]
proof fn pc_known_spec_decreases(cp: Option<u8>, cp_name: Option<Seq<u8>>, num_cappers: Option<u8>, s: Seq<u8>) {
    crate::event::lemma_pair_parse_consumes(s);
}

/// The trailing `playerN`/`positionN` pair list of a capture payload.
pub open spec fn pc_players_spec(
    acc: Seq<(RawSubjectView, (i32, i32, i32))>,
    s: Seq<u8>,
) -> Option<Seq<(RawSubjectView, (i32, i32, i32))>>
    decreases s.len() via pc_players_spec_decreases
{
    match crate::event::pair_parse_spec(s) {
        None => Some(acc),
        Some(step1) => {
            let (rest1, kv1) = step1;
            match crate::event::pair_parse_spec(rest1) {
                None => Some(acc),
                Some(step2) => {
                    let (rest2, kv2) = step2;
                    if key_player_prefix().is_prefix_of(kv1.0) && key_position_prefix().is_prefix_of(kv2.0) {
                        match parse_triple_spec(kv2.1) {
                            Some(t) => pc_players_spec(
                                acc + seq![(against_subject_spec(kv1.1), t)],
                                rest2,
                            ),
                            None => None,
                        }
                    } else {
                        Some(acc)
                    }
                },
            }
        },
    }
}

#[via_fn]
proof fn pc_players_spec_decreases(acc: Seq<(RawSubjectView, (i32, i32, i32))>, s: Seq<u8>) {
    crate::event::lemma_pair_parse_consumes(s);
    match crate::event::pair_parse_spec(s) {
        None => {},
        Some(step1) => {
            crate::event::lemma_pair_parse_consumes(step1.0);
        },
    }
}

pub open spec fn key_player_prefix() -> Seq<u8> {
    seq!['p' as u8, 'l' as u8, 'a' as u8, 'y' as u8, 'e' as u8, 'r' as u8]
}

pub open spec fn key_position_prefix() -> Seq<u8> {
    seq!['p' as u8, 'o' as u8, 's' as u8, 'i' as u8, 't' as u8, 'i' as u8, 'o' as u8, 'n' as u8]
}

fn player_prefix_bytes() -> (r: Vec<u8>)
    ensures
        r@ == key_player_prefix(),
{
    let mut k: Vec<u8> = Vec::new();
    k.push('p' as u8);
    k.push('l' as u8);
    k.push('a' as u8);
    k.push('y' as u8);
    k.push('e' as u8);
    k.push('r' as u8);
    proof {
        assert(k@ =~= key_player_prefix());
    }
    k
}

fn position_prefix_bytes() -> (r: Vec<u8>)
    ensures
        r@ == key_position_prefix(),
{
    let mut k: Vec<u8> = Vec::new();
    k.push('p' as u8);
    k.push('o' as u8);
    k.push('s' as u8);
    k.push('i' as u8);
    k.push('t' as u8);
    k.push('i' as u8);
    k.push('o' as u8);
    k.push('n' as u8);
    proof {
        assert(k@ =~= key_position_prefix());
    }
    k
}

/// What decoding a capture payload yields: the known keys, then the cappers.
pub open spec fn point_captured_parse_spec(s: Seq<u8>) -> Option<PointCapturedEventV> {
    match pc_known_spec(None, None, None, s) {
        None => None,
        Some(head) => {
            let (cp, cp_name, num_cappers, rest) = head;
            match pc_players_spec(Seq::empty(), rest) {
                None => None,
                Some(players) => Some(PointCapturedEventV { cp, cp_name, num_cappers, players }),
            }
        },
    }
}

impl<'a> PointCapturedEvent<'a> {
    /// Decodes the payload from the parameter bytes.
    pub fn parse(input: &'a [u8]) -> (r: Result<Self, Error>)
        ensures
            match point_captured_parse_spec(input@) {
                Some(v) => r matches Ok(ev) && ev@ == v,
                None => r is Err,
            },
    {
        let mut cp: Option<u8> = None;
        let mut cp_name: Option<&'a [u8]> = None;
        let mut num_cappers: Option<u8> = None;
        let mut cur: &'a [u8] = input;
        loop
            invariant
                pc_known_spec(None, None, None, input@) == pc_known_spec(
                    cp,
                    (match cp_name {
                        Some(x) => Some(x@),
                        None => None,
                    }),
                    num_cappers,
                    cur@,
                ),
            ensures
                pc_known_spec(None, None, None, input@) == Some(
                    (
                        cp,
                        match cp_name {
                            Some(x) => Some(x@),
                            None => None,
                        },
                        num_cappers,
                        cur@,
                    ),
                ),
            decreases cur@.len(),
        {
            match crate::event::param_pair_parse(cur) {
                Err(_) => {
                    break;
                },
                Ok((rest, kv)) => {
                    if is_key_cp(kv.0) {
                        match parse_u8(kv.1) {
                            Some(x) => {
                                cp = Some(x);
                                cur = rest;
                            },
                            None => {
                                return Err(Error::Malformed);
                            },
                        }
                    } else if is_key_cpname(kv.0) {
                        cp_name = Some(kv.1);
                        cur = rest;
                    } else if is_key_numcappers(kv.0) {
                        match parse_u8(kv.1) {
                            Some(x) => {
                                num_cappers = Some(x);
                                cur = rest;
                            },
                            None => {
                                return Err(Error::Malformed);
                            },
                        }
                    } else {
                        break;
                    }
                },
            }
        }
        let mut players: Vec<(RawSubject<'a>, (i32, i32, i32))> = Vec::new();
        let player_pat = player_prefix_bytes();
        let position_pat = position_prefix_bytes();
        let ghost head_rest = cur@;
        loop
            invariant
                player_pat@ == key_player_prefix(),
                position_pat@ == key_position_prefix(),
                pc_known_spec(None, None, None, input@) == Some(
                    (
                        cp,
                        match cp_name {
                            Some(x) => Some(x@),
                            None => None,
                        },
                        num_cappers,
                        head_rest,
                    ),
                ),
                pc_players_spec(Seq::empty(), head_rest) == pc_players_spec(
                    Seq::new(players@.len(), |i: int| (players@[i].0@, players@[i].1)),
                    cur@,
                ),
            ensures
                pc_players_spec(Seq::empty(), head_rest) == Some(
                    Seq::new(players@.len(), |i: int| (players@[i].0@, players@[i].1)),
                ),
            decreases cur@.len(),
        {
            let first = crate::event::param_pair_parse(cur);
            match first {
                Err(_) => {
                    break;
                },
                Ok((rest1, kv1)) => {
                    let second = crate::event::param_pair_parse(rest1);
                    match second {
                        Err(_) => {
                            break;
                        },
                        Ok((rest2, kv2)) => {
                            if crate::parsing::starts_with(kv1.0, player_pat.as_slice())
                                && crate::parsing::starts_with(kv2.0, position_pat.as_slice()) {
                                let subject = against_subject_parser(kv1.1)?;
                                let t = match parse_triple(kv2.1) {
                                    Ok(t) => t,
                                    Err(_) => {
                                        proof {
                                            assert(pc_players_spec(
                                                Seq::new(
                                                    players@.len(),
                                                    |i: int| (players@[i].0@, players@[i].1),
                                                ),
                                                cur@,
                                            ) is None);
                                        }
                                        return Err(Error::Malformed);
                                    },
                                };
                                let ghost old_players = Seq::new(
                                    players@.len(),
                                    |i: int| (players@[i].0@, players@[i].1),
                                );
                                players.push((subject, t));
                                proof {
                                    assert(Seq::new(
                                        players@.len(),
                                        |i: int| (players@[i].0@, players@[i].1),
                                    ) =~= old_players + seq![
                                        (against_subject_spec(kv1.1@), t),
                                    ]);
                                }
                                cur = rest2;
                            } else {
                                break;
                            }
                        },
                    }
                },
            }
        }
        Ok(PointCapturedEvent { cp, cp_name, num_cappers, players })
    }
}

} // verus!
