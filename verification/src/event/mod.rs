use vstd::prelude::*;

use crate::common::SubjectId;
use crate::error::GameEventError;
use crate::event::game::{CaptureBlockedEvent, CurrentScoreEvent, CaptureBlockedEventV,
    CurrentScoreEventV, FinalScoreEvent, FinalScoreEventV, GameOverEvent, GameOverEventV,
    LogFileStartedEvent, LogFileStartedEventV, PointCapturedEvent, PointCapturedEventV,
    RoundLengthEvent, RoundLengthEventV, RoundWinEvent, RoundWinEventV,
    TournamentModeStartedEvent, TournamentModeStartedEventV};
use crate::event::medic::{AdvantageLostEvent, AdvantageLostEventV, ChargeDeployedEvent,
    ChargeDeployedEventV, ChargeEndedEvent, ChargeEndedEventV, FirstHealEvent, FirstHealEventV,
    HealedEvent, HealedEventV, MedicDeathEvent, MedicDeathEventV, MedicDeathExEvent,
    MedicDeathExEventV};
use crate::event::player::{BuiltCarryEvent, BuiltCarryEventV, BuiltObjectEvent,
    BuiltObjectEventV, CommittedSuicideEvent, CommittedSuicideEventV, ConnectedEvent,
    ConnectedEventV, DamageEvent, DamageEventV, DisconnectEvent, DisconnectEventV,
    DominationEvent, DominationEventV, DropObjectEvent, DropObjectEventV, ExtinguishedEvent,
    ExtinguishedEventV, JoinedTeamEvent, JoinedTeamEventV, KillAssistEvent, KillAssistEventV,
    KillEvent, KillEventV, KilledObjectEvent, KilledObjectEventV, ObjectDetonatedEvent,
    ObjectDetonatedEventV, PickedUpEvent, PickedUpEventV, RevengeEvent, RevengeEventV,
    RoleChangeEvent, RoleChangeEventV, SayEvent, SayEventV, SayTeamEvent, SayTeamEventV,
    ShotFiredEvent, ShotFiredEventV, ShotHitEvent, ShotHitEventV, SpawnEvent, SpawnEventV};
use crate::raw_event::{RawEvent, RawEventType};
use crate::error::Error;
use crate::find::{find_idx, lemma_find_idx};
use crate::num::{parse_i32, parse_i32_spec};
use crate::parsing::{skip, skip_matches, split_once, split_subject_end, subject_end_needle};

pub mod game;
pub mod keys;
pub mod medic;
pub mod player;

verus! {

/// What a handler learns beside the event itself: the match-relative time in
/// whole seconds and the identity of the subject that triggered the event.
#[derive(Debug, Clone, Copy, PartialEq, Eq, Structural)]
pub struct EventMeta {
    pub time: u32,
    pub subject: SubjectId,
}

/// An event payload that is handed on without decoding.
#[derive(Debug, PartialEq, Eq)]
pub struct UnparsedEvent<'a> {
    pub params: &'a [u8],
}

impl<'a> View for UnparsedEvent<'a> {
    type V = Seq<u8>;

    open spec fn view(&self) -> Seq<u8> {
        self.params@
    }
}

/// What one `key "value"` pair parse yields: the remaining input and the pair;
/// nothing when no full pair is left. A single leading space and an optional
/// enclosing parenthesis are consumed with the pair.
pub open spec fn pair_parse_spec(s: Seq<u8>) -> Option<(Seq<u8>, (Seq<u8>, Seq<u8>))> {
    let s0 = if s.len() > 0 && s[0] == ' ' as u8 {
        s.subrange(1, s.len() as int)
    } else {
        s
    };
    let opened = s0.len() > 0 && s0[0] == '(' as u8;
    let s1 = if opened {
        s0.subrange(1, s0.len() as int)
    } else {
        s0
    };
    let k = find_idx(s1, ' ' as u8);
    if k == s1.len() {
        None
    } else {
        let key = s1.subrange(0, k);
        let s2 = s1.subrange(k + 1, s1.len() as int);
        if s2.len() < 1 {
            None
        } else {
            let s3 = s2.subrange(1, s2.len() as int);
            let q = find_idx(s3, '"' as u8);
            if q == s3.len() {
                None
            } else {
                let value = s3.subrange(0, q);
                let s4 = s3.subrange(q + 1, s3.len() as int);
                if opened {
                    if s4.len() < 1 {
                        None
                    } else {
                        Some((s4.subrange(1, s4.len() as int), (key, value)))
                    }
                } else {
                    Some((s4, (key, value)))
                }
            }
        }
    }
}

/// A full pair parse consumes at least one byte.
pub proof fn lemma_pair_parse_consumes(s: Seq<u8>)
    ensures
        pair_parse_spec(s) matches Some(step) ==> step.0.len() < s.len(),
{
    let s0 = if s.len() > 0 && s[0] == ' ' as u8 {
        s.subrange(1, s.len() as int)
    } else {
        s
    };
    let opened = s0.len() > 0 && s0[0] == '(' as u8;
    let s1 = if opened {
        s0.subrange(1, s0.len() as int)
    } else {
        s0
    };
    lemma_find_idx(s1, ' ' as u8);
    let k = find_idx(s1, ' ' as u8);
    if k < s1.len() {
        let s2 = s1.subrange(k + 1, s1.len() as int);
        if s2.len() >= 1 {
            let s3 = s2.subrange(1, s2.len() as int);
            lemma_find_idx(s3, '"' as u8);
        }
    }
}

/// The `(key, value)` pairs read from a parameter blob, first to last.
pub open spec fn param_pairs_spec(s: Seq<u8>) -> Seq<(Seq<u8>, Seq<u8>)>
    decreases s.len() via param_pairs_spec_decreases
{
    match pair_parse_spec(s) {
        None => Seq::empty(),
        Some(step) => seq![step.1] + param_pairs_spec(step.0),
    }
}

#[via_fn]
proof fn param_pairs_spec_decreases(s: Seq<u8>) {
    lemma_pair_parse_consumes(s);
}

/// Parses one `key "value"` pair, returning the remaining input and the pair.
pub fn param_pair_parse<'a>(input: &'a [u8]) -> (r: Result<
    (&'a [u8], (&'a [u8], &'a [u8])),
    Error,
>)
    ensures
        match pair_parse_spec(input@) {
            Some(step) => r matches Ok(p) && p.0@ == step.0 && p.1.0@ == step.1.0 && p.1.1@
                == step.1.1 && p.0@.len() < input@.len(),
            None => r matches Err(Error::Incomplete),
        },
{
    proof {
        lemma_pair_parse_consumes(input@);
    }
    let (input, _) = skip_matches(input, ' ' as u8);
    let (input, opened) = skip_matches(input, '(' as u8);
    proof {
        lemma_find_idx(input@, ' ' as u8);
    }
    let (key, rest) = split_once(input, ' ' as u8, 1)?;
    let rest = skip(rest, 1)?;
    proof {
        lemma_find_idx(rest@, '"' as u8);
    }
    let (value, rest) = split_once(rest, '"' as u8, 1)?;
    let rest = if opened {
        skip(rest, 1)?
    } else {
        rest
    };
    Ok((rest, (key, value)))
}

/// A scanning iterator over the `(key, value)` pairs of a parameter blob.
pub struct ParamIter<'a> {
    pub input: &'a [u8],
}

impl<'a> ParamIter<'a> {
    pub fn new(input: &'a [u8]) -> (r: Self)
        ensures
            r.input@ == input@,
    {
        ParamIter { input }
    }

    /// The next pair, if a full one is left.
    pub fn next(&mut self) -> (r: Option<(&'a [u8], &'a [u8])>)
        ensures
            match pair_parse_spec(old(self).input@) {
                Some(step) => r matches Some(kv) && kv.0@ == step.1.0 && kv.1@ == step.1.1
                    && final(self).input@ == step.0,
                None => r is None && final(self).input@ == old(self).input@,
            },
    {
        match param_pair_parse(self.input) {
            Ok((rest, kv)) => {
                self.input = rest;
                Some(kv)
            },
            Err(_) => None,
        }
    }
}

/// A payload whose optional fields are filled from named parameters.
pub trait EventFields<'a>: View + Sized {
    /// The effect of one named parameter on the payload: the updated payload,
    /// or nothing when the value text is malformed for a recognised key.
    spec fn apply_view(v: Self::V, key: Seq<u8>, value: Seq<u8>) -> Option<Self::V>;

    /// Applies one `key "value"` pair to the payload.
    fn apply(self, key: &'a [u8], value: &'a [u8]) -> (r: Result<Self, Error>)
        ensures
            match Self::apply_view(self@, key@, value@) {
                Some(v) => r matches Ok(ev) && ev@ == v,
                None => r is Err,
            },
    ;
}

/// The payload after every pair is applied in order; nothing when one fails.
pub open spec fn apply_all_view<'a, T: EventFields<'a>>(
    v: T::V,
    pairs: Seq<(Seq<u8>, Seq<u8>)>,
) -> Option<T::V>
    decreases pairs.len(),
{
    if pairs.len() == 0 {
        Some(v)
    } else {
        match T::apply_view(v, pairs[0].0, pairs[0].1) {
            Some(v2) => apply_all_view::<T>(v2, pairs.drop_first()),
            None => None,
        }
    }
}

/// Fills a payload's optional fields from the parameter blob's pairs.
pub fn apply_params<'a, T: EventFields<'a>>(ev: T, input: &'a [u8]) -> (r: Result<T, Error>)
    ensures
        match apply_all_view::<T>(ev@, param_pairs_spec(input@)) {
            Some(v) => r matches Ok(out) && out@ == v,
            None => r is Err,
        },
{
    let ghost full = param_pairs_spec(input@);
    let mut cur = ev;
    let mut rest = input;
    loop
        invariant
            full == param_pairs_spec(input@),
            apply_all_view::<T>(ev@, full) == apply_all_view::<T>(
                cur@,
                param_pairs_spec(rest@),
            ),
        decreases rest@.len(),
    {
        let step = param_pair_parse(rest);
        match step {
            Err(_) => {
                proof {
                    assert(param_pairs_spec(rest@) =~= Seq::<(Seq<u8>, Seq<u8>)>::empty());
                }
                return Ok(cur);
            },
            Ok((next, kv)) => {
                proof {
                    assert(param_pairs_spec(rest@) == seq![(kv.0@, kv.1@)] + param_pairs_spec(
                        next@,
                    ));
                    assert(param_pairs_spec(rest@)[0] == (kv.0@, kv.1@));
                    assert(param_pairs_spec(rest@).drop_first() =~= param_pairs_spec(next@));
                }
                let applied = cur.apply(kv.0, kv.1);
                match applied {
                    Err(e) => {
                        proof {
                            assert(apply_all_view::<T>(cur@, param_pairs_spec(rest@)) is None);
                        }
                        return Err(e);
                    },
                    Ok(c2) => {
                        cur = c2;
                        rest = next;
                    },
                }
            },
        }
    }
}

/// What extracting a required named parameter yields: the value text and the
/// remaining input. The key text itself is skipped by length, as the grammar
/// fixes the order of required parameters; a subject-valued parameter ends at
/// the two-byte `>"` terminator instead of the first quote, because player
/// names may contain quotes.
pub open spec fn param_parse_with_spec(s: Seq<u8>, key_len: int, subject_mode: bool) -> Option<
    (Seq<u8>, Seq<u8>),
> {
    let opened = s.len() > 0 && s[0] == '(' as u8;
    let s0 = if opened {
        s.subrange(1, s.len() as int)
    } else {
        s
    };
    if s0.len() < key_len + 2 {
        None
    } else {
        let s1 = s0.subrange(key_len + 2, s0.len() as int);
        if subject_mode {
            let f = findseq_idx_local(s1);
            if f == s1.len() {
                None
            } else {
                let value = s1.subrange(0, f + 1);
                let s2 = s1.subrange(f + 2, s1.len() as int);
                param_with_tail(value, s2, opened)
            }
        } else {
            let q = find_idx(s1, '"' as u8);
            if q == s1.len() {
                None
            } else {
                let value = s1.subrange(0, q);
                let s2 = s1.subrange(q + 1, s1.len() as int);
                param_with_tail(value, s2, opened)
            }
        }
    }
}

pub open spec fn findseq_idx_local(s: Seq<u8>) -> int {
    crate::find::findseq_idx(s, subject_end_needle())
}

/// The closing parenthesis and the following separator space, consumed.
pub open spec fn param_with_tail(value: Seq<u8>, s2: Seq<u8>, opened: bool) -> Option<
    (Seq<u8>, Seq<u8>),
> {
    if opened {
        if s2.len() < 1 {
            None
        } else {
            let s3 = s2.subrange(1, s2.len() as int);
            if s3.len() >= 1 {
                Some((value, s3.subrange(1, s3.len() as int)))
            } else {
                Some((value, s3))
            }
        }
    } else {
        if s2.len() >= 1 {
            Some((value, s2.subrange(1, s2.len() as int)))
        } else {
            Some((value, s2))
        }
    }
}

/// Extracts a required named parameter's value; `key_len` is the length of its
/// key text.
pub fn param_parse_with<'a>(input: &'a [u8], key_len: usize, subject_mode: bool) -> (r: Result<
    (&'a [u8], &'a [u8]),
    Error,
>)
    requires
        key_len <= 1000,
    ensures
        match param_parse_with_spec(input@, key_len as int, subject_mode) {
            Some(exp) => r matches Ok(p) && p.0@ == exp.0 && p.1@ == exp.1,
            None => r matches Err(Error::Incomplete),
        },
{
    let (input, opened) = skip_matches(input, '(' as u8);
    let rest = skip(input, key_len + 2)?;
    let (value, rest) = if subject_mode {
        proof {
            crate::find::lemma_findseq_idx(rest@, subject_end_needle());
        }
        split_subject_end(rest, 1)?
    } else {
        proof {
            lemma_find_idx(rest@, '"' as u8);
        }
        split_once(rest, '"' as u8, 1)?
    };
    let rest = if opened {
        skip(rest, 1)?
    } else {
        rest
    };
    let rest = match skip(rest, 1) {
        Ok(r2) => r2,
        Err(_) => rest,
    };
    Ok((value, rest))
}

/// What a quoted positional field yields: the text inside the quotes and the
/// remaining input.
pub open spec fn quoted_value_spec(s: Seq<u8>) -> Option<(Seq<u8>, Seq<u8>)> {
    if s.len() < 1 {
        None
    } else {
        let s1 = s.subrange(1, s.len() as int);
        let q = find_idx(s1, '"' as u8);
        if q == s1.len() {
            None
        } else {
            Some((s1.subrange(0, q), s1.subrange(q + 1, s1.len() as int)))
        }
    }
}

/// Reads a quoted positional field.
pub fn quoted_value<'a>(input: &'a [u8]) -> (r: Result<(&'a [u8], &'a [u8]), Error>)
    ensures
        match quoted_value_spec(input@) {
            Some(exp) => r matches Ok(p) && p.0@ == exp.0 && p.1@ == exp.1,
            None => r matches Err(Error::Incomplete),
        },
{
    let rest = skip(input, 1)?;
    proof {
        lemma_find_idx(rest@, '"' as u8);
    }
    let (value, rest) = split_once(rest, '"' as u8, 1)?;
    Ok((value, rest))
}

/// A string with any leading and trailing quotes removed.
pub open spec fn trim_quotes_spec(s: Seq<u8>) -> Seq<u8>
    decreases s.len(),
{
    if s.len() > 0 && s[0] == '"' as u8 {
        trim_quotes_spec(s.subrange(1, s.len() as int))
    } else if s.len() > 0 && s[s.len() - 1] == '"' as u8 {
        trim_quotes_spec(s.subrange(0, s.len() - 1))
    } else {
        s
    }
}

/// Removes leading and trailing quotes.
pub fn trim_quotes<'a>(input: &'a [u8]) -> (r: &'a [u8])
    ensures
        r@ == trim_quotes_spec(input@),
{
    let mut lo: usize = 0;
    let mut hi: usize = input.len();
    proof {
        assert(input@.subrange(0, input@.len() as int) =~= input@);
    }
    while lo < hi && input[lo] == '"' as u8
        invariant
            0 <= lo <= hi <= input@.len(),
            trim_quotes_spec(input@) == trim_quotes_spec(input@.subrange(lo as int, hi as int)),
            hi == input@.len(),
        decreases hi - lo,
    {
        proof {
            assert(input@.subrange(lo as int, hi as int).subrange(1, (hi - lo) as int)
                =~= input@.subrange(lo + 1, hi as int));
        }
        lo += 1;
    }
    while lo < hi && input[hi - 1] == '"' as u8
        invariant
            0 <= lo <= hi <= input@.len(),
            trim_quotes_spec(input@) == trim_quotes_spec(input@.subrange(lo as int, hi as int)),
            lo < hi ==> input@[lo as int] != '"' as u8,
        decreases hi - lo,
    {
        proof {
            assert(input@.subrange(lo as int, hi as int).subrange(0, (hi - lo - 1) as int)
                =~= input@.subrange(lo as int, hi - 1));
        }
        hi -= 1;
    }
    &input[lo..hi]
}

/// What the text field of a chat event is: the quoted text when the quotes
/// close, else everything with stray quotes trimmed (truncation tolerance).
pub open spec fn say_text_spec(s: Seq<u8>) -> Seq<u8> {
    match quoted_value_spec(s) {
        Some(p) => p.0,
        None => trim_quotes_spec(s),
    }
}

/// Reads a chat text field.
pub fn say_text<'a>(input: &'a [u8]) -> (r: &'a [u8])
    ensures
        r@ == say_text_spec(input@),
{
    match quoted_value(input) {
        Ok((value, _)) => value,
        Err(_) => trim_quotes(input),
    }
}

/// What a coordinate triple `x y z` denotes, when well formed.
pub open spec fn parse_triple_spec(s: Seq<u8>) -> Option<(i32, i32, i32)> {
    let k1 = find_idx(s, ' ' as u8);
    if k1 == s.len() {
        None
    } else {
        let x = parse_i32_spec(s.subrange(0, k1));
        let t = s.subrange(k1 + 1, s.len() as int);
        let k2 = find_idx(t, ' ' as u8);
        if k2 == t.len() {
            None
        } else {
            let y = parse_i32_spec(t.subrange(0, k2));
            let z = parse_i32_spec(t.subrange(k2 + 1, t.len() as int));
            if x is Some && y is Some && z is Some {
                Some((x->0, y->0, z->0))
            } else {
                None
            }
        }
    }
}

/// Which error a malformed coordinate triple reports: `Incomplete` when a
/// separating space is missing, `Malformed` when a component is not a number.
pub open spec fn parse_triple_err_spec(s: Seq<u8>) -> Error {
    let k1 = find_idx(s, ' ' as u8);
    if k1 == s.len() {
        Error::Incomplete
    } else {
        let t = s.subrange(k1 + 1, s.len() as int);
        if find_idx(t, ' ' as u8) == t.len() {
            Error::Incomplete
        } else {
            Error::Malformed
        }
    }
}

/// Parses a coordinate triple.
pub fn parse_triple(s: &[u8]) -> (r: Result<(i32, i32, i32), Error>)
    ensures
        match parse_triple_spec(s@) {
            Some(v) => r matches Ok(got) && got == v,
            None => r matches Err(e) && e == parse_triple_err_spec(s@),
        },
{
    proof {
        lemma_find_idx(s@, ' ' as u8);
    }
    let (xs, rest) = split_once(s, ' ' as u8, 1)?;
    proof {
        lemma_find_idx(rest@, ' ' as u8);
    }
    let (ys, zs) = split_once(rest, ' ' as u8, 1)?;
    let x = match parse_i32(xs) {
        Some(v) => v,
        None => {
            return Err(Error::Malformed);
        },
    };
    let y = match parse_i32(ys) {
        Some(v) => v,
        None => {
            return Err(Error::Malformed);
        },
    };
    let z = match parse_i32(zs) {
        Some(v) => v,
        None => {
            return Err(Error::Malformed);
        },
    };
    Ok((x, y, z))
}

/// A fully decoded event, dispatched on the raw event type.
#[derive(Debug, PartialEq, Eq)]
pub enum GameEvent<'a> {
    ShotFired(ShotFiredEvent<'a>),
    ShotHit(ShotHitEvent<'a>),
    Damage(DamageEvent<'a>),
    Killed(KillEvent<'a>),
    KillAssist(KillAssistEvent<'a>),
    Say(SayEvent<'a>),
    SayTeam(SayTeamEvent<'a>),
    Healed(HealedEvent<'a>),
    ChargeDeployed(ChargeDeployedEvent<'a>),
    ChargeEnded(ChargeEndedEvent),
    AdvantageLost(AdvantageLostEvent),
    FirstHeal(FirstHealEvent),
    ChargeReady,
    MedicDeath(MedicDeathEvent),
    MedicDeathEx(MedicDeathExEvent),
    Spawned(SpawnEvent),
    RoleChange(RoleChangeEvent),
    RoundStart,
    RoundWin(RoundWinEvent<'a>),
    RoundLength(RoundLengthEvent),
    RoundOverTime,
    LogFileStarted(LogFileStartedEvent<'a>),
    Connected(ConnectedEvent<'a>),
    Disconnect(DisconnectEvent<'a>),
    SteamIdValidated,
    Entered,
    Joined(JoinedTeamEvent),
    Suicide(CommittedSuicideEvent<'a>),
    PickedUp(PickedUpEvent<'a>),
    Domination(DominationEvent<'a>),
    EmptyUber,
    Revenge(RevengeEvent<'a>),
    TournamentModeStarted(TournamentModeStartedEvent<'a>),
    CaptureBlocked(CaptureBlockedEvent<'a>),
    PointCaptured(PointCapturedEvent<'a>),
    CurrentScore(CurrentScoreEvent),
    BuiltObject(BuiltObjectEvent<'a>),
    DropObject(DropObjectEvent<'a>),
    CarryObject(BuiltCarryEvent<'a>),
    KilledObject(KilledObjectEvent<'a>),
    Extinguished(ExtinguishedEvent<'a>),
    GameOver(GameOverEvent<'a>),
    FinalScore(FinalScoreEvent),
    ObjectDetonated(ObjectDetonatedEvent<'a>),
    Request(UnparsedEvent<'a>),
    Response(UnparsedEvent<'a>),
    LogFileClosed,
}

/// The mathematical shape of a decoded event.
pub enum GameEventV {
    ShotFired(ShotFiredEventV),
    ShotHit(ShotHitEventV),
    Damage(DamageEventV),
    Killed(KillEventV),
    KillAssist(KillAssistEventV),
    Say(SayEventV),
    SayTeam(SayTeamEventV),
    Healed(HealedEventV),
    ChargeDeployed(ChargeDeployedEventV),
    ChargeEnded(ChargeEndedEventV),
    AdvantageLost(AdvantageLostEventV),
    FirstHeal(FirstHealEventV),
    ChargeReady,
    MedicDeath(MedicDeathEventV),
    MedicDeathEx(MedicDeathExEventV),
    Spawned(SpawnEventV),
    RoleChange(RoleChangeEventV),
    RoundStart,
    RoundWin(RoundWinEventV),
    RoundLength(RoundLengthEventV),
    RoundOverTime,
    LogFileStarted(LogFileStartedEventV),
    Connected(ConnectedEventV),
    Disconnect(DisconnectEventV),
    SteamIdValidated,
    Entered,
    Joined(JoinedTeamEventV),
    Suicide(CommittedSuicideEventV),
    PickedUp(PickedUpEventV),
    Domination(DominationEventV),
    EmptyUber,
    Revenge(RevengeEventV),
    TournamentModeStarted(TournamentModeStartedEventV),
    CaptureBlocked(CaptureBlockedEventV),
    PointCaptured(PointCapturedEventV),
    CurrentScore(CurrentScoreEventV),
    BuiltObject(BuiltObjectEventV),
    DropObject(DropObjectEventV),
    CarryObject(BuiltCarryEventV),
    KilledObject(KilledObjectEventV),
    Extinguished(ExtinguishedEventV),
    GameOver(GameOverEventV),
    FinalScore(FinalScoreEventV),
    ObjectDetonated(ObjectDetonatedEventV),
    Request(Seq<u8>),
    Response(Seq<u8>),
    LogFileClosed,
}

impl<'a> View for GameEvent<'a> {
    type V = GameEventV;

    open spec fn view(&self) -> GameEventV {
        match self {
            GameEvent::ShotFired(ev) => GameEventV::ShotFired(ev@),
            GameEvent::ShotHit(ev) => GameEventV::ShotHit(ev@),
            GameEvent::Damage(ev) => GameEventV::Damage(ev@),
            GameEvent::Killed(ev) => GameEventV::Killed(ev@),
            GameEvent::KillAssist(ev) => GameEventV::KillAssist(ev@),
            GameEvent::Say(ev) => GameEventV::Say(ev@),
            GameEvent::SayTeam(ev) => GameEventV::SayTeam(ev@),
            GameEvent::Healed(ev) => GameEventV::Healed(ev@),
            GameEvent::ChargeDeployed(ev) => GameEventV::ChargeDeployed(ev@),
            GameEvent::ChargeEnded(ev) => GameEventV::ChargeEnded(ev@),
            GameEvent::AdvantageLost(ev) => GameEventV::AdvantageLost(ev@),
            GameEvent::FirstHeal(ev) => GameEventV::FirstHeal(ev@),
            GameEvent::ChargeReady => GameEventV::ChargeReady,
            GameEvent::MedicDeath(ev) => GameEventV::MedicDeath(ev@),
            GameEvent::MedicDeathEx(ev) => GameEventV::MedicDeathEx(ev@),
            GameEvent::Spawned(ev) => GameEventV::Spawned(ev@),
            GameEvent::RoleChange(ev) => GameEventV::RoleChange(ev@),
            GameEvent::RoundStart => GameEventV::RoundStart,
            GameEvent::RoundWin(ev) => GameEventV::RoundWin(ev@),
            GameEvent::RoundLength(ev) => GameEventV::RoundLength(ev@),
            GameEvent::RoundOverTime => GameEventV::RoundOverTime,
            GameEvent::LogFileStarted(ev) => GameEventV::LogFileStarted(ev@),
            GameEvent::Connected(ev) => GameEventV::Connected(ev@),
            GameEvent::Disconnect(ev) => GameEventV::Disconnect(ev@),
            GameEvent::SteamIdValidated => GameEventV::SteamIdValidated,
            GameEvent::Entered => GameEventV::Entered,
            GameEvent::Joined(ev) => GameEventV::Joined(ev@),
            GameEvent::Suicide(ev) => GameEventV::Suicide(ev@),
            GameEvent::PickedUp(ev) => GameEventV::PickedUp(ev@),
            GameEvent::Domination(ev) => GameEventV::Domination(ev@),
            GameEvent::EmptyUber => GameEventV::EmptyUber,
            GameEvent::Revenge(ev) => GameEventV::Revenge(ev@),
            GameEvent::TournamentModeStarted(ev) => GameEventV::TournamentModeStarted(ev@),
            GameEvent::CaptureBlocked(ev) => GameEventV::CaptureBlocked(ev@),
            GameEvent::PointCaptured(ev) => GameEventV::PointCaptured(ev@),
            GameEvent::CurrentScore(ev) => GameEventV::CurrentScore(ev@),
            GameEvent::BuiltObject(ev) => GameEventV::BuiltObject(ev@),
            GameEvent::DropObject(ev) => GameEventV::DropObject(ev@),
            GameEvent::CarryObject(ev) => GameEventV::CarryObject(ev@),
            GameEvent::KilledObject(ev) => GameEventV::KilledObject(ev@),
            GameEvent::Extinguished(ev) => GameEventV::Extinguished(ev@),
            GameEvent::GameOver(ev) => GameEventV::GameOver(ev@),
            GameEvent::FinalScore(ev) => GameEventV::FinalScore(ev@),
            GameEvent::ObjectDetonated(ev) => GameEventV::ObjectDetonated(ev@),
            GameEvent::Request(ev) => GameEventV::Request(ev@),
            GameEvent::Response(ev) => GameEventV::Response(ev@),
            GameEvent::LogFileClosed => GameEventV::LogFileClosed,
        }
    }
}

/// Whether the tag carries a payload decoder.
pub open spec fn tag_supported(ty: RawEventType) -> bool {
    match ty {
        RawEventType::ShotFired => true,
        RawEventType::ShotHit => true,
        RawEventType::Damage => true,
        RawEventType::Killed => true,
        RawEventType::KillAssist => true,
        RawEventType::Say => true,
        RawEventType::SayTeam => true,
        RawEventType::Healed => true,
        RawEventType::ChargeDeployed => true,
        RawEventType::ChargeEnded => true,
        RawEventType::AdvantageLost => true,
        RawEventType::FirstHeal => true,
        RawEventType::ChargeReady => true,
        RawEventType::MedicDeath => true,
        RawEventType::MedicDeathEx => true,
        RawEventType::Spawned => true,
        RawEventType::RoleChange => true,
        RawEventType::RoundStart => true,
        RawEventType::RoundWin => true,
        RawEventType::RoundLength => true,
        RawEventType::RoundOverTime => true,
        RawEventType::LogFileStarted => true,
        RawEventType::Connected => true,
        RawEventType::Disconnect => true,
        RawEventType::SteamIdValidated => true,
        RawEventType::Entered => true,
        RawEventType::Joined => true,
        RawEventType::Suicide => true,
        RawEventType::PickedUp => true,
        RawEventType::Domination => true,
        RawEventType::EmptyUber => true,
        RawEventType::Revenge => true,
        RawEventType::TournamentModeStarted => true,
        RawEventType::CaptureBlocked => true,
        RawEventType::PointCaptured => true,
        RawEventType::CurrentScore => true,
        RawEventType::BuiltObject => true,
        RawEventType::DropObject => true,
        RawEventType::CarryObject => true,
        RawEventType::KilledObject => true,
        RawEventType::Extinguished => true,
        RawEventType::GameOver => true,
        RawEventType::FinalScore => true,
        RawEventType::ObjectDetonated => true,
        RawEventType::Request => true,
        RawEventType::Response => true,
        RawEventType::LogFileClosed => true,
        _ => false,
    }
}

/// What decoding an event with this tag and parameter bytes yields.
pub open spec fn game_event_spec(ty: RawEventType, params: Seq<u8>) -> Option<GameEventV> {
    match ty {
        RawEventType::ShotFired => match crate::event::player::shot_fired_parse_spec(params) {
            Some(ev) => Some(GameEventV::ShotFired(ev)),
            None => None,
        },
        RawEventType::ShotHit => match crate::event::player::shot_hit_parse_spec(params) {
            Some(ev) => Some(GameEventV::ShotHit(ev)),
            None => None,
        },
        RawEventType::Damage => match crate::event::player::damage_parse_spec(params) {
            Some(ev) => Some(GameEventV::Damage(ev)),
            None => None,
        },
        RawEventType::Killed => match crate::event::player::kill_parse_spec(params) {
            Some(ev) => Some(GameEventV::Killed(ev)),
            None => None,
        },
        RawEventType::KillAssist => match crate::event::player::kill_assist_parse_spec(params) {
            Some(ev) => Some(GameEventV::KillAssist(ev)),
            None => None,
        },
        RawEventType::Say => match crate::event::player::say_parse_spec(params) {
            Some(ev) => Some(GameEventV::Say(ev)),
            None => None,
        },
        RawEventType::SayTeam => match crate::event::player::say_team_parse_spec(params) {
            Some(ev) => Some(GameEventV::SayTeam(ev)),
            None => None,
        },
        RawEventType::Healed => match crate::event::medic::healed_parse_spec(params) {
            Some(ev) => Some(GameEventV::Healed(ev)),
            None => None,
        },
        RawEventType::ChargeDeployed => match crate::event::medic::charge_deployed_parse_spec(params) {
            Some(ev) => Some(GameEventV::ChargeDeployed(ev)),
            None => None,
        },
        RawEventType::ChargeEnded => match crate::event::medic::charge_ended_parse_spec(params) {
            Some(ev) => Some(GameEventV::ChargeEnded(ev)),
            None => None,
        },
        RawEventType::AdvantageLost => match crate::event::medic::advantage_lost_parse_spec(params) {
            Some(ev) => Some(GameEventV::AdvantageLost(ev)),
            None => None,
        },
        RawEventType::FirstHeal => match crate::event::medic::first_heal_parse_spec(params) {
            Some(ev) => Some(GameEventV::FirstHeal(ev)),
            None => None,
        },
        RawEventType::ChargeReady => Some(GameEventV::ChargeReady),
        RawEventType::MedicDeath => match crate::event::medic::medic_death_parse_spec(params) {
            Some(ev) => Some(GameEventV::MedicDeath(ev)),
            None => None,
        },
        RawEventType::MedicDeathEx => match crate::event::medic::medic_death_ex_parse_spec(params) {
            Some(ev) => Some(GameEventV::MedicDeathEx(ev)),
            None => None,
        },
        RawEventType::Spawned => match crate::event::player::spawn_parse_spec(params) {
            Some(ev) => Some(GameEventV::Spawned(ev)),
            None => None,
        },
        RawEventType::RoleChange => match crate::event::player::role_change_parse_spec(params) {
            Some(ev) => Some(GameEventV::RoleChange(ev)),
            None => None,
        },
        RawEventType::RoundStart => Some(GameEventV::RoundStart),
        RawEventType::RoundWin => match crate::event::game::round_win_parse_spec(params) {
            Some(ev) => Some(GameEventV::RoundWin(ev)),
            None => None,
        },
        RawEventType::RoundLength => match crate::event::game::round_length_parse_spec(params) {
            Some(ev) => Some(GameEventV::RoundLength(ev)),
            None => None,
        },
        RawEventType::RoundOverTime => Some(GameEventV::RoundOverTime),
        RawEventType::LogFileStarted => match crate::event::game::log_file_started_parse_spec(params) {
            Some(ev) => Some(GameEventV::LogFileStarted(ev)),
            None => None,
        },
        RawEventType::Connected => match crate::event::player::connected_parse_spec(params) {
            Some(ev) => Some(GameEventV::Connected(ev)),
            None => None,
        },
        RawEventType::Disconnect => match crate::event::player::disconnect_parse_spec(params) {
            Some(ev) => Some(GameEventV::Disconnect(ev)),
            None => None,
        },
        RawEventType::SteamIdValidated => Some(GameEventV::SteamIdValidated),
        RawEventType::Entered => Some(GameEventV::Entered),
        RawEventType::Joined => match crate::event::player::joined_team_parse_spec(params) {
            Some(ev) => Some(GameEventV::Joined(ev)),
            None => None,
        },
        RawEventType::Suicide => match crate::event::player::committed_suicide_parse_spec(params) {
            Some(ev) => Some(GameEventV::Suicide(ev)),
            None => None,
        },
        RawEventType::PickedUp => match crate::event::player::picked_up_parse_spec(params) {
            Some(ev) => Some(GameEventV::PickedUp(ev)),
            None => None,
        },
        RawEventType::Domination => match crate::event::player::domination_parse_spec(params) {
            Some(ev) => Some(GameEventV::Domination(ev)),
            None => None,
        },
        RawEventType::EmptyUber => Some(GameEventV::EmptyUber),
        RawEventType::Revenge => match crate::event::player::revenge_parse_spec(params) {
            Some(ev) => Some(GameEventV::Revenge(ev)),
            None => None,
        },
        RawEventType::TournamentModeStarted => match crate::event::game::tournament_mode_started_parse_spec(params) {
            Some(ev) => Some(GameEventV::TournamentModeStarted(ev)),
            None => None,
        },
        RawEventType::CaptureBlocked => match crate::event::game::capture_blocked_parse_spec(params) {
            Some(ev) => Some(GameEventV::CaptureBlocked(ev)),
            None => None,
        },
        RawEventType::PointCaptured => match crate::event::game::point_captured_parse_spec(params) {
            Some(ev) => Some(GameEventV::PointCaptured(ev)),
            None => None,
        },
        RawEventType::CurrentScore => match crate::event::game::current_score_parse_spec(params) {
            Some(ev) => Some(GameEventV::CurrentScore(ev)),
            None => None,
        },
        RawEventType::BuiltObject => match crate::event::player::built_object_parse_spec(params) {
            Some(ev) => Some(GameEventV::BuiltObject(ev)),
            None => None,
        },
        RawEventType::DropObject => match crate::event::player::drop_object_parse_spec(params) {
            Some(ev) => Some(GameEventV::DropObject(ev)),
            None => None,
        },
        RawEventType::CarryObject => match crate::event::player::built_carry_parse_spec(params) {
            Some(ev) => Some(GameEventV::CarryObject(ev)),
            None => None,
        },
        RawEventType::KilledObject => match crate::event::player::killed_object_parse_spec(params) {
            Some(ev) => Some(GameEventV::KilledObject(ev)),
            None => None,
        },
        RawEventType::Extinguished => match crate::event::player::extinguished_parse_spec(params) {
            Some(ev) => Some(GameEventV::Extinguished(ev)),
            None => None,
        },
        RawEventType::GameOver => match crate::event::game::game_over_parse_spec(params) {
            Some(ev) => Some(GameEventV::GameOver(ev)),
            None => None,
        },
        RawEventType::FinalScore => match crate::event::game::final_score_parse_spec(params) {
            Some(ev) => Some(GameEventV::FinalScore(ev)),
            None => None,
        },
        RawEventType::ObjectDetonated => match crate::event::player::object_detonated_parse_spec(params) {
            Some(ev) => Some(GameEventV::ObjectDetonated(ev)),
            None => None,
        },
        RawEventType::Request => Some(GameEventV::Request(params)),
        RawEventType::Response => Some(GameEventV::Response(params)),
        RawEventType::LogFileClosed => Some(GameEventV::LogFileClosed),
        _ => None,
    }
}

impl<'a> GameEvent<'a> {
    #[verifier::rlimit(60)]
    fn parse_group0(raw: &RawEvent<'a>) -> (r: Result<GameEvent<'a>, GameEventError>)
        requires
            raw@.ty == RawEventType::ShotFired || raw@.ty == RawEventType::ShotHit || raw@.ty == RawEventType::Damage || raw@.ty == RawEventType::Killed || raw@.ty == RawEventType::KillAssist || raw@.ty == RawEventType::Say || raw@.ty == RawEventType::SayTeam || raw@.ty == RawEventType::Healed || raw@.ty == RawEventType::ChargeDeployed || raw@.ty == RawEventType::ChargeEnded || raw@.ty == RawEventType::AdvantageLost || raw@.ty == RawEventType::FirstHeal,
        ensures
            match game_event_spec(raw@.ty, raw@.params) {
                Some(v) => r matches Ok(ev) && ev@ == v,
                None => r matches Err(e) && (match e {
                    GameEventError::Malformed { ty, params } => ty == raw@.ty && params@
                        == raw@.params && tag_supported(raw@.ty),
                    GameEventError::Unsupported(t) => t == raw@.ty && !tag_supported(raw@.ty),
                    GameEventError::Incomplete(_) => false,
                }),
            },
    {
        match raw.ty {
            RawEventType::ShotFired => match ShotFiredEvent::parse(raw.params) {
                Ok(ev) => Ok(GameEvent::ShotFired(ev)),
                Err(_) => Err(GameEventError::Malformed {
                    ty: raw.ty,
                    params: vstd::slice::slice_to_vec(raw.params),
                }),
            },
            RawEventType::ShotHit => match ShotHitEvent::parse(raw.params) {
                Ok(ev) => Ok(GameEvent::ShotHit(ev)),
                Err(_) => Err(GameEventError::Malformed {
                    ty: raw.ty,
                    params: vstd::slice::slice_to_vec(raw.params),
                }),
            },
            RawEventType::Damage => match DamageEvent::parse(raw.params) {
                Ok(ev) => Ok(GameEvent::Damage(ev)),
                Err(_) => Err(GameEventError::Malformed {
                    ty: raw.ty,
                    params: vstd::slice::slice_to_vec(raw.params),
                }),
            },
            RawEventType::Killed => match KillEvent::parse(raw.params) {
                Ok(ev) => Ok(GameEvent::Killed(ev)),
                Err(_) => Err(GameEventError::Malformed {
                    ty: raw.ty,
                    params: vstd::slice::slice_to_vec(raw.params),
                }),
            },
            RawEventType::KillAssist => match KillAssistEvent::parse(raw.params) {
                Ok(ev) => Ok(GameEvent::KillAssist(ev)),
                Err(_) => Err(GameEventError::Malformed {
                    ty: raw.ty,
                    params: vstd::slice::slice_to_vec(raw.params),
                }),
            },
            RawEventType::Say => match SayEvent::parse(raw.params) {
                Ok(ev) => Ok(GameEvent::Say(ev)),
                Err(_) => Err(GameEventError::Malformed {
                    ty: raw.ty,
                    params: vstd::slice::slice_to_vec(raw.params),
                }),
            },
            RawEventType::SayTeam => match SayTeamEvent::parse(raw.params) {
                Ok(ev) => Ok(GameEvent::SayTeam(ev)),
                Err(_) => Err(GameEventError::Malformed {
                    ty: raw.ty,
                    params: vstd::slice::slice_to_vec(raw.params),
                }),
            },
            RawEventType::Healed => match HealedEvent::parse(raw.params) {
                Ok(ev) => Ok(GameEvent::Healed(ev)),
                Err(_) => Err(GameEventError::Malformed {
                    ty: raw.ty,
                    params: vstd::slice::slice_to_vec(raw.params),
                }),
            },
            RawEventType::ChargeDeployed => match ChargeDeployedEvent::parse(raw.params) {
                Ok(ev) => Ok(GameEvent::ChargeDeployed(ev)),
                Err(_) => Err(GameEventError::Malformed {
                    ty: raw.ty,
                    params: vstd::slice::slice_to_vec(raw.params),
                }),
            },
            RawEventType::ChargeEnded => match ChargeEndedEvent::parse(raw.params) {
                Ok(ev) => Ok(GameEvent::ChargeEnded(ev)),
                Err(_) => Err(GameEventError::Malformed {
                    ty: raw.ty,
                    params: vstd::slice::slice_to_vec(raw.params),
                }),
            },
            RawEventType::AdvantageLost => match AdvantageLostEvent::parse(raw.params) {
                Ok(ev) => Ok(GameEvent::AdvantageLost(ev)),
                Err(_) => Err(GameEventError::Malformed {
                    ty: raw.ty,
                    params: vstd::slice::slice_to_vec(raw.params),
                }),
            },
            RawEventType::FirstHeal => match FirstHealEvent::parse(raw.params) {
                Ok(ev) => Ok(GameEvent::FirstHeal(ev)),
                Err(_) => Err(GameEventError::Malformed {
                    ty: raw.ty,
                    params: vstd::slice::slice_to_vec(raw.params),
                }),
            },
            _ => Err(GameEventError::Unsupported(raw.ty)),
        }
    }

    #[verifier::rlimit(60)]
    fn parse_group1(raw: &RawEvent<'a>) -> (r: Result<GameEvent<'a>, GameEventError>)
        requires
            raw@.ty == RawEventType::ChargeReady || raw@.ty == RawEventType::MedicDeath || raw@.ty == RawEventType::MedicDeathEx || raw@.ty == RawEventType::Spawned || raw@.ty == RawEventType::RoleChange || raw@.ty == RawEventType::RoundStart || raw@.ty == RawEventType::RoundWin || raw@.ty == RawEventType::RoundLength || raw@.ty == RawEventType::RoundOverTime || raw@.ty == RawEventType::LogFileStarted || raw@.ty == RawEventType::Connected || raw@.ty == RawEventType::Disconnect,
        ensures
            match game_event_spec(raw@.ty, raw@.params) {
                Some(v) => r matches Ok(ev) && ev@ == v,
                None => r matches Err(e) && (match e {
                    GameEventError::Malformed { ty, params } => ty == raw@.ty && params@
                        == raw@.params && tag_supported(raw@.ty),
                    GameEventError::Unsupported(t) => t == raw@.ty && !tag_supported(raw@.ty),
                    GameEventError::Incomplete(_) => false,
                }),
            },
    {
        match raw.ty {
            RawEventType::ChargeReady => Ok(GameEvent::ChargeReady),
            RawEventType::MedicDeath => match MedicDeathEvent::parse(raw.params) {
                Ok(ev) => Ok(GameEvent::MedicDeath(ev)),
                Err(_) => Err(GameEventError::Malformed {
                    ty: raw.ty,
                    params: vstd::slice::slice_to_vec(raw.params),
                }),
            },
            RawEventType::MedicDeathEx => match MedicDeathExEvent::parse(raw.params) {
                Ok(ev) => Ok(GameEvent::MedicDeathEx(ev)),
                Err(_) => Err(GameEventError::Malformed {
                    ty: raw.ty,
                    params: vstd::slice::slice_to_vec(raw.params),
                }),
            },
            RawEventType::Spawned => match SpawnEvent::parse(raw.params) {
                Ok(ev) => Ok(GameEvent::Spawned(ev)),
                Err(_) => Err(GameEventError::Malformed {
                    ty: raw.ty,
                    params: vstd::slice::slice_to_vec(raw.params),
                }),
            },
            RawEventType::RoleChange => match RoleChangeEvent::parse(raw.params) {
                Ok(ev) => Ok(GameEvent::RoleChange(ev)),
                Err(_) => Err(GameEventError::Malformed {
                    ty: raw.ty,
                    params: vstd::slice::slice_to_vec(raw.params),
                }),
            },
            RawEventType::RoundStart => Ok(GameEvent::RoundStart),
            RawEventType::RoundWin => match RoundWinEvent::parse(raw.params) {
                Ok(ev) => Ok(GameEvent::RoundWin(ev)),
                Err(_) => Err(GameEventError::Malformed {
                    ty: raw.ty,
                    params: vstd::slice::slice_to_vec(raw.params),
                }),
            },
            RawEventType::RoundLength => match RoundLengthEvent::parse(raw.params) {
                Ok(ev) => Ok(GameEvent::RoundLength(ev)),
                Err(_) => Err(GameEventError::Malformed {
                    ty: raw.ty,
                    params: vstd::slice::slice_to_vec(raw.params),
                }),
            },
            RawEventType::RoundOverTime => Ok(GameEvent::RoundOverTime),
            RawEventType::LogFileStarted => match LogFileStartedEvent::parse(raw.params) {
                Ok(ev) => Ok(GameEvent::LogFileStarted(ev)),
                Err(_) => Err(GameEventError::Malformed {
                    ty: raw.ty,
                    params: vstd::slice::slice_to_vec(raw.params),
                }),
            },
            RawEventType::Connected => match ConnectedEvent::parse(raw.params) {
                Ok(ev) => Ok(GameEvent::Connected(ev)),
                Err(_) => Err(GameEventError::Malformed {
                    ty: raw.ty,
                    params: vstd::slice::slice_to_vec(raw.params),
                }),
            },
            RawEventType::Disconnect => match DisconnectEvent::parse(raw.params) {
                Ok(ev) => Ok(GameEvent::Disconnect(ev)),
                Err(_) => Err(GameEventError::Malformed {
                    ty: raw.ty,
                    params: vstd::slice::slice_to_vec(raw.params),
                }),
            },
            _ => Err(GameEventError::Unsupported(raw.ty)),
        }
    }

    #[verifier::rlimit(60)]
    fn parse_group2(raw: &RawEvent<'a>) -> (r: Result<GameEvent<'a>, GameEventError>)
        requires
            raw@.ty == RawEventType::SteamIdValidated || raw@.ty == RawEventType::Entered || raw@.ty == RawEventType::Joined || raw@.ty == RawEventType::Suicide || raw@.ty == RawEventType::PickedUp || raw@.ty == RawEventType::Domination || raw@.ty == RawEventType::EmptyUber || raw@.ty == RawEventType::Revenge || raw@.ty == RawEventType::TournamentModeStarted || raw@.ty == RawEventType::CaptureBlocked || raw@.ty == RawEventType::PointCaptured || raw@.ty == RawEventType::CurrentScore,
        ensures
            match game_event_spec(raw@.ty, raw@.params) {
                Some(v) => r matches Ok(ev) && ev@ == v,
                None => r matches Err(e) && (match e {
                    GameEventError::Malformed { ty, params } => ty == raw@.ty && params@
                        == raw@.params && tag_supported(raw@.ty),
                    GameEventError::Unsupported(t) => t == raw@.ty && !tag_supported(raw@.ty),
                    GameEventError::Incomplete(_) => false,
                }),
            },
    {
        match raw.ty {
            RawEventType::SteamIdValidated => Ok(GameEvent::SteamIdValidated),
            RawEventType::Entered => Ok(GameEvent::Entered),
            RawEventType::Joined => match JoinedTeamEvent::parse(raw.params) {
                Ok(ev) => Ok(GameEvent::Joined(ev)),
                Err(_) => Err(GameEventError::Malformed {
                    ty: raw.ty,
                    params: vstd::slice::slice_to_vec(raw.params),
                }),
            },
            RawEventType::Suicide => match CommittedSuicideEvent::parse(raw.params) {
                Ok(ev) => Ok(GameEvent::Suicide(ev)),
                Err(_) => Err(GameEventError::Malformed {
                    ty: raw.ty,
                    params: vstd::slice::slice_to_vec(raw.params),
                }),
            },
            RawEventType::PickedUp => match PickedUpEvent::parse(raw.params) {
                Ok(ev) => Ok(GameEvent::PickedUp(ev)),
                Err(_) => Err(GameEventError::Malformed {
                    ty: raw.ty,
                    params: vstd::slice::slice_to_vec(raw.params),
                }),
            },
            RawEventType::Domination => match DominationEvent::parse(raw.params) {
                Ok(ev) => Ok(GameEvent::Domination(ev)),
                Err(_) => Err(GameEventError::Malformed {
                    ty: raw.ty,
                    params: vstd::slice::slice_to_vec(raw.params),
                }),
            },
            RawEventType::EmptyUber => Ok(GameEvent::EmptyUber),
            RawEventType::Revenge => match RevengeEvent::parse(raw.params) {
                Ok(ev) => Ok(GameEvent::Revenge(ev)),
                Err(_) => Err(GameEventError::Malformed {
                    ty: raw.ty,
                    params: vstd::slice::slice_to_vec(raw.params),
                }),
            },
            RawEventType::TournamentModeStarted => match TournamentModeStartedEvent::parse(raw.params) {
                Ok(ev) => Ok(GameEvent::TournamentModeStarted(ev)),
                Err(_) => Err(GameEventError::Malformed {
                    ty: raw.ty,
                    params: vstd::slice::slice_to_vec(raw.params),
                }),
            },
            RawEventType::CaptureBlocked => match CaptureBlockedEvent::parse(raw.params) {
                Ok(ev) => Ok(GameEvent::CaptureBlocked(ev)),
                Err(_) => Err(GameEventError::Malformed {
                    ty: raw.ty,
                    params: vstd::slice::slice_to_vec(raw.params),
                }),
            },
            RawEventType::PointCaptured => match PointCapturedEvent::parse(raw.params) {
                Ok(ev) => Ok(GameEvent::PointCaptured(ev)),
                Err(_) => Err(GameEventError::Malformed {
                    ty: raw.ty,
                    params: vstd::slice::slice_to_vec(raw.params),
                }),
            },
            RawEventType::CurrentScore => match CurrentScoreEvent::parse(raw.params) {
                Ok(ev) => Ok(GameEvent::CurrentScore(ev)),
                Err(_) => Err(GameEventError::Malformed {
                    ty: raw.ty,
                    params: vstd::slice::slice_to_vec(raw.params),
                }),
            },
            _ => Err(GameEventError::Unsupported(raw.ty)),
        }
    }

    #[verifier::rlimit(60)]
    fn parse_group3(raw: &RawEvent<'a>) -> (r: Result<GameEvent<'a>, GameEventError>)
        requires
            raw@.ty == RawEventType::BuiltObject || raw@.ty == RawEventType::DropObject || raw@.ty == RawEventType::CarryObject || raw@.ty == RawEventType::KilledObject || raw@.ty == RawEventType::Extinguished || raw@.ty == RawEventType::GameOver || raw@.ty == RawEventType::FinalScore || raw@.ty == RawEventType::ObjectDetonated || raw@.ty == RawEventType::Request || raw@.ty == RawEventType::Response || raw@.ty == RawEventType::LogFileClosed,
        ensures
            match game_event_spec(raw@.ty, raw@.params) {
                Some(v) => r matches Ok(ev) && ev@ == v,
                None => r matches Err(e) && (match e {
                    GameEventError::Malformed { ty, params } => ty == raw@.ty && params@
                        == raw@.params && tag_supported(raw@.ty),
                    GameEventError::Unsupported(t) => t == raw@.ty && !tag_supported(raw@.ty),
                    GameEventError::Incomplete(_) => false,
                }),
            },
    {
        match raw.ty {
            RawEventType::BuiltObject => match BuiltObjectEvent::parse(raw.params) {
                Ok(ev) => Ok(GameEvent::BuiltObject(ev)),
                Err(_) => Err(GameEventError::Malformed {
                    ty: raw.ty,
                    params: vstd::slice::slice_to_vec(raw.params),
                }),
            },
            RawEventType::DropObject => match DropObjectEvent::parse(raw.params) {
                Ok(ev) => Ok(GameEvent::DropObject(ev)),
                Err(_) => Err(GameEventError::Malformed {
                    ty: raw.ty,
                    params: vstd::slice::slice_to_vec(raw.params),
                }),
            },
            RawEventType::CarryObject => match BuiltCarryEvent::parse(raw.params) {
                Ok(ev) => Ok(GameEvent::CarryObject(ev)),
                Err(_) => Err(GameEventError::Malformed {
                    ty: raw.ty,
                    params: vstd::slice::slice_to_vec(raw.params),
                }),
            },
            RawEventType::KilledObject => match KilledObjectEvent::parse(raw.params) {
                Ok(ev) => Ok(GameEvent::KilledObject(ev)),
                Err(_) => Err(GameEventError::Malformed {
                    ty: raw.ty,
                    params: vstd::slice::slice_to_vec(raw.params),
                }),
            },
            RawEventType::Extinguished => match ExtinguishedEvent::parse(raw.params) {
                Ok(ev) => Ok(GameEvent::Extinguished(ev)),
                Err(_) => Err(GameEventError::Malformed {
                    ty: raw.ty,
                    params: vstd::slice::slice_to_vec(raw.params),
                }),
            },
            RawEventType::GameOver => match GameOverEvent::parse(raw.params) {
                Ok(ev) => Ok(GameEvent::GameOver(ev)),
                Err(_) => Err(GameEventError::Malformed {
                    ty: raw.ty,
                    params: vstd::slice::slice_to_vec(raw.params),
                }),
            },
            RawEventType::FinalScore => match FinalScoreEvent::parse(raw.params) {
                Ok(ev) => Ok(GameEvent::FinalScore(ev)),
                Err(_) => Err(GameEventError::Malformed {
                    ty: raw.ty,
                    params: vstd::slice::slice_to_vec(raw.params),
                }),
            },
            RawEventType::ObjectDetonated => match ObjectDetonatedEvent::parse(raw.params) {
                Ok(ev) => Ok(GameEvent::ObjectDetonated(ev)),
                Err(_) => Err(GameEventError::Malformed {
                    ty: raw.ty,
                    params: vstd::slice::slice_to_vec(raw.params),
                }),
            },
            RawEventType::Request => Ok(GameEvent::Request(UnparsedEvent { params: raw.params })),
            RawEventType::Response => Ok(GameEvent::Response(UnparsedEvent { params: raw.params })),
            RawEventType::LogFileClosed => Ok(GameEvent::LogFileClosed),
            _ => Err(GameEventError::Unsupported(raw.ty)),
        }
    }

    /// Decodes the typed event for a raw event, when its tag has a decoder;
    /// a failed decode reports the tag and the parameter bytes verbatim.
    pub fn parse(raw: &RawEvent<'a>) -> (r: Result<GameEvent<'a>, GameEventError>)
        ensures
            match game_event_spec(raw@.ty, raw@.params) {
                Some(v) => r matches Ok(ev) && ev@ == v,
                None => r matches Err(e) && (match e {
                    GameEventError::Malformed { ty, params } => ty == raw@.ty && params@
                        == raw@.params && tag_supported(raw@.ty),
                    GameEventError::Unsupported(t) => t == raw@.ty && !tag_supported(raw@.ty),
                    GameEventError::Incomplete(_) => false,
                }),
            },
    {
        match raw.ty {
            RawEventType::ShotFired | RawEventType::ShotHit | RawEventType::Damage | RawEventType::Killed | RawEventType::KillAssist | RawEventType::Say | RawEventType::SayTeam | RawEventType::Healed | RawEventType::ChargeDeployed | RawEventType::ChargeEnded | RawEventType::AdvantageLost | RawEventType::FirstHeal => Self::parse_group0(raw),
            RawEventType::ChargeReady | RawEventType::MedicDeath | RawEventType::MedicDeathEx | RawEventType::Spawned | RawEventType::RoleChange | RawEventType::RoundStart | RawEventType::RoundWin | RawEventType::RoundLength | RawEventType::RoundOverTime | RawEventType::LogFileStarted | RawEventType::Connected | RawEventType::Disconnect => Self::parse_group1(raw),
            RawEventType::SteamIdValidated | RawEventType::Entered | RawEventType::Joined | RawEventType::Suicide | RawEventType::PickedUp | RawEventType::Domination | RawEventType::EmptyUber | RawEventType::Revenge | RawEventType::TournamentModeStarted | RawEventType::CaptureBlocked | RawEventType::PointCaptured | RawEventType::CurrentScore => Self::parse_group2(raw),
            RawEventType::BuiltObject | RawEventType::DropObject | RawEventType::CarryObject | RawEventType::KilledObject | RawEventType::Extinguished | RawEventType::GameOver | RawEventType::FinalScore | RawEventType::ObjectDetonated | RawEventType::Request | RawEventType::Response | RawEventType::LogFileClosed => Self::parse_group3(raw),
            _ => Err(GameEventError::Unsupported(raw.ty)),
        }
    }
}

} // verus!
