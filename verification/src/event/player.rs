use vstd::prelude::*;

#[allow(unused_imports)]
use crate::common::{class_from_spec, team_from_spec, Class, Team};
use crate::error::Error;
use crate::event::keys::{is_key_as, is_key_attacker_position, is_key_damage, is_key_object, is_key_objectowner, is_key_position, is_key_realdamage, is_key_reason, is_key_to, is_key_victim_position, is_key_weapon, key_as, key_attacker_position, key_damage, key_object, key_objectowner, key_position, key_realdamage, key_reason, key_to, key_victim_position, key_weapon};
#[allow(unused_imports)]
use crate::event::{apply_all_view, apply_params, param_parse_with, param_parse_with_spec, param_pairs_spec,
    parse_triple, parse_triple_spec, quoted_value, quoted_value_spec, say_text, say_text_spec,
    EventFields};
#[allow(unused_imports)]
use crate::num::{parse_centi, parse_centi_spec, parse_u32, parse_u32_spec, parse_u8, parse_u8_spec};
#[allow(unused_imports)]
use crate::parsing::skip;
#[allow(unused_imports)]
use crate::raw_event::{against_subject_parser, against_subject_spec, RawSubject, RawSubjectView};

verus! {

#[derive(Debug, PartialEq, Eq)]
pub struct ShotFiredEvent<'a> {
    pub weapon: Option<&'a [u8]>,
}

/// The mathematical shape of the payload.
pub struct ShotFiredEventV {
    pub weapon: Option<Seq<u8>>,
}

impl<'a> View for ShotFiredEvent<'a> {
    type V = ShotFiredEventV;

    open spec fn view(&self) -> ShotFiredEventV {
        ShotFiredEventV {
            weapon: (match self.weapon { Some(x) => Some(x@), None => None }),
        }
    }
}

impl<'a> EventFields<'a> for ShotFiredEvent<'a> {
    open spec fn apply_view(v: ShotFiredEventV, key: Seq<u8>, value: Seq<u8>) -> Option<ShotFiredEventV> {
        if key == key_weapon() {
            Some(ShotFiredEventV { weapon: Some(value), ..v })
        } else {
            Some(v)
        }
    }

    fn apply(self, key: &'a [u8], value: &'a [u8]) -> (r: Result<Self, Error>) {
        if is_key_weapon(key) {
            Ok(ShotFiredEvent { weapon: Some(value), ..self })
        } else {
            Ok(self)
        }
    }
}

/// What decoding this payload yields, over the parameter bytes.
pub open spec fn shot_fired_parse_spec(s: Seq<u8>) -> Option<ShotFiredEventV> {
    apply_all_view::<ShotFiredEvent<'static>>(
        ShotFiredEventV { weapon: None },
        param_pairs_spec(s),
    )
}

impl<'a> ShotFiredEvent<'a> {
    /// Decodes the payload from the parameter bytes.
    pub fn parse(input: &'a [u8]) -> (r: Result<Self, Error>)
        ensures
            match shot_fired_parse_spec(input@) {
                Some(v) => r matches Ok(ev) && ev@ == v,
                None => r is Err,
            },
    {
        apply_params(ShotFiredEvent { weapon: None }, input)
    }
}

#[derive(Debug, PartialEq, Eq)]
pub struct ShotHitEvent<'a> {
    pub weapon: Option<&'a [u8]>,
}

/// The mathematical shape of the payload.
pub struct ShotHitEventV {
    pub weapon: Option<Seq<u8>>,
}

impl<'a> View for ShotHitEvent<'a> {
    type V = ShotHitEventV;

    open spec fn view(&self) -> ShotHitEventV {
        ShotHitEventV {
            weapon: (match self.weapon { Some(x) => Some(x@), None => None }),
        }
    }
}

impl<'a> EventFields<'a> for ShotHitEvent<'a> {
    open spec fn apply_view(v: ShotHitEventV, key: Seq<u8>, value: Seq<u8>) -> Option<ShotHitEventV> {
        if key == key_weapon() {
            Some(ShotHitEventV { weapon: Some(value), ..v })
        } else {
            Some(v)
        }
    }

    fn apply(self, key: &'a [u8], value: &'a [u8]) -> (r: Result<Self, Error>) {
        if is_key_weapon(key) {
            Ok(ShotHitEvent { weapon: Some(value), ..self })
        } else {
            Ok(self)
        }
    }
}

/// What decoding this payload yields, over the parameter bytes.
pub open spec fn shot_hit_parse_spec(s: Seq<u8>) -> Option<ShotHitEventV> {
    apply_all_view::<ShotHitEvent<'static>>(
        ShotHitEventV { weapon: None },
        param_pairs_spec(s),
    )
}

impl<'a> ShotHitEvent<'a> {
    /// Decodes the payload from the parameter bytes.
    pub fn parse(input: &'a [u8]) -> (r: Result<Self, Error>)
        ensures
            match shot_hit_parse_spec(input@) {
                Some(v) => r matches Ok(ev) && ev@ == v,
                None => r is Err,
            },
    {
        apply_params(ShotHitEvent { weapon: None }, input)
    }
}

#[derive(Debug, PartialEq, Eq)]
pub struct DamageEvent<'a> {
    pub target: RawSubject<'a>,
    pub damage: Option<u32>,
    pub real_damage: Option<u32>,
    pub weapon: Option<&'a [u8]>,
}

/// The mathematical shape of the payload.
pub struct DamageEventV {
    pub target: RawSubjectView,
    pub damage: Option<u32>,
    pub real_damage: Option<u32>,
    pub weapon: Option<Seq<u8>>,
}

impl<'a> View for DamageEvent<'a> {
    type V = DamageEventV;

    open spec fn view(&self) -> DamageEventV {
        DamageEventV {
            target: (self.target@),
            damage: (self.damage),
            real_damage: (self.real_damage),
            weapon: (match self.weapon { Some(x) => Some(x@), None => None }),
        }
    }
}

impl<'a> EventFields<'a> for DamageEvent<'a> {
    open spec fn apply_view(v: DamageEventV, key: Seq<u8>, value: Seq<u8>) -> Option<DamageEventV> {
        if key == key_damage() {
            match parse_u32_spec(value) {
                Some(x) => Some(DamageEventV { damage: if x == 0 { None } else { Some(x) }, ..v }),
                None => None,
            }
        } else if key == key_realdamage() {
            match parse_u32_spec(value) {
                Some(x) => Some(DamageEventV { real_damage: if x == 0 { None } else { Some(x) }, ..v }),
                None => None,
            }
        } else if key == key_weapon() {
            Some(DamageEventV { weapon: Some(value), ..v })
        } else {
            Some(v)
        }
    }

    fn apply(self, key: &'a [u8], value: &'a [u8]) -> (r: Result<Self, Error>) {
        if is_key_damage(key) {
            match parse_u32(value) {
                Some(x) => Ok(DamageEvent { damage: if x == 0 { None } else { Some(x) }, ..self }),
                None => Err(Error::Malformed),
            }
        } else if is_key_realdamage(key) {
            match parse_u32(value) {
                Some(x) => Ok(DamageEvent { real_damage: if x == 0 { None } else { Some(x) }, ..self }),
                None => Err(Error::Malformed),
            }
        } else if is_key_weapon(key) {
            Ok(DamageEvent { weapon: Some(value), ..self })
        } else {
            Ok(self)
        }
    }
}

/// What decoding this payload yields, over the parameter bytes.
pub open spec fn damage_parse_spec(s: Seq<u8>) -> Option<DamageEventV> {
    let p0 = param_parse_with_spec(s, 7, true);
    if p0 is None {
        None
    } else {
        apply_all_view::<DamageEvent<'static>>(
            DamageEventV { target: against_subject_spec((p0->0).0), damage: None, real_damage: None, weapon: None },
            param_pairs_spec((p0->0).1),
        )
    }
}

impl<'a> DamageEvent<'a> {
    /// Decodes the payload from the parameter bytes.
    pub fn parse(input: &'a [u8]) -> (r: Result<Self, Error>)
        ensures
            match damage_parse_spec(input@) {
                Some(v) => r matches Ok(ev) && ev@ == v,
                None => r is Err,
            },
    {
        let (v0, rest0) = param_parse_with(input, 7, true)?;
        let f_target = against_subject_parser(v0)?;
        apply_params(DamageEvent { target: f_target, damage: None, real_damage: None, weapon: None }, rest0)
    }
}

#[derive(Debug, PartialEq, Eq)]
pub struct KillEvent<'a> {
    pub target: RawSubject<'a>,
    pub weapon: &'a [u8],
    pub attacker_position: Option<(i32, i32, i32)>,
    pub victim_position: Option<(i32, i32, i32)>,
}

/// The mathematical shape of the payload.
pub struct KillEventV {
    pub target: RawSubjectView,
    pub weapon: Seq<u8>,
    pub attacker_position: Option<(i32, i32, i32)>,
    pub victim_position: Option<(i32, i32, i32)>,
}

impl<'a> View for KillEvent<'a> {
    type V = KillEventV;

    open spec fn view(&self) -> KillEventV {
        KillEventV {
            target: (self.target@),
            weapon: (self.weapon@),
            attacker_position: (self.attacker_position),
            victim_position: (self.victim_position),
        }
    }
}

impl<'a> EventFields<'a> for KillEvent<'a> {
    open spec fn apply_view(v: KillEventV, key: Seq<u8>, value: Seq<u8>) -> Option<KillEventV> {
        if key == key_attacker_position() {
            match parse_triple_spec(value) {
                Some(x) => Some(KillEventV { attacker_position: Some(x), ..v }),
                None => None,
            }
        } else if key == key_victim_position() {
            match parse_triple_spec(value) {
                Some(x) => Some(KillEventV { victim_position: Some(x), ..v }),
                None => None,
            }
        } else {
            Some(v)
        }
    }

    fn apply(self, key: &'a [u8], value: &'a [u8]) -> (r: Result<Self, Error>) {
        if is_key_attacker_position(key) {
            let t = parse_triple(value)?;
            Ok(KillEvent { attacker_position: Some(t), ..self })
        } else if is_key_victim_position(key) {
            let t = parse_triple(value)?;
            Ok(KillEvent { victim_position: Some(t), ..self })
        } else {
            Ok(self)
        }
    }
}

/// What decoding this payload yields, over the parameter bytes.
pub open spec fn kill_parse_spec(s: Seq<u8>) -> Option<KillEventV> {
    let p0 = quoted_value_spec(s);
    if p0 is None || (p0->0).1.len() < 1 {
        None
    } else {
        let p1 = param_parse_with_spec((p0->0).1.subrange(1, (p0->0).1.len() as int), 4, false);
        if p1 is None {
            None
        } else {
            apply_all_view::<KillEvent<'static>>(
                KillEventV { target: against_subject_spec((p0->0).0), weapon: (p1->0).0, attacker_position: None, victim_position: None },
                param_pairs_spec((p1->0).1),
            )
        }
    }
}

impl<'a> KillEvent<'a> {
    /// Decodes the payload from the parameter bytes.
    pub fn parse(input: &'a [u8]) -> (r: Result<Self, Error>)
        ensures
            match kill_parse_spec(input@) {
                Some(v) => r matches Ok(ev) && ev@ == v,
                None => r is Err,
            },
    {
        let (v0, mid0) = quoted_value(input)?;
        let f_target = against_subject_parser(v0)?;
        let rest0 = skip(mid0, 1)?;
        let (v1, rest1) = param_parse_with(rest0, 4, false)?;
        apply_params(KillEvent { target: f_target, weapon: v1, attacker_position: None, victim_position: None }, rest1)
    }
}

#[derive(Debug, PartialEq, Eq)]
pub struct KillAssistEvent<'a> {
    pub target: RawSubject<'a>,
    pub attacker_position: Option<(i32, i32, i32)>,
    pub victim_position: Option<(i32, i32, i32)>,
}

/// The mathematical shape of the payload.
pub struct KillAssistEventV {
    pub target: RawSubjectView,
    pub attacker_position: Option<(i32, i32, i32)>,
    pub victim_position: Option<(i32, i32, i32)>,
}

impl<'a> View for KillAssistEvent<'a> {
    type V = KillAssistEventV;

    open spec fn view(&self) -> KillAssistEventV {
        KillAssistEventV {
            target: (self.target@),
            attacker_position: (self.attacker_position),
            victim_position: (self.victim_position),
        }
    }
}

impl<'a> EventFields<'a> for KillAssistEvent<'a> {
    open spec fn apply_view(v: KillAssistEventV, key: Seq<u8>, value: Seq<u8>) -> Option<KillAssistEventV> {
        if key == key_attacker_position() {
            match parse_triple_spec(value) {
                Some(x) => Some(KillAssistEventV { attacker_position: Some(x), ..v }),
                None => None,
            }
        } else if key == key_victim_position() {
            match parse_triple_spec(value) {
                Some(x) => Some(KillAssistEventV { victim_position: Some(x), ..v }),
                None => None,
            }
        } else {
            Some(v)
        }
    }

    fn apply(self, key: &'a [u8], value: &'a [u8]) -> (r: Result<Self, Error>) {
        if is_key_attacker_position(key) {
            let t = parse_triple(value)?;
            Ok(KillAssistEvent { attacker_position: Some(t), ..self })
        } else if is_key_victim_position(key) {
            let t = parse_triple(value)?;
            Ok(KillAssistEvent { victim_position: Some(t), ..self })
        } else {
            Ok(self)
        }
    }
}

/// What decoding this payload yields, over the parameter bytes.
pub open spec fn kill_assist_parse_spec(s: Seq<u8>) -> Option<KillAssistEventV> {
    let p0 = param_parse_with_spec(s, 7, true);
    if p0 is None {
        None
    } else {
        apply_all_view::<KillAssistEvent<'static>>(
            KillAssistEventV { target: against_subject_spec((p0->0).0), attacker_position: None, victim_position: None },
            param_pairs_spec((p0->0).1),
        )
    }
}

impl<'a> KillAssistEvent<'a> {
    /// Decodes the payload from the parameter bytes.
    pub fn parse(input: &'a [u8]) -> (r: Result<Self, Error>)
        ensures
            match kill_assist_parse_spec(input@) {
                Some(v) => r matches Ok(ev) && ev@ == v,
                None => r is Err,
            },
    {
        let (v0, rest0) = param_parse_with(input, 7, true)?;
        let f_target = against_subject_parser(v0)?;
        apply_params(KillAssistEvent { target: f_target, attacker_position: None, victim_position: None }, rest0)
    }
}

#[derive(Debug, PartialEq, Eq)]
pub struct SpawnEvent {
    pub class: Option<Class>,
}

/// The mathematical shape of the payload.
pub struct SpawnEventV {
    pub class: Option<Class>,
}

impl View for SpawnEvent {
    type V = SpawnEventV;

    open spec fn view(&self) -> SpawnEventV {
        SpawnEventV {
            class: (self.class),
        }
    }
}

impl<'a> EventFields<'a> for SpawnEvent {
    open spec fn apply_view(v: SpawnEventV, key: Seq<u8>, value: Seq<u8>) -> Option<SpawnEventV> {
        if key == key_as() {
            match class_from_spec(value) {
                Some(x) => Some(SpawnEventV { class: Some(x), ..v }),
                None => None,
            }
        } else {
            Some(v)
        }
    }

    fn apply(self, key: &'a [u8], value: &'a [u8]) -> (r: Result<Self, Error>) {
        if is_key_as(key) {
            match Class::from_bytes(value) {
                Some(x) => Ok(SpawnEvent { class: Some(x), ..self }),
                None => Err(Error::Malformed),
            }
        } else {
            Ok(self)
        }
    }
}

/// What decoding this payload yields, over the parameter bytes.
pub open spec fn spawn_parse_spec(s: Seq<u8>) -> Option<SpawnEventV> {
    apply_all_view::<SpawnEvent>(
        SpawnEventV { class: None },
        param_pairs_spec(s),
    )
}

impl SpawnEvent {
    /// Decodes the payload from the parameter bytes.
    pub fn parse(input: &[u8]) -> (r: Result<Self, Error>)
        ensures
            match spawn_parse_spec(input@) {
                Some(v) => r matches Ok(ev) && ev@ == v,
                None => r is Err,
            },
    {
        apply_params(SpawnEvent { class: None }, input)
    }
}

#[derive(Debug, PartialEq, Eq)]
pub struct RoleChangeEvent {
    pub class: Option<Class>,
}

/// The mathematical shape of the payload.
pub struct RoleChangeEventV {
    pub class: Option<Class>,
}

impl View for RoleChangeEvent {
    type V = RoleChangeEventV;

    open spec fn view(&self) -> RoleChangeEventV {
        RoleChangeEventV {
            class: (self.class),
        }
    }
}

impl<'a> EventFields<'a> for RoleChangeEvent {
    open spec fn apply_view(v: RoleChangeEventV, key: Seq<u8>, value: Seq<u8>) -> Option<RoleChangeEventV> {
        if key == key_to() {
            match class_from_spec(value) {
                Some(x) => Some(RoleChangeEventV { class: Some(x), ..v }),
                None => None,
            }
        } else {
            Some(v)
        }
    }

    fn apply(self, key: &'a [u8], value: &'a [u8]) -> (r: Result<Self, Error>) {
        if is_key_to(key) {
            match Class::from_bytes(value) {
                Some(x) => Ok(RoleChangeEvent { class: Some(x), ..self }),
                None => Err(Error::Malformed),
            }
        } else {
            Ok(self)
        }
    }
}

/// What decoding this payload yields, over the parameter bytes.
pub open spec fn role_change_parse_spec(s: Seq<u8>) -> Option<RoleChangeEventV> {
    apply_all_view::<RoleChangeEvent>(
        RoleChangeEventV { class: None },
        param_pairs_spec(s),
    )
}

impl RoleChangeEvent {
    /// Decodes the payload from the parameter bytes.
    pub fn parse(input: &[u8]) -> (r: Result<Self, Error>)
        ensures
            match role_change_parse_spec(input@) {
                Some(v) => r matches Ok(ev) && ev@ == v,
                None => r is Err,
            },
    {
        apply_params(RoleChangeEvent { class: None }, input)
    }
}

#[derive(Debug, PartialEq, Eq)]
pub struct ConnectedEvent<'a> {
    pub address: &'a [u8],
}

/// The mathematical shape of the payload.
pub struct ConnectedEventV {
    pub address: Seq<u8>,
}

impl<'a> View for ConnectedEvent<'a> {
    type V = ConnectedEventV;

    open spec fn view(&self) -> ConnectedEventV {
        ConnectedEventV {
            address: (self.address@),
        }
    }
}

/// What decoding this payload yields, over the parameter bytes.
pub open spec fn connected_parse_spec(s: Seq<u8>) -> Option<ConnectedEventV> {
    let p0 = param_parse_with_spec(s, 7, false);
    if p0 is None {
        None
    } else {
        Some(ConnectedEventV { address: (p0->0).0 })
    }
}

impl<'a> ConnectedEvent<'a> {
    /// Decodes the payload from the parameter bytes.
    pub fn parse(input: &'a [u8]) -> (r: Result<Self, Error>)
        ensures
            match connected_parse_spec(input@) {
                Some(v) => r matches Ok(ev) && ev@ == v,
                None => r is Err,
            },
    {
        let (v0, rest0) = param_parse_with(input, 7, false)?;
        Ok(ConnectedEvent { address: v0 })
    }
}

#[derive(Debug, PartialEq, Eq)]
pub struct JoinedTeamEvent {
    pub team: Team,
}

/// The mathematical shape of the payload.
pub struct JoinedTeamEventV {
    pub team: Team,
}

impl View for JoinedTeamEvent {
    type V = JoinedTeamEventV;

    open spec fn view(&self) -> JoinedTeamEventV {
        JoinedTeamEventV {
            team: (self.team),
        }
    }
}

/// What decoding this payload yields, over the parameter bytes.
pub open spec fn joined_team_parse_spec(s: Seq<u8>) -> Option<JoinedTeamEventV> {
    let p0 = param_parse_with_spec(s, 4, false);
    if p0 is None {
        None
    } else {
        let f0 = team_from_spec((p0->0).0);
        if f0 is None {
            None
        } else {
            Some(JoinedTeamEventV { team: f0->0 })
        }
    }
}

impl JoinedTeamEvent {
    /// Decodes the payload from the parameter bytes.
    pub fn parse(input: &[u8]) -> (r: Result<Self, Error>)
        ensures
            match joined_team_parse_spec(input@) {
                Some(v) => r matches Ok(ev) && ev@ == v,
                None => r is Err,
            },
    {
        let (v0, rest0) = param_parse_with(input, 4, false)?;
        let f_team = match Team::from_bytes(v0) { Some(x) => x, None => { return Err(Error::Malformed); } };
        Ok(JoinedTeamEvent { team: f_team })
    }
}

#[derive(Debug, PartialEq, Eq)]
pub struct CommittedSuicideEvent<'a> {
    pub weapon: &'a [u8],
    pub attacker_position: Option<(i32, i32, i32)>,
}

/// The mathematical shape of the payload.
pub struct CommittedSuicideEventV {
    pub weapon: Seq<u8>,
    pub attacker_position: Option<(i32, i32, i32)>,
}

impl<'a> View for CommittedSuicideEvent<'a> {
    type V = CommittedSuicideEventV;

    open spec fn view(&self) -> CommittedSuicideEventV {
        CommittedSuicideEventV {
            weapon: (self.weapon@),
            attacker_position: (self.attacker_position),
        }
    }
}

impl<'a> EventFields<'a> for CommittedSuicideEvent<'a> {
    open spec fn apply_view(v: CommittedSuicideEventV, key: Seq<u8>, value: Seq<u8>) -> Option<CommittedSuicideEventV> {
        if key == key_attacker_position() {
            match parse_triple_spec(value) {
                Some(x) => Some(CommittedSuicideEventV { attacker_position: Some(x), ..v }),
                None => None,
            }
        } else {
            Some(v)
        }
    }

    fn apply(self, key: &'a [u8], value: &'a [u8]) -> (r: Result<Self, Error>) {
        if is_key_attacker_position(key) {
            let t = parse_triple(value)?;
            Ok(CommittedSuicideEvent { attacker_position: Some(t), ..self })
        } else {
            Ok(self)
        }
    }
}

/// What decoding this payload yields, over the parameter bytes.
pub open spec fn committed_suicide_parse_spec(s: Seq<u8>) -> Option<CommittedSuicideEventV> {
    let p0 = param_parse_with_spec(s, 4, false);
    if p0 is None {
        None
    } else {
        apply_all_view::<CommittedSuicideEvent<'static>>(
            CommittedSuicideEventV { weapon: (p0->0).0, attacker_position: None },
            param_pairs_spec((p0->0).1),
        )
    }
}

impl<'a> CommittedSuicideEvent<'a> {
    /// Decodes the payload from the parameter bytes.
    pub fn parse(input: &'a [u8]) -> (r: Result<Self, Error>)
        ensures
            match committed_suicide_parse_spec(input@) {
                Some(v) => r matches Ok(ev) && ev@ == v,
                None => r is Err,
            },
    {
        let (v0, rest0) = param_parse_with(input, 4, false)?;
        apply_params(CommittedSuicideEvent { weapon: v0, attacker_position: None }, rest0)
    }
}

#[derive(Debug, PartialEq, Eq)]
pub struct PickedUpEvent<'a> {
    pub item: &'a [u8],
}

/// The mathematical shape of the payload.
pub struct PickedUpEventV {
    pub item: Seq<u8>,
}

impl<'a> View for PickedUpEvent<'a> {
    type V = PickedUpEventV;

    open spec fn view(&self) -> PickedUpEventV {
        PickedUpEventV {
            item: (self.item@),
        }
    }
}

/// What decoding this payload yields, over the parameter bytes.
pub open spec fn picked_up_parse_spec(s: Seq<u8>) -> Option<PickedUpEventV> {
    let p0 = param_parse_with_spec(s, 4, false);
    if p0 is None {
        None
    } else {
        Some(PickedUpEventV { item: (p0->0).0 })
    }
}

impl<'a> PickedUpEvent<'a> {
    /// Decodes the payload from the parameter bytes.
    pub fn parse(input: &'a [u8]) -> (r: Result<Self, Error>)
        ensures
            match picked_up_parse_spec(input@) {
                Some(v) => r matches Ok(ev) && ev@ == v,
                None => r is Err,
            },
    {
        let (v0, rest0) = param_parse_with(input, 4, false)?;
        Ok(PickedUpEvent { item: v0 })
    }
}

#[derive(Debug, PartialEq, Eq)]
pub struct DominationEvent<'a> {
    pub against: RawSubject<'a>,
}

/// The mathematical shape of the payload.
pub struct DominationEventV {
    pub against: RawSubjectView,
}

impl<'a> View for DominationEvent<'a> {
    type V = DominationEventV;

    open spec fn view(&self) -> DominationEventV {
        DominationEventV {
            against: (self.against@),
        }
    }
}

/// What decoding this payload yields, over the parameter bytes.
pub open spec fn domination_parse_spec(s: Seq<u8>) -> Option<DominationEventV> {
    let p0 = param_parse_with_spec(s, 7, true);
    if p0 is None {
        None
    } else {
        Some(DominationEventV { against: against_subject_spec((p0->0).0) })
    }
}

impl<'a> DominationEvent<'a> {
    /// Decodes the payload from the parameter bytes.
    pub fn parse(input: &'a [u8]) -> (r: Result<Self, Error>)
        ensures
            match domination_parse_spec(input@) {
                Some(v) => r matches Ok(ev) && ev@ == v,
                None => r is Err,
            },
    {
        let (v0, rest0) = param_parse_with(input, 7, true)?;
        let f_against = against_subject_parser(v0)?;
        Ok(DominationEvent { against: f_against })
    }
}

#[derive(Debug, PartialEq, Eq)]
pub struct RevengeEvent<'a> {
    pub against: RawSubject<'a>,
}

/// The mathematical shape of the payload.
pub struct RevengeEventV {
    pub against: RawSubjectView,
}

impl<'a> View for RevengeEvent<'a> {
    type V = RevengeEventV;

    open spec fn view(&self) -> RevengeEventV {
        RevengeEventV {
            against: (self.against@),
        }
    }
}

/// What decoding this payload yields, over the parameter bytes.
pub open spec fn revenge_parse_spec(s: Seq<u8>) -> Option<RevengeEventV> {
    let p0 = param_parse_with_spec(s, 7, true);
    if p0 is None {
        None
    } else {
        Some(RevengeEventV { against: against_subject_spec((p0->0).0) })
    }
}

impl<'a> RevengeEvent<'a> {
    /// Decodes the payload from the parameter bytes.
    pub fn parse(input: &'a [u8]) -> (r: Result<Self, Error>)
        ensures
            match revenge_parse_spec(input@) {
                Some(v) => r matches Ok(ev) && ev@ == v,
                None => r is Err,
            },
    {
        let (v0, rest0) = param_parse_with(input, 7, true)?;
        let f_against = against_subject_parser(v0)?;
        Ok(RevengeEvent { against: f_against })
    }
}

#[derive(Debug, PartialEq, Eq)]
pub struct DisconnectEvent<'a> {
    pub reason: Option<&'a [u8]>,
}

/// The mathematical shape of the payload.
pub struct DisconnectEventV {
    pub reason: Option<Seq<u8>>,
}

impl<'a> View for DisconnectEvent<'a> {
    type V = DisconnectEventV;

    open spec fn view(&self) -> DisconnectEventV {
        DisconnectEventV {
            reason: (match self.reason { Some(x) => Some(x@), None => None }),
        }
    }
}

impl<'a> EventFields<'a> for DisconnectEvent<'a> {
    open spec fn apply_view(v: DisconnectEventV, key: Seq<u8>, value: Seq<u8>) -> Option<DisconnectEventV> {
        if key == key_reason() {
            Some(DisconnectEventV { reason: Some(value), ..v })
        } else {
            Some(v)
        }
    }

    fn apply(self, key: &'a [u8], value: &'a [u8]) -> (r: Result<Self, Error>) {
        if is_key_reason(key) {
            Ok(DisconnectEvent { reason: Some(value), ..self })
        } else {
            Ok(self)
        }
    }
}

/// What decoding this payload yields, over the parameter bytes.
pub open spec fn disconnect_parse_spec(s: Seq<u8>) -> Option<DisconnectEventV> {
    apply_all_view::<DisconnectEvent<'static>>(
        DisconnectEventV { reason: None },
        param_pairs_spec(s),
    )
}

impl<'a> DisconnectEvent<'a> {
    /// Decodes the payload from the parameter bytes.
    pub fn parse(input: &'a [u8]) -> (r: Result<Self, Error>)
        ensures
            match disconnect_parse_spec(input@) {
                Some(v) => r matches Ok(ev) && ev@ == v,
                None => r is Err,
            },
    {
        apply_params(DisconnectEvent { reason: None }, input)
    }
}

#[derive(Debug, PartialEq, Eq)]
pub struct BuiltObjectEvent<'a> {
    pub object: Option<&'a [u8]>,
    pub position: Option<(i32, i32, i32)>,
}

/// The mathematical shape of the payload.
pub struct BuiltObjectEventV {
    pub object: Option<Seq<u8>>,
    pub position: Option<(i32, i32, i32)>,
}

impl<'a> View for BuiltObjectEvent<'a> {
    type V = BuiltObjectEventV;

    open spec fn view(&self) -> BuiltObjectEventV {
        BuiltObjectEventV {
            object: (match self.object { Some(x) => Some(x@), None => None }),
            position: (self.position),
        }
    }
}

impl<'a> EventFields<'a> for BuiltObjectEvent<'a> {
    open spec fn apply_view(v: BuiltObjectEventV, key: Seq<u8>, value: Seq<u8>) -> Option<BuiltObjectEventV> {
        if key == key_object() {
            Some(BuiltObjectEventV { object: Some(value), ..v })
        } else if key == key_position() {
            match parse_triple_spec(value) {
                Some(x) => Some(BuiltObjectEventV { position: Some(x), ..v }),
                None => None,
            }
        } else {
            Some(v)
        }
    }

    fn apply(self, key: &'a [u8], value: &'a [u8]) -> (r: Result<Self, Error>) {
        if is_key_object(key) {
            Ok(BuiltObjectEvent { object: Some(value), ..self })
        } else if is_key_position(key) {
            let t = parse_triple(value)?;
            Ok(BuiltObjectEvent { position: Some(t), ..self })
        } else {
            Ok(self)
        }
    }
}

/// What decoding this payload yields, over the parameter bytes.
pub open spec fn built_object_parse_spec(s: Seq<u8>) -> Option<BuiltObjectEventV> {
    apply_all_view::<BuiltObjectEvent<'static>>(
        BuiltObjectEventV { object: None, position: None },
        param_pairs_spec(s),
    )
}

impl<'a> BuiltObjectEvent<'a> {
    /// Decodes the payload from the parameter bytes.
    pub fn parse(input: &'a [u8]) -> (r: Result<Self, Error>)
        ensures
            match built_object_parse_spec(input@) {
                Some(v) => r matches Ok(ev) && ev@ == v,
                None => r is Err,
            },
    {
        apply_params(BuiltObjectEvent { object: None, position: None }, input)
    }
}

#[derive(Debug, PartialEq, Eq)]
pub struct BuiltCarryEvent<'a> {
    pub object: Option<&'a [u8]>,
    pub position: Option<(i32, i32, i32)>,
}

/// The mathematical shape of the payload.
pub struct BuiltCarryEventV {
    pub object: Option<Seq<u8>>,
    pub position: Option<(i32, i32, i32)>,
}

impl<'a> View for BuiltCarryEvent<'a> {
    type V = BuiltCarryEventV;

    open spec fn view(&self) -> BuiltCarryEventV {
        BuiltCarryEventV {
            object: (match self.object { Some(x) => Some(x@), None => None }),
            position: (self.position),
        }
    }
}

impl<'a> EventFields<'a> for BuiltCarryEvent<'a> {
    open spec fn apply_view(v: BuiltCarryEventV, key: Seq<u8>, value: Seq<u8>) -> Option<BuiltCarryEventV> {
        if key == key_object() {
            Some(BuiltCarryEventV { object: Some(value), ..v })
        } else if key == key_position() {
            match parse_triple_spec(value) {
                Some(x) => Some(BuiltCarryEventV { position: Some(x), ..v }),
                None => None,
            }
        } else {
            Some(v)
        }
    }

    fn apply(self, key: &'a [u8], value: &'a [u8]) -> (r: Result<Self, Error>) {
        if is_key_object(key) {
            Ok(BuiltCarryEvent { object: Some(value), ..self })
        } else if is_key_position(key) {
            let t = parse_triple(value)?;
            Ok(BuiltCarryEvent { position: Some(t), ..self })
        } else {
            Ok(self)
        }
    }
}

/// What decoding this payload yields, over the parameter bytes.
pub open spec fn built_carry_parse_spec(s: Seq<u8>) -> Option<BuiltCarryEventV> {
    apply_all_view::<BuiltCarryEvent<'static>>(
        BuiltCarryEventV { object: None, position: None },
        param_pairs_spec(s),
    )
}

impl<'a> BuiltCarryEvent<'a> {
    /// Decodes the payload from the parameter bytes.
    pub fn parse(input: &'a [u8]) -> (r: Result<Self, Error>)
        ensures
            match built_carry_parse_spec(input@) {
                Some(v) => r matches Ok(ev) && ev@ == v,
                None => r is Err,
            },
    {
        apply_params(BuiltCarryEvent { object: None, position: None }, input)
    }
}

#[derive(Debug, PartialEq, Eq)]
pub struct DropObjectEvent<'a> {
    pub object: Option<&'a [u8]>,
    pub position: Option<(i32, i32, i32)>,
}

/// The mathematical shape of the payload.
pub struct DropObjectEventV {
    pub object: Option<Seq<u8>>,
    pub position: Option<(i32, i32, i32)>,
}

impl<'a> View for DropObjectEvent<'a> {
    type V = DropObjectEventV;

    open spec fn view(&self) -> DropObjectEventV {
        DropObjectEventV {
            object: (match self.object { Some(x) => Some(x@), None => None }),
            position: (self.position),
        }
    }
}

impl<'a> EventFields<'a> for DropObjectEvent<'a> {
    open spec fn apply_view(v: DropObjectEventV, key: Seq<u8>, value: Seq<u8>) -> Option<DropObjectEventV> {
        if key == key_object() {
            Some(DropObjectEventV { object: Some(value), ..v })
        } else if key == key_position() {
            match parse_triple_spec(value) {
                Some(x) => Some(DropObjectEventV { position: Some(x), ..v }),
                None => None,
            }
        } else {
            Some(v)
        }
    }

    fn apply(self, key: &'a [u8], value: &'a [u8]) -> (r: Result<Self, Error>) {
        if is_key_object(key) {
            Ok(DropObjectEvent { object: Some(value), ..self })
        } else if is_key_position(key) {
            let t = parse_triple(value)?;
            Ok(DropObjectEvent { position: Some(t), ..self })
        } else {
            Ok(self)
        }
    }
}

/// What decoding this payload yields, over the parameter bytes.
pub open spec fn drop_object_parse_spec(s: Seq<u8>) -> Option<DropObjectEventV> {
    apply_all_view::<DropObjectEvent<'static>>(
        DropObjectEventV { object: None, position: None },
        param_pairs_spec(s),
    )
}

impl<'a> DropObjectEvent<'a> {
    /// Decodes the payload from the parameter bytes.
    pub fn parse(input: &'a [u8]) -> (r: Result<Self, Error>)
        ensures
            match drop_object_parse_spec(input@) {
                Some(v) => r matches Ok(ev) && ev@ == v,
                None => r is Err,
            },
    {
        apply_params(DropObjectEvent { object: None, position: None }, input)
    }
}

#[derive(Debug, PartialEq, Eq)]
pub struct KilledObjectEvent<'a> {
    pub object: Option<&'a [u8]>,
    pub weapon: Option<&'a [u8]>,
    pub object_owner: Option<RawSubject<'a>>,
    pub attacker_position: Option<(i32, i32, i32)>,
}

/// The mathematical shape of the payload.
pub struct KilledObjectEventV {
    pub object: Option<Seq<u8>>,
    pub weapon: Option<Seq<u8>>,
    pub object_owner: Option<RawSubjectView>,
    pub attacker_position: Option<(i32, i32, i32)>,
}

impl<'a> View for KilledObjectEvent<'a> {
    type V = KilledObjectEventV;

    open spec fn view(&self) -> KilledObjectEventV {
        KilledObjectEventV {
            object: (match self.object { Some(x) => Some(x@), None => None }),
            weapon: (match self.weapon { Some(x) => Some(x@), None => None }),
            object_owner: (match self.object_owner { Some(x) => Some(x@), None => None }),
            attacker_position: (self.attacker_position),
        }
    }
}

impl<'a> EventFields<'a> for KilledObjectEvent<'a> {
    open spec fn apply_view(v: KilledObjectEventV, key: Seq<u8>, value: Seq<u8>) -> Option<KilledObjectEventV> {
        if key == key_object() {
            Some(KilledObjectEventV { object: Some(value), ..v })
        } else if key == key_weapon() {
            Some(KilledObjectEventV { weapon: Some(value), ..v })
        } else if key == key_objectowner() {
            Some(KilledObjectEventV { object_owner: Some(against_subject_spec(value)), ..v })
        } else if key == key_attacker_position() {
            match parse_triple_spec(value) {
                Some(x) => Some(KilledObjectEventV { attacker_position: Some(x), ..v }),
                None => None,
            }
        } else {
            Some(v)
        }
    }

    fn apply(self, key: &'a [u8], value: &'a [u8]) -> (r: Result<Self, Error>) {
        if is_key_object(key) {
            Ok(KilledObjectEvent { object: Some(value), ..self })
        } else if is_key_weapon(key) {
            Ok(KilledObjectEvent { weapon: Some(value), ..self })
        } else if is_key_objectowner(key) {
            let s = against_subject_parser(value)?;
            Ok(KilledObjectEvent { object_owner: Some(s), ..self })
        } else if is_key_attacker_position(key) {
            let t = parse_triple(value)?;
            Ok(KilledObjectEvent { attacker_position: Some(t), ..self })
        } else {
            Ok(self)
        }
    }
}

/// What decoding this payload yields, over the parameter bytes.
pub open spec fn killed_object_parse_spec(s: Seq<u8>) -> Option<KilledObjectEventV> {
    apply_all_view::<KilledObjectEvent<'static>>(
        KilledObjectEventV { object: None, weapon: None, object_owner: None, attacker_position: None },
        param_pairs_spec(s),
    )
}

impl<'a> KilledObjectEvent<'a> {
    /// Decodes the payload from the parameter bytes.
    pub fn parse(input: &'a [u8]) -> (r: Result<Self, Error>)
        ensures
            match killed_object_parse_spec(input@) {
                Some(v) => r matches Ok(ev) && ev@ == v,
                None => r is Err,
            },
    {
        apply_params(KilledObjectEvent { object: None, weapon: None, object_owner: None, attacker_position: None }, input)
    }
}

#[derive(Debug, PartialEq, Eq)]
pub struct ObjectDetonatedEvent<'a> {
    pub object: Option<&'a [u8]>,
    pub position: Option<(i32, i32, i32)>,
}

/// The mathematical shape of the payload.
pub struct ObjectDetonatedEventV {
    pub object: Option<Seq<u8>>,
    pub position: Option<(i32, i32, i32)>,
}

impl<'a> View for ObjectDetonatedEvent<'a> {
    type V = ObjectDetonatedEventV;

    open spec fn view(&self) -> ObjectDetonatedEventV {
        ObjectDetonatedEventV {
            object: (match self.object { Some(x) => Some(x@), None => None }),
            position: (self.position),
        }
    }
}

impl<'a> EventFields<'a> for ObjectDetonatedEvent<'a> {
    open spec fn apply_view(v: ObjectDetonatedEventV, key: Seq<u8>, value: Seq<u8>) -> Option<ObjectDetonatedEventV> {
        if key == key_object() {
            Some(ObjectDetonatedEventV { object: Some(value), ..v })
        } else if key == key_attacker_position() {
            match parse_triple_spec(value) {
                Some(x) => Some(ObjectDetonatedEventV { position: Some(x), ..v }),
                None => None,
            }
        } else {
            Some(v)
        }
    }

    fn apply(self, key: &'a [u8], value: &'a [u8]) -> (r: Result<Self, Error>) {
        if is_key_object(key) {
            Ok(ObjectDetonatedEvent { object: Some(value), ..self })
        } else if is_key_attacker_position(key) {
            let t = parse_triple(value)?;
            Ok(ObjectDetonatedEvent { position: Some(t), ..self })
        } else {
            Ok(self)
        }
    }
}

/// What decoding this payload yields, over the parameter bytes.
pub open spec fn object_detonated_parse_spec(s: Seq<u8>) -> Option<ObjectDetonatedEventV> {
    apply_all_view::<ObjectDetonatedEvent<'static>>(
        ObjectDetonatedEventV { object: None, position: None },
        param_pairs_spec(s),
    )
}

impl<'a> ObjectDetonatedEvent<'a> {
    /// Decodes the payload from the parameter bytes.
    pub fn parse(input: &'a [u8]) -> (r: Result<Self, Error>)
        ensures
            match object_detonated_parse_spec(input@) {
                Some(v) => r matches Ok(ev) && ev@ == v,
                None => r is Err,
            },
    {
        apply_params(ObjectDetonatedEvent { object: None, position: None }, input)
    }
}

#[derive(Debug, PartialEq, Eq)]
pub struct ExtinguishedEvent<'a> {
    pub against: RawSubject<'a>,
    pub with: &'a [u8],
    pub attacker_position: Option<(i32, i32, i32)>,
    pub victim_position: Option<(i32, i32, i32)>,
}

/// The mathematical shape of the payload.
pub struct ExtinguishedEventV {
    pub against: RawSubjectView,
    pub with: Seq<u8>,
    pub attacker_position: Option<(i32, i32, i32)>,
    pub victim_position: Option<(i32, i32, i32)>,
}

impl<'a> View for ExtinguishedEvent<'a> {
    type V = ExtinguishedEventV;

    open spec fn view(&self) -> ExtinguishedEventV {
        ExtinguishedEventV {
            against: (self.against@),
            with: (self.with@),
            attacker_position: (self.attacker_position),
            victim_position: (self.victim_position),
        }
    }
}

impl<'a> EventFields<'a> for ExtinguishedEvent<'a> {
    open spec fn apply_view(v: ExtinguishedEventV, key: Seq<u8>, value: Seq<u8>) -> Option<ExtinguishedEventV> {
        if key == key_attacker_position() {
            match parse_triple_spec(value) {
                Some(x) => Some(ExtinguishedEventV { attacker_position: Some(x), ..v }),
                None => None,
            }
        } else if key == key_victim_position() {
            match parse_triple_spec(value) {
                Some(x) => Some(ExtinguishedEventV { victim_position: Some(x), ..v }),
                None => None,
            }
        } else {
            Some(v)
        }
    }

    fn apply(self, key: &'a [u8], value: &'a [u8]) -> (r: Result<Self, Error>) {
        if is_key_attacker_position(key) {
            let t = parse_triple(value)?;
            Ok(ExtinguishedEvent { attacker_position: Some(t), ..self })
        } else if is_key_victim_position(key) {
            let t = parse_triple(value)?;
            Ok(ExtinguishedEvent { victim_position: Some(t), ..self })
        } else {
            Ok(self)
        }
    }
}

/// What decoding this payload yields, over the parameter bytes.
pub open spec fn extinguished_parse_spec(s: Seq<u8>) -> Option<ExtinguishedEventV> {
    let p0 = param_parse_with_spec(s, 7, true);
    if p0 is None {
        None
    } else {
        let p1 = param_parse_with_spec((p0->0).1, 4, false);
        if p1 is None {
            None
        } else {
            apply_all_view::<ExtinguishedEvent<'static>>(
                ExtinguishedEventV { against: against_subject_spec((p0->0).0), with: (p1->0).0, attacker_position: None, victim_position: None },
                param_pairs_spec((p1->0).1),
            )
        }
    }
}

impl<'a> ExtinguishedEvent<'a> {
    /// Decodes the payload from the parameter bytes.
    pub fn parse(input: &'a [u8]) -> (r: Result<Self, Error>)
        ensures
            match extinguished_parse_spec(input@) {
                Some(v) => r matches Ok(ev) && ev@ == v,
                None => r is Err,
            },
    {
        let (v0, rest0) = param_parse_with(input, 7, true)?;
        let f_against = against_subject_parser(v0)?;
        let (v1, rest1) = param_parse_with(rest0, 4, false)?;
        apply_params(ExtinguishedEvent { against: f_against, with: v1, attacker_position: None, victim_position: None }, rest1)
    }
}

#[derive(Debug, PartialEq, Eq)]
pub struct SayEvent<'a> {
    pub text: &'a [u8],
}

/// The mathematical shape of the payload.
pub struct SayEventV {
    pub text: Seq<u8>,
}

impl<'a> View for SayEvent<'a> {
    type V = SayEventV;

    open spec fn view(&self) -> SayEventV {
        SayEventV {
            text: (self.text@),
        }
    }
}

/// What decoding this payload yields, over the parameter bytes.
pub open spec fn say_parse_spec(s: Seq<u8>) -> Option<SayEventV> {
    Some(SayEventV { text: say_text_spec(s) })
}

impl<'a> SayEvent<'a> {
    /// Decodes the payload from the parameter bytes.
    pub fn parse(input: &'a [u8]) -> (r: Result<Self, Error>)
        ensures
            match say_parse_spec(input@) {
                Some(v) => r matches Ok(ev) && ev@ == v,
                None => r is Err,
            },
    {
        let f_text = say_text(input);
        Ok(SayEvent { text: f_text })
    }
}

#[derive(Debug, PartialEq, Eq)]
pub struct SayTeamEvent<'a> {
    pub text: &'a [u8],
}

/// The mathematical shape of the payload.
pub struct SayTeamEventV {
    pub text: Seq<u8>,
}

impl<'a> View for SayTeamEvent<'a> {
    type V = SayTeamEventV;

    open spec fn view(&self) -> SayTeamEventV {
        SayTeamEventV {
            text: (self.text@),
        }
    }
}

/// What decoding this payload yields, over the parameter bytes.
pub open spec fn say_team_parse_spec(s: Seq<u8>) -> Option<SayTeamEventV> {
    Some(SayTeamEventV { text: say_text_spec(s) })
}

impl<'a> SayTeamEvent<'a> {
    /// Decodes the payload from the parameter bytes.
    pub fn parse(input: &'a [u8]) -> (r: Result<Self, Error>)
        ensures
            match say_team_parse_spec(input@) {
                Some(v) => r matches Ok(ev) && ev@ == v,
                None => r is Err,
            },
    {
        let f_text = say_text(input);
        Ok(SayTeamEvent { text: f_text })
    }
}

} // verus!
