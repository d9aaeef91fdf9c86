use vstd::prelude::*;

#[allow(unused_imports)]
use crate::common::{class_from_spec, team_from_spec, Class, Team};
use crate::error::Error;
use crate::event::keys::{is_key_against, is_key_charge_percentage, is_key_duration, is_key_healing, is_key_medigun, is_key_time, is_key_ubercharge, key_against, key_charge_percentage, key_duration, key_healing, key_medigun, key_time, key_ubercharge};
#[allow(unused_imports)]
use crate::event::{apply_all_view, apply_params, param_parse_with, param_parse_with_spec, param_pairs_spec,
    parse_triple, parse_triple_spec, quoted_value, quoted_value_spec, say_text, say_text_spec,
    EventFields};
#[allow(unused_imports)]
use crate::num::{parse_centi, parse_centi_spec, parse_u32, parse_u32_spec, parse_u8, parse_u8_spec};
#[allow(unused_imports)]
use crate::parsing::skip;
#[allow(unused_imports)]
use crate::raw_event::{against_subject_parser, against_subject_spec, RawSubject, RawSubjectView};

verus! {

#[derive(Debug, PartialEq, Eq)]
pub struct HealedEvent<'a> {
    pub target: Option<RawSubject<'a>>,
    pub amount: u32,
}

/// The mathematical shape of the payload.
pub struct HealedEventV {
    pub target: Option<RawSubjectView>,
    pub amount: u32,
}

impl<'a> View for HealedEvent<'a> {
    type V = HealedEventV;

    open spec fn view(&self) -> HealedEventV {
        HealedEventV {
            target: (match self.target { Some(x) => Some(x@), None => None }),
            amount: (self.amount),
        }
    }
}

impl<'a> EventFields<'a> for HealedEvent<'a> {
    open spec fn apply_view(v: HealedEventV, key: Seq<u8>, value: Seq<u8>) -> Option<HealedEventV> {
        if key == key_against() {
            Some(HealedEventV { target: Some(against_subject_spec(value)), ..v })
        } else if key == key_healing() {
            match parse_u32_spec(value) {
                Some(x) => Some(HealedEventV { amount: x, ..v }),
                None => None,
            }
        } else {
            Some(v)
        }
    }

    fn apply(self, key: &'a [u8], value: &'a [u8]) -> (r: Result<Self, Error>) {
        if is_key_against(key) {
            let s = against_subject_parser(value)?;
            Ok(HealedEvent { target: Some(s), ..self })
        } else if is_key_healing(key) {
            match parse_u32(value) {
                Some(x) => Ok(HealedEvent { amount: x, ..self }),
                None => Err(Error::Malformed),
            }
        } else {
            Ok(self)
        }
    }
}

/// What decoding this payload yields, over the parameter bytes.
pub open spec fn healed_parse_spec(s: Seq<u8>) -> Option<HealedEventV> {
    apply_all_view::<HealedEvent<'static>>(
        HealedEventV { target: None, amount: 0 },
        param_pairs_spec(s),
    )
}

impl<'a> HealedEvent<'a> {
    /// Decodes the payload from the parameter bytes.
    pub fn parse(input: &'a [u8]) -> (r: Result<Self, Error>)
        ensures
            match healed_parse_spec(input@) {
                Some(v) => r matches Ok(ev) && ev@ == v,
                None => r is Err,
            },
    {
        apply_params(HealedEvent { target: None, amount: 0 }, input)
    }
}

#[derive(Debug, PartialEq, Eq)]
pub struct ChargeDeployedEvent<'a> {
    pub medigun: Option<&'a [u8]>,
}

/// The mathematical shape of the payload.
pub struct ChargeDeployedEventV {
    pub medigun: Option<Seq<u8>>,
}

impl<'a> View for ChargeDeployedEvent<'a> {
    type V = ChargeDeployedEventV;

    open spec fn view(&self) -> ChargeDeployedEventV {
        ChargeDeployedEventV {
            medigun: (match self.medigun { Some(x) => Some(x@), None => None }),
        }
    }
}

impl<'a> EventFields<'a> for ChargeDeployedEvent<'a> {
    open spec fn apply_view(v: ChargeDeployedEventV, key: Seq<u8>, value: Seq<u8>) -> Option<ChargeDeployedEventV> {
        if key == key_medigun() {
            Some(ChargeDeployedEventV { medigun: Some(value), ..v })
        } else {
            Some(v)
        }
    }

    fn apply(self, key: &'a [u8], value: &'a [u8]) -> (r: Result<Self, Error>) {
        if is_key_medigun(key) {
            Ok(ChargeDeployedEvent { medigun: Some(value), ..self })
        } else {
            Ok(self)
        }
    }
}

/// What decoding this payload yields, over the parameter bytes.
pub open spec fn charge_deployed_parse_spec(s: Seq<u8>) -> Option<ChargeDeployedEventV> {
    apply_all_view::<ChargeDeployedEvent<'static>>(
        ChargeDeployedEventV { medigun: None },
        param_pairs_spec(s),
    )
}

impl<'a> ChargeDeployedEvent<'a> {
    /// Decodes the payload from the parameter bytes.
    pub fn parse(input: &'a [u8]) -> (r: Result<Self, Error>)
        ensures
            match charge_deployed_parse_spec(input@) {
                Some(v) => r matches Ok(ev) && ev@ == v,
                None => r is Err,
            },
    {
        apply_params(ChargeDeployedEvent { medigun: None }, input)
    }
}

#[derive(Debug, PartialEq, Eq)]
pub struct ChargeEndedEvent {
    pub duration: Option<u32>,
}

/// The mathematical shape of the payload.
pub struct ChargeEndedEventV {
    pub duration: Option<u32>,
}

impl View for ChargeEndedEvent {
    type V = ChargeEndedEventV;

    open spec fn view(&self) -> ChargeEndedEventV {
        ChargeEndedEventV {
            duration: (self.duration),
        }
    }
}

impl<'a> EventFields<'a> for ChargeEndedEvent {
    open spec fn apply_view(v: ChargeEndedEventV, key: Seq<u8>, value: Seq<u8>) -> Option<ChargeEndedEventV> {
        if key == key_duration() {
            match parse_centi_spec(value) {
                Some(x) => Some(ChargeEndedEventV { duration: Some(x), ..v }),
                None => None,
            }
        } else {
            Some(v)
        }
    }

    fn apply(self, key: &'a [u8], value: &'a [u8]) -> (r: Result<Self, Error>) {
        if is_key_duration(key) {
            match parse_centi(value) {
                Some(x) => Ok(ChargeEndedEvent { duration: Some(x), ..self }),
                None => Err(Error::Malformed),
            }
        } else {
            Ok(self)
        }
    }
}

/// What decoding this payload yields, over the parameter bytes.
pub open spec fn charge_ended_parse_spec(s: Seq<u8>) -> Option<ChargeEndedEventV> {
    apply_all_view::<ChargeEndedEvent>(
        ChargeEndedEventV { duration: None },
        param_pairs_spec(s),
    )
}

impl ChargeEndedEvent {
    /// Decodes the payload from the parameter bytes.
    pub fn parse(input: &[u8]) -> (r: Result<Self, Error>)
        ensures
            match charge_ended_parse_spec(input@) {
                Some(v) => r matches Ok(ev) && ev@ == v,
                None => r is Err,
            },
    {
        apply_params(ChargeEndedEvent { duration: None }, input)
    }
}

#[derive(Debug, PartialEq, Eq)]
pub struct AdvantageLostEvent {
    pub time: Option<u32>,
}

/// The mathematical shape of the payload.
pub struct AdvantageLostEventV {
    pub time: Option<u32>,
}

impl View for AdvantageLostEvent {
    type V = AdvantageLostEventV;

    open spec fn view(&self) -> AdvantageLostEventV {
        AdvantageLostEventV {
            time: (self.time),
        }
    }
}

impl<'a> EventFields<'a> for AdvantageLostEvent {
    open spec fn apply_view(v: AdvantageLostEventV, key: Seq<u8>, value: Seq<u8>) -> Option<AdvantageLostEventV> {
        if key == key_time() {
            match parse_centi_spec(value) {
                Some(x) => Some(AdvantageLostEventV { time: Some(x), ..v }),
                None => None,
            }
        } else {
            Some(v)
        }
    }

    fn apply(self, key: &'a [u8], value: &'a [u8]) -> (r: Result<Self, Error>) {
        if is_key_time(key) {
            match parse_centi(value) {
                Some(x) => Ok(AdvantageLostEvent { time: Some(x), ..self }),
                None => Err(Error::Malformed),
            }
        } else {
            Ok(self)
        }
    }
}

/// What decoding this payload yields, over the parameter bytes.
pub open spec fn advantage_lost_parse_spec(s: Seq<u8>) -> Option<AdvantageLostEventV> {
    apply_all_view::<AdvantageLostEvent>(
        AdvantageLostEventV { time: None },
        param_pairs_spec(s),
    )
}

impl AdvantageLostEvent {
    /// Decodes the payload from the parameter bytes.
    pub fn parse(input: &[u8]) -> (r: Result<Self, Error>)
        ensures
            match advantage_lost_parse_spec(input@) {
                Some(v) => r matches Ok(ev) && ev@ == v,
                None => r is Err,
            },
    {
        apply_params(AdvantageLostEvent { time: None }, input)
    }
}

#[derive(Debug, PartialEq, Eq)]
pub struct FirstHealEvent {
    pub time: Option<u32>,
}

/// The mathematical shape of the payload.
pub struct FirstHealEventV {
    pub time: Option<u32>,
}

impl View for FirstHealEvent {
    type V = FirstHealEventV;

    open spec fn view(&self) -> FirstHealEventV {
        FirstHealEventV {
            time: (self.time),
        }
    }
}

impl<'a> EventFields<'a> for FirstHealEvent {
    open spec fn apply_view(v: FirstHealEventV, key: Seq<u8>, value: Seq<u8>) -> Option<FirstHealEventV> {
        if key == key_time() {
            match parse_centi_spec(value) {
                Some(x) => Some(FirstHealEventV { time: Some(x), ..v }),
                None => None,
            }
        } else {
            Some(v)
        }
    }

    fn apply(self, key: &'a [u8], value: &'a [u8]) -> (r: Result<Self, Error>) {
        if is_key_time(key) {
            match parse_centi(value) {
                Some(x) => Ok(FirstHealEvent { time: Some(x), ..self }),
                None => Err(Error::Malformed),
            }
        } else {
            Ok(self)
        }
    }
}

/// What decoding this payload yields, over the parameter bytes.
pub open spec fn first_heal_parse_spec(s: Seq<u8>) -> Option<FirstHealEventV> {
    apply_all_view::<FirstHealEvent>(
        FirstHealEventV { time: None },
        param_pairs_spec(s),
    )
}

impl FirstHealEvent {
    /// Decodes the payload from the parameter bytes.
    pub fn parse(input: &[u8]) -> (r: Result<Self, Error>)
        ensures
            match first_heal_parse_spec(input@) {
                Some(v) => r matches Ok(ev) && ev@ == v,
                None => r is Err,
            },
    {
        apply_params(FirstHealEvent { time: None }, input)
    }
}

#[derive(Debug, PartialEq, Eq)]
pub struct MedicDeathEvent {
    pub charge: Option<u32>,
}

/// The mathematical shape of the payload.
pub struct MedicDeathEventV {
    pub charge: Option<u32>,
}

impl View for MedicDeathEvent {
    type V = MedicDeathEventV;

    open spec fn view(&self) -> MedicDeathEventV {
        MedicDeathEventV {
            charge: (self.charge),
        }
    }
}

impl<'a> EventFields<'a> for MedicDeathEvent {
    open spec fn apply_view(v: MedicDeathEventV, key: Seq<u8>, value: Seq<u8>) -> Option<MedicDeathEventV> {
        if key == key_ubercharge() {
            match parse_u32_spec(value) {
                Some(x) => Some(MedicDeathEventV { charge: Some(x), ..v }),
                None => None,
            }
        } else {
            Some(v)
        }
    }

    fn apply(self, key: &'a [u8], value: &'a [u8]) -> (r: Result<Self, Error>) {
        if is_key_ubercharge(key) {
            match parse_u32(value) {
                Some(x) => Ok(MedicDeathEvent { charge: Some(x), ..self }),
                None => Err(Error::Malformed),
            }
        } else {
            Ok(self)
        }
    }
}

/// What decoding this payload yields, over the parameter bytes.
pub open spec fn medic_death_parse_spec(s: Seq<u8>) -> Option<MedicDeathEventV> {
    apply_all_view::<MedicDeathEvent>(
        MedicDeathEventV { charge: None },
        param_pairs_spec(s),
    )
}

impl MedicDeathEvent {
    /// Decodes the payload from the parameter bytes.
    pub fn parse(input: &[u8]) -> (r: Result<Self, Error>)
        ensures
            match medic_death_parse_spec(input@) {
                Some(v) => r matches Ok(ev) && ev@ == v,
                None => r is Err,
            },
    {
        apply_params(MedicDeathEvent { charge: None }, input)
    }
}

#[derive(Debug, PartialEq, Eq)]
pub struct MedicDeathExEvent {
    pub charge_percentage: Option<u8>,
}

/// The mathematical shape of the payload.
pub struct MedicDeathExEventV {
    pub charge_percentage: Option<u8>,
}

impl View for MedicDeathExEvent {
    type V = MedicDeathExEventV;

    open spec fn view(&self) -> MedicDeathExEventV {
        MedicDeathExEventV {
            charge_percentage: (self.charge_percentage),
        }
    }
}

impl<'a> EventFields<'a> for MedicDeathExEvent {
    open spec fn apply_view(v: MedicDeathExEventV, key: Seq<u8>, value: Seq<u8>) -> Option<MedicDeathExEventV> {
        if key == key_charge_percentage() {
            match parse_u8_spec(value) {
                Some(x) => Some(MedicDeathExEventV { charge_percentage: Some(x), ..v }),
                None => None,
            }
        } else {
            Some(v)
        }
    }

    fn apply(self, key: &'a [u8], value: &'a [u8]) -> (r: Result<Self, Error>) {
        if is_key_charge_percentage(key) {
            match parse_u8(value) {
                Some(x) => Ok(MedicDeathExEvent { charge_percentage: Some(x), ..self }),
                None => Err(Error::Malformed),
            }
        } else {
            Ok(self)
        }
    }
}

/// What decoding this payload yields, over the parameter bytes.
pub open spec fn medic_death_ex_parse_spec(s: Seq<u8>) -> Option<MedicDeathExEventV> {
    apply_all_view::<MedicDeathExEvent>(
        MedicDeathExEventV { charge_percentage: None },
        param_pairs_spec(s),
    )
}

impl MedicDeathExEvent {
    /// Decodes the payload from the parameter bytes.
    pub fn parse(input: &[u8]) -> (r: Result<Self, Error>)
        ensures
            match medic_death_ex_parse_spec(input@) {
                Some(v) => r matches Ok(ev) && ev@ == v,
                None => r is Err,
            },
    {
        apply_params(MedicDeathExEvent { charge_percentage: None }, input)
    }
}

} // verus!
