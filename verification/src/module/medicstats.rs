use vstd::prelude::*;

use crate::common::SubjectId;
use crate::event::{EventMeta, GameEvent, GameEventV};
use crate::num::{sat32, sat_add_u32};
use crate::raw_event::RawEventType;

verus! {

/// Running medic statistics while the log is parsed. Times that the log gives
/// as decimal fractions are carried in hundredths of a second. A pending
/// charge build and the last uber end are tracked as optional times, so a
/// build started at match time zero still counts and a death counts as
/// after-uber only when an uber actually ended.
#[derive(Debug, Clone, Copy, PartialEq, Eq, Structural)]
pub struct MedicStatsBuilder {
    pub advantages_lost: u32,
    pub biggest_advantage_lost: u32,
    pub near_full_charge_death: u32,
    pub deaths_after_uber: u32,
    pub total_time_before_healing: u32,
    pub start_healing_count: u32,
    pub total_time_to_build: u32,
    pub uber_build_count: u32,
    pub total_time_to_use: u32,
    pub total_uber_length: u32,
    pub charge_count: u32,
    pub last_build_start: Option<u32>,
    pub last_uber_end: Option<u32>,
    pub drops: u32,
}

/// The finished medic statistics: totals and counts, from which averages are
/// a division away. Times are in hundredths of a second.
#[derive(Debug, Clone, Copy, PartialEq, Eq, Structural)]
pub struct MedicStats {
    pub advantages_lost: u32,
    pub biggest_advantage_lost: u32,
    pub near_full_charge_death: u32,
    pub deaths_after_uber: u32,
    pub total_time_before_healing: u32,
    pub start_healing_count: u32,
    pub total_time_to_build: u32,
    pub uber_build_count: u32,
    pub total_time_to_use: u32,
    pub total_uber_length: u32,
    pub charge_count: u32,
    pub drops: u32,
}

/// A builder with nothing recorded.
pub open spec fn medic_builder_empty() -> MedicStatsBuilder {
    MedicStatsBuilder {
        advantages_lost: 0,
        biggest_advantage_lost: 0,
        near_full_charge_death: 0,
        deaths_after_uber: 0,
        total_time_before_healing: 0,
        start_healing_count: 0,
        total_time_to_build: 0,
        uber_build_count: 0,
        total_time_to_use: 0,
        total_uber_length: 0,
        charge_count: 0,
        last_build_start: None,
        last_uber_end: None,
        drops: 0,
    }
}

/// The event tags the medic tracker consumes.
pub open spec fn medic_does_handle_spec(ty: RawEventType) -> bool {
    ty == RawEventType::ChargeDeployed || ty == RawEventType::ChargeEnded || ty
        == RawEventType::ChargeReady || ty == RawEventType::AdvantageLost || ty
        == RawEventType::MedicDeath || ty == RawEventType::FirstHeal
}

/// One tracking step over a typed event at a match-relative time.
pub open spec fn medic_step(b: MedicStatsBuilder, time: u32, ev: GameEventV) -> MedicStatsBuilder {
    match ev {
        GameEventV::ChargeEnded(end) => {
            let d = match end.duration {
                Some(d) => d,
                None => 0,
            };
            MedicStatsBuilder {
                total_uber_length: sat32(b.total_uber_length + d),
                last_uber_end: Some(time),
                ..b
            }
        },
        GameEventV::ChargeDeployed(_) => MedicStatsBuilder {
            charge_count: sat32(b.charge_count + 1),
            ..b
        },
        GameEventV::AdvantageLost(lost) => {
            let t = match lost.time {
                Some(t) => t,
                None => 0,
            };
            MedicStatsBuilder {
                advantages_lost: sat32(b.advantages_lost + 1),
                biggest_advantage_lost: if t > b.biggest_advantage_lost {
                    t
                } else {
                    b.biggest_advantage_lost
                },
                ..b
            }
        },
        GameEventV::FirstHeal(first) => {
            let t = match first.time {
                Some(t) => t,
                None => 0,
            };
            MedicStatsBuilder {
                total_time_before_healing: sat32(b.total_time_before_healing + t),
                start_healing_count: sat32(b.start_healing_count + 1),
                last_build_start: Some(time),
                ..b
            }
        },
        GameEventV::ChargeReady => {
            match b.last_build_start {
                Some(t0) => if time >= t0 {
                    MedicStatsBuilder {
                        last_build_start: None,
                        total_time_to_build: sat32(b.total_time_to_build + (time - t0)),
                        uber_build_count: sat32(b.uber_build_count + 1),
                        ..b
                    }
                } else {
                    b
                },
                None => b,
            }
        },
        GameEventV::MedicDeath(death) => {
            let charge = match death.charge {
                Some(c) => c,
                None => 0,
            };
            let b1 = if charge >= 95 && charge < 100 {
                MedicStatsBuilder {
                    near_full_charge_death: sat32(b.near_full_charge_death + 1),
                    ..b
                }
            } else if charge >= 100 {
                MedicStatsBuilder { drops: sat32(b.drops + 1), ..b }
            } else {
                b
            };
            match b1.last_uber_end {
                Some(e) => if time >= e && time - e <= 10 {
                    MedicStatsBuilder {
                        deaths_after_uber: sat32(b1.deaths_after_uber + 1),
                        ..b1
                    }
                } else {
                    b1
                },
                None => b1,
            }
        },
        _ => b,
    }
}

/// The finished statistics: the recorded totals, or all zeroes when the medic
/// never started healing.
pub open spec fn medic_finish_spec(b: MedicStatsBuilder) -> MedicStats {
    if b.start_healing_count == 0 {
        MedicStats {
            advantages_lost: 0,
            biggest_advantage_lost: 0,
            near_full_charge_death: 0,
            deaths_after_uber: 0,
            total_time_before_healing: 0,
            start_healing_count: 0,
            total_time_to_build: 0,
            uber_build_count: 0,
            total_time_to_use: 0,
            total_uber_length: 0,
            charge_count: 0,
            drops: 0,
        }
    } else {
        MedicStats {
            advantages_lost: b.advantages_lost,
            biggest_advantage_lost: b.biggest_advantage_lost,
            near_full_charge_death: b.near_full_charge_death,
            deaths_after_uber: b.deaths_after_uber,
            total_time_before_healing: b.total_time_before_healing,
            start_healing_count: b.start_healing_count,
            total_time_to_build: b.total_time_to_build,
            uber_build_count: b.uber_build_count,
            total_time_to_use: b.total_time_to_use,
            total_uber_length: b.total_uber_length,
            charge_count: b.charge_count,
            drops: b.drops,
        }
    }
}

impl MedicStatsBuilder {
    pub fn new() -> (r: Self)
        ensures
            r == medic_builder_empty(),
    {
        MedicStatsBuilder {
            advantages_lost: 0,
            biggest_advantage_lost: 0,
            near_full_charge_death: 0,
            deaths_after_uber: 0,
            total_time_before_healing: 0,
            start_healing_count: 0,
            total_time_to_build: 0,
            uber_build_count: 0,
            total_time_to_use: 0,
            total_uber_length: 0,
            charge_count: 0,
            last_build_start: None,
            last_uber_end: None,
            drops: 0,
        }
    }

    pub fn does_handle(ty: RawEventType) -> (r: bool)
        ensures
            r == medic_does_handle_spec(ty),
    {
        match ty {
            RawEventType::ChargeDeployed | RawEventType::ChargeEnded | RawEventType::ChargeReady
                | RawEventType::AdvantageLost | RawEventType::MedicDeath
                | RawEventType::FirstHeal => true,
            _ => false,
        }
    }

    /// Tracks one event against this medic's running statistics.
    pub fn handle_event(&mut self, meta: &EventMeta, subject: SubjectId, event: &GameEvent)
        ensures
            *final(self) == medic_step(*old(self), meta.time, event@),
    {
        match event {
            GameEvent::ChargeEnded(end) => {
                let d = match end.duration {
                    Some(d) => d,
                    None => 0,
                };
                self.total_uber_length = sat_add_u32(self.total_uber_length, d);
                self.last_uber_end = Some(meta.time);
            },
            GameEvent::ChargeDeployed(_) => {
                self.charge_count = sat_add_u32(self.charge_count, 1);
            },
            GameEvent::AdvantageLost(lost) => {
                let t = match lost.time {
                    Some(t) => t,
                    None => 0,
                };
                self.advantages_lost = sat_add_u32(self.advantages_lost, 1);
                if t > self.biggest_advantage_lost {
                    self.biggest_advantage_lost = t;
                }
            },
            GameEvent::FirstHeal(first) => {
                let t = match first.time {
                    Some(t) => t,
                    None => 0,
                };
                self.total_time_before_healing = sat_add_u32(self.total_time_before_healing, t);
                self.start_healing_count = sat_add_u32(self.start_healing_count, 1);
                self.last_build_start = Some(meta.time);
            },
            GameEvent::ChargeReady => {
                match self.last_build_start {
                    Some(t0) => if meta.time >= t0 {
                        let build_time = meta.time - t0;
                        self.last_build_start = None;
                        self.total_time_to_build = sat_add_u32(
                            self.total_time_to_build,
                            build_time,
                        );
                        self.uber_build_count = sat_add_u32(self.uber_build_count, 1);
                    },
                    None => {},
                }
            },
            GameEvent::MedicDeath(death) => {
                let charge = match death.charge {
                    Some(c) => c,
                    None => 0,
                };
                if charge >= 95 && charge < 100 {
                    self.near_full_charge_death = sat_add_u32(self.near_full_charge_death, 1);
                } else if charge >= 100 {
                    self.drops = sat_add_u32(self.drops, 1);
                }
                match self.last_uber_end {
                    Some(e) => if meta.time >= e && meta.time - e <= 10 {
                        self.deaths_after_uber = sat_add_u32(self.deaths_after_uber, 1);
                    },
                    None => {},
                }
            },
            _ => {},
        }
    }

    /// Closes the book on this medic.
    pub fn finish(self) -> (r: MedicStats)
        ensures
            r == medic_finish_spec(self),
    {
        if self.start_healing_count == 0 {
            MedicStats {
                advantages_lost: 0,
                biggest_advantage_lost: 0,
                near_full_charge_death: 0,
                deaths_after_uber: 0,
                total_time_before_healing: 0,
                start_healing_count: 0,
                total_time_to_build: 0,
                uber_build_count: 0,
                total_time_to_use: 0,
                total_uber_length: 0,
                charge_count: 0,
                drops: 0,
            }
        } else {
            MedicStats {
                advantages_lost: self.advantages_lost,
                biggest_advantage_lost: self.biggest_advantage_lost,
                near_full_charge_death: self.near_full_charge_death,
                deaths_after_uber: self.deaths_after_uber,
                total_time_before_healing: self.total_time_before_healing,
                start_healing_count: self.start_healing_count,
                total_time_to_build: self.total_time_to_build,
                uber_build_count: self.uber_build_count,
                total_time_to_use: self.total_time_to_use,
                total_uber_length: self.total_uber_length,
                charge_count: self.charge_count,
                drops: self.drops,
            }
        }
    }
}

} // verus!
