use vstd::prelude::*;

use crate::common::{subject_data_id_spec, subject_id_spec, Class, ClassMap, SubjectData,
    SubjectId};
use crate::event::{EventMeta, GameEvent, GameEventV};
use crate::num::{sat16, sat8, sat_add_u16, sat_add_u8};
use crate::raw_event::RawEventType;

verus! {

/// Kills, deaths and assists by the other side's class, and damage dealt by
/// the target's class.
#[derive(Debug, Clone, Copy, PartialEq, Eq)]
pub struct ClassStats {
    pub kills: ClassMap<u8>,
    pub deaths: ClassMap<u8>,
    pub assists: ClassMap<u8>,
    pub damage: ClassMap<u16>,
}

/// What the handler tracks per subject across events: the subject's current
/// class and the deaths charged to it.
#[derive(Debug, Clone, Copy, PartialEq, Eq)]
pub struct ClassStatData {
    pub class: Class,
    pub deaths: ClassMap<u8>,
}

/// The class statistics handler: a round state and one tracking
/// record per subject seen.
pub struct ClassStatsHandler {
    pub active: bool,
    pub data: Vec<(SubjectId, ClassStatData)>,
}

/// The mathematical shape of the handler.
pub struct ClassStatsHandlerV {
    pub active: bool,
    pub data: Seq<(SubjectId, ClassStatData)>,
}

impl View for ClassStatsHandler {
    type V = ClassStatsHandlerV;

    open spec fn view(&self) -> ClassStatsHandlerV {
        ClassStatsHandlerV { active: self.active, data: self.data@ }
    }
}

/// A per-subject cell with nothing recorded.
pub open spec fn class_stats_empty() -> ClassStats {
    ClassStats {
        kills: class_map_zero_u8(),
        deaths: class_map_zero_u8(),
        assists: class_map_zero_u8(),
        damage: class_map_zero_u16(),
    }
}

pub open spec fn class_map_zero_u8() -> ClassMap<u8> {
    ClassMap {
        scout: 0,
        soldier: 0,
        pyro: 0,
        demoman: 0,
        heavyweapons: 0,
        engineer: 0,
        medic: 0,
        sniper: 0,
        spy: 0,
    }
}

pub open spec fn class_map_zero_u16() -> ClassMap<u16> {
    ClassMap {
        scout: 0,
        soldier: 0,
        pyro: 0,
        demoman: 0,
        heavyweapons: 0,
        engineer: 0,
        medic: 0,
        sniper: 0,
        spy: 0,
    }
}

/// A fresh tracking record: scout by default, no deaths.
pub open spec fn class_stat_data_empty() -> ClassStatData {
    ClassStatData { class: Class::Scout, deaths: class_map_zero_u8() }
}

/// The first position of `id` among the records; the length if it is absent.
pub open spec fn cs_find(s: Seq<(SubjectId, ClassStatData)>, id: SubjectId) -> int
    decreases s.len(),
{
    if s.len() == 0 {
        0
    } else if s[0].0 == id {
        0
    } else {
        1 + cs_find(s.subrange(1, s.len() as int), id)
    }
}

pub proof fn lemma_cs_find(s: Seq<(SubjectId, ClassStatData)>, id: SubjectId)
    ensures
        0 <= cs_find(s, id) <= s.len(),
        cs_find(s, id) < s.len() ==> s[cs_find(s, id)].0 == id,
        forall|j: int| 0 <= j < cs_find(s, id) ==> (#[trigger] s[j]).0 != id,
    decreases s.len(),
{
    if s.len() == 0 {
    } else if s[0].0 == id {
    } else {
        let t = s.subrange(1, s.len() as int);
        lemma_cs_find(t, id);
        assert forall|j: int| 0 <= j < cs_find(s, id) implies (#[trigger] s[j]).0 != id by {
            if j >= 1 {
                assert(t[j - 1] == s[j]);
            }
        }
    }
}

/// The records with `id` present: unchanged when it is, with a fresh record
/// appended when it is not.
pub open spec fn cs_ensure(s: Seq<(SubjectId, ClassStatData)>, id: SubjectId) -> Seq<
    (SubjectId, ClassStatData),
> {
    if cs_find(s, id) < s.len() {
        s
    } else {
        s.push((id, class_stat_data_empty()))
    }
}

/// The class currently recorded for `id`, if a record exists.
pub open spec fn cs_class_of(s: Seq<(SubjectId, ClassStatData)>, id: SubjectId) -> Option<Class> {
    if cs_find(s, id) < s.len() {
        Some(s[cs_find(s, id)].class_at())
    } else {
        None
    }
}

pub trait ClassAt {
    spec fn class_at(&self) -> Class;
}

impl ClassAt for (SubjectId, ClassStatData) {
    open spec fn class_at(&self) -> Class {
        self.1.class
    }
}

/// One count added to a per-class table, saturating.
pub open spec fn bump_u8(m: ClassMap<u8>, c: Class) -> ClassMap<u8> {
    match c {
        Class::Scout => ClassMap { scout: sat8(m.scout + 1), ..m },
        Class::Soldier => ClassMap { soldier: sat8(m.soldier + 1), ..m },
        Class::Pyro => ClassMap { pyro: sat8(m.pyro + 1), ..m },
        Class::DemoMan => ClassMap { demoman: sat8(m.demoman + 1), ..m },
        Class::HeavyWeapons => ClassMap { heavyweapons: sat8(m.heavyweapons + 1), ..m },
        Class::Engineer => ClassMap { engineer: sat8(m.engineer + 1), ..m },
        Class::Medic => ClassMap { medic: sat8(m.medic + 1), ..m },
        Class::Sniper => ClassMap { sniper: sat8(m.sniper + 1), ..m },
        Class::Spy => ClassMap { spy: sat8(m.spy + 1), ..m },
    }
}

/// An amount added to a per-class damage table, saturating.
pub open spec fn bump_u16(m: ClassMap<u16>, c: Class, v: u16) -> ClassMap<u16> {
    match c {
        Class::Scout => ClassMap { scout: sat16(m.scout + v), ..m },
        Class::Soldier => ClassMap { soldier: sat16(m.soldier + v), ..m },
        Class::Pyro => ClassMap { pyro: sat16(m.pyro + v), ..m },
        Class::DemoMan => ClassMap { demoman: sat16(m.demoman + v), ..m },
        Class::HeavyWeapons => ClassMap { heavyweapons: sat16(m.heavyweapons + v), ..m },
        Class::Engineer => ClassMap { engineer: sat16(m.engineer + v), ..m },
        Class::Medic => ClassMap { medic: sat16(m.medic + v), ..m },
        Class::Sniper => ClassMap { sniper: sat16(m.sniper + v), ..m },
        Class::Spy => ClassMap { spy: sat16(m.spy + v), ..m },
    }
}

/// The event tags the class-stats handler consumes.
pub open spec fn class_does_handle_spec(ty: RawEventType) -> bool {
    ty == RawEventType::Killed || ty == RawEventType::KillAssist || ty == RawEventType::Damage
        || ty == RawEventType::Spawned || ty == RawEventType::RoleChange || ty
        == RawEventType::RoundWin || ty == RawEventType::RoundStart
}

/// One handling step: class changes are always recorded; kills, assists and
/// damage only while a round is active; round starts and wins toggle that.
pub open spec fn class_step(
    h: ClassStatsHandlerV,
    subject: SubjectId,
    stats: ClassStats,
    ev: GameEventV,
) -> (ClassStatsHandlerV, ClassStats) {
    match ev {
        GameEventV::Spawned(sp) => match sp.class {
            Some(c) => (
                ClassStatsHandlerV { active: h.active, data: cs_set_class(h.data, subject, c) },
                stats,
            ),
            None => (h, stats),
        },
        GameEventV::RoleChange(rc) => match rc.class {
            Some(c) => (
                ClassStatsHandlerV { active: h.active, data: cs_set_class(h.data, subject, c) },
                stats,
            ),
            None => (h, stats),
        },
        GameEventV::RoundStart => (ClassStatsHandlerV { active: true, data: h.data }, stats),
        GameEventV::RoundWin(_) => (ClassStatsHandlerV { active: false, data: h.data }, stats),
        GameEventV::Killed(kill) => {
            if !h.active {
                (h, stats)
            } else {
                let target = subject_id_spec(kill.target);
                let subject_class = cs_class_of(h.data, subject);
                let data1 = cs_ensure(h.data, target);
                let tidx = cs_find(data1, target);
                let target_rec = data1[tidx];
                let data2 = match subject_class {
                    Some(sc) => data1.update(
                        tidx,
                        (
                            target,
                            ClassStatData {
                                class: target_rec.1.class,
                                deaths: bump_u8(target_rec.1.deaths, sc),
                            },
                        ),
                    ),
                    None => data1,
                };
                (
                    ClassStatsHandlerV { active: h.active, data: data2 },
                    ClassStats { kills: bump_u8(stats.kills, target_rec.1.class), ..stats },
                )
            }
        },
        GameEventV::KillAssist(assist) => {
            if !h.active {
                (h, stats)
            } else {
                match cs_class_of(h.data, subject_id_spec(assist.target)) {
                    Some(tc) => (h, ClassStats { assists: bump_u8(stats.assists, tc), ..stats }),
                    None => (h, stats),
                }
            }
        },
        GameEventV::Damage(dmg) => {
            if !h.active {
                (h, stats)
            } else {
                match dmg.damage {
                    Some(d) => if d < 1500 {
                        match cs_class_of(h.data, subject_id_spec(dmg.target)) {
                            Some(tc) => (
                                h,
                                ClassStats {
                                    damage: bump_u16(stats.damage, tc, d as u16),
                                    ..stats
                                },
                            ),
                            None => (h, stats),
                        }
                    } else {
                        (h, stats)
                    },
                    None => (h, stats),
                }
            }
        },
        _ => (h, stats),
    }
}

/// The records with the class of `id` set, a fresh record first if need be.
pub open spec fn cs_set_class(
    s: Seq<(SubjectId, ClassStatData)>,
    id: SubjectId,
    c: Class,
) -> Seq<(SubjectId, ClassStatData)> {
    let s1 = cs_ensure(s, id);
    let f = cs_find(s1, id);
    s1.update(f, (id, ClassStatData { class: c, deaths: s1[f].1.deaths }))
}

/// Appending a record for a fresh identity leaves other lookups unchanged.
pub proof fn lemma_cs_find_push(
    s: Seq<(SubjectId, ClassStatData)>,
    e: (SubjectId, ClassStatData),
    id: SubjectId,
)
    ensures
        id != e.0 && cs_find(s, id) == s.len() ==> cs_find(s.push(e), id) == s.len() + 1,
        cs_find(s, id) < s.len() ==> cs_find(s.push(e), id) == cs_find(s, id),
        id == e.0 && cs_find(s, id) == s.len() ==> cs_find(s.push(e), id) == s.len(),
    decreases s.len(),
{
    lemma_cs_find(s, id);
    if s.len() == 0 {
        let p = s.push(e);
        assert(p[0] == e);
        assert(p.subrange(1, p.len() as int) =~= Seq::<(SubjectId, ClassStatData)>::empty());
        assert(cs_find(p.subrange(1, p.len() as int), id) == 0);
        if id != e.0 {
            assert(cs_find(p, id) == 1);
        }
    } else if s[0].0 == id {
        assert(s.push(e)[0] == s[0]);
    } else {
        let t = s.subrange(1, s.len() as int);
        lemma_cs_find_push(t, e, id);
        let p = s.push(e);
        assert(p[0] == s[0]);
        assert(p.subrange(1, p.len() as int) =~= t.push(e));
        assert(cs_find(p, id) == 1 + cs_find(t.push(e), id));
        assert(cs_find(s, id) == 1 + cs_find(t, id));
        if id != e.0 && cs_find(s, id) == s.len() {
            assert(cs_find(t, id) == t.len());
            assert(cs_find(t.push(e), id) == t.len() + 1);
            assert(cs_find(p, id) == s.len() + 1);
        }
    }
}

impl ClassStats {
    pub fn new() -> (r: Self)
        ensures
            r == class_stats_empty(),
    {
        ClassStats {
            kills: ClassMap::new(0u8),
            deaths: ClassMap::new(0u8),
            assists: ClassMap::new(0u8),
            damage: ClassMap::new(0u16),
        }
    }
}

impl ClassStatsHandler {
    pub fn new() -> (r: Self)
        ensures
            r@.active == false,
            r@.data =~= Seq::<(SubjectId, ClassStatData)>::empty(),
    {
        ClassStatsHandler { active: false, data: Vec::new() }
    }

    pub fn does_handle(ty: RawEventType) -> (r: bool)
        ensures
            r == class_does_handle_spec(ty),
    {
        match ty {
            RawEventType::Killed | RawEventType::KillAssist | RawEventType::Damage
                | RawEventType::Spawned | RawEventType::RoleChange | RawEventType::RoundWin
                | RawEventType::RoundStart => true,
            _ => false,
        }
    }

    /// The position of a record, when one exists.
    fn find(&self, id: SubjectId) -> (r: Option<usize>)
        ensures
            match r {
                Some(i) => i == cs_find(self@.data, id) && i < self@.data.len(),
                None => cs_find(self@.data, id) == self@.data.len(),
            },
    {
        let mut i: usize = 0;
        while i < self.data.len()
            invariant
                0 <= i <= self.data@.len(),
                forall|j: int| 0 <= j < i ==> (#[trigger] self.data@[j]).0 != id,
            decreases self.data@.len() - i,
        {
            if self.data[i].0 == id {
                proof {
                    lemma_cs_find(self.data@, id);
                    let f = cs_find(self.data@, id);
                    if f < i {
                        assert(self.data@[f].0 == id);
                    } else if i < f {
                        assert(self.data@[i as int].0 != id);
                    }
                }
                return Some(i);
            }
            i += 1;
        }
        proof {
            lemma_cs_find(self.data@, id);
            if cs_find(self.data@, id) < self.data@.len() {
                assert(self.data@[cs_find(self.data@, id)].0 == id);
            }
        }
        None
    }

    /// The class currently recorded for a subject.
    pub fn get_class_of(&self, id: SubjectId) -> (r: Option<Class>)
        ensures
            r == cs_class_of(self@.data, id),
    {
        match self.find(id) {
            Some(i) => Some(self.data[i].1.class),
            None => None,
        }
    }

    /// Makes sure a record exists and returns its position.
    fn ensure(&mut self, id: SubjectId) -> (r: usize)
        ensures
            final(self)@.data == cs_ensure(old(self)@.data, id),
            final(self)@.active == old(self)@.active,
            r == cs_find(final(self)@.data, id),
            r < final(self)@.data.len(),
    {
        proof {
            lemma_cs_find(self.data@, id);
        }
        match self.find(id) {
            Some(i) => i,
            None => {
                let fresh = ClassStatData { class: Class::Scout, deaths: ClassMap::new(0u8) };
                proof {
                    assert(fresh == class_stat_data_empty());
                    lemma_cs_find_push(self.data@, (id, fresh), id);
                }
                self.data.push((id, fresh));
                self.data.len() - 1
            },
        }
    }
}

/// Adds one to the count for a class, saturating.
fn bump_add_u8(m: &ClassMap<u8>, c: Class) -> (r: ClassMap<u8>)
    ensures
        r == bump_u8(*m, c),
{
    match c {
        Class::Scout => ClassMap { scout: sat_add_u8(m.scout, 1), ..*m },
        Class::Soldier => ClassMap { soldier: sat_add_u8(m.soldier, 1), ..*m },
        Class::Pyro => ClassMap { pyro: sat_add_u8(m.pyro, 1), ..*m },
        Class::DemoMan => ClassMap { demoman: sat_add_u8(m.demoman, 1), ..*m },
        Class::HeavyWeapons => ClassMap { heavyweapons: sat_add_u8(m.heavyweapons, 1), ..*m },
        Class::Engineer => ClassMap { engineer: sat_add_u8(m.engineer, 1), ..*m },
        Class::Medic => ClassMap { medic: sat_add_u8(m.medic, 1), ..*m },
        Class::Sniper => ClassMap { sniper: sat_add_u8(m.sniper, 1), ..*m },
        Class::Spy => ClassMap { spy: sat_add_u8(m.spy, 1), ..*m },
    }
}

/// Adds damage to the count for a class, saturating.
fn bump_add_u16(m: &ClassMap<u16>, c: Class, v: u16) -> (r: ClassMap<u16>)
    ensures
        r == bump_u16(*m, c, v),
{
    match c {
        Class::Scout => ClassMap { scout: sat_add_u16(m.scout, v), ..*m },
        Class::Soldier => ClassMap { soldier: sat_add_u16(m.soldier, v), ..*m },
        Class::Pyro => ClassMap { pyro: sat_add_u16(m.pyro, v), ..*m },
        Class::DemoMan => ClassMap { demoman: sat_add_u16(m.demoman, v), ..*m },
        Class::HeavyWeapons => ClassMap { heavyweapons: sat_add_u16(m.heavyweapons, v), ..*m },
        Class::Engineer => ClassMap { engineer: sat_add_u16(m.engineer, v), ..*m },
        Class::Medic => ClassMap { medic: sat_add_u16(m.medic, v), ..*m },
        Class::Sniper => ClassMap { sniper: sat_add_u16(m.sniper, v), ..*m },
        Class::Spy => ClassMap { spy: sat_add_u16(m.spy, v), ..*m },
    }
}

/// The handler and the finished per-subject stats after a subject's record is
/// claimed: its tracked deaths move into the stats and its record leaves.
pub open spec fn class_finish_spec(
    h: ClassStatsHandlerV,
    id: SubjectId,
    data: ClassStats,
) -> (ClassStatsHandlerV, ClassStats) {
    let f = cs_find(h.data, id);
    if f < h.data.len() {
        (
            ClassStatsHandlerV { active: h.active, data: h.data.remove(f) },
            ClassStats { deaths: h.data[f].1.deaths, ..data },
        )
    } else {
        (h, ClassStats { deaths: class_map_zero_u8(), ..data })
    }
}

impl ClassStatsHandler {
    /// Records the class of a subject, creating its record if need be.
    fn set_class(&mut self, id: SubjectId, c: Class)
        ensures
            final(self)@.data == cs_set_class(old(self)@.data, id, c),
            final(self)@.active == old(self)@.active,
    {
        let i = self.ensure(id);
        let rec = self.data[i];
        self.data[i] = (id, ClassStatData { class: c, deaths: rec.1.deaths });
    }

    /// Dispatches one event: spawns and role changes set a subject's class,
    /// round starts and wins toggle the active flag, and kills, assists and
    /// damage are recorded only while the round is active.
    pub fn handle(
        &mut self,
        meta: &EventMeta,
        subject: SubjectId,
        subject_data: &mut ClassStats,
        event: &GameEvent,
    )
        ensures
            ({
                let step = class_step(old(self)@, subject, *old(subject_data), event@);
                final(self)@ == step.0 && *final(subject_data) == step.1
            }),
    {
        match event {
            GameEvent::Spawned(sp) => {
                match sp.class {
                    Some(c) => self.set_class(subject, c),
                    None => {},
                }
            },
            GameEvent::RoleChange(rc) => {
                match rc.class {
                    Some(c) => self.set_class(subject, c),
                    None => {},
                }
            },
            GameEvent::RoundStart => {
                self.active = true;
            },
            GameEvent::RoundWin(_) => {
                self.active = false;
            },
            GameEvent::Killed(kill) => {
                if self.active {
                    let target = kill.target.id();
                    let subject_class = self.get_class_of(subject);
                    let tidx = self.ensure(target);
                    let target_rec = self.data[tidx];
                    match subject_class {
                        Some(sc) => {
                            self.data[tidx] = (
                                target,
                                ClassStatData {
                                    class: target_rec.1.class,
                                    deaths: bump_add_u8(&target_rec.1.deaths, sc),
                                },
                            );
                        },
                        None => {},
                    }
                    subject_data.kills = bump_add_u8(&subject_data.kills, target_rec.1.class);
                }
            },
            GameEvent::KillAssist(assist) => {
                if self.active {
                    let tid = assist.target.id();
                    match self.get_class_of(tid) {
                        Some(tc) => {
                            subject_data.assists = bump_add_u8(&subject_data.assists, tc);
                        },
                        None => {},
                    }
                }
            },
            GameEvent::Damage(dmg) => {
                if self.active {
                    match dmg.damage {
                        Some(d) => if d < 1500 {
                            let tid = dmg.target.id();
                            match self.get_class_of(tid) {
                                Some(tc) => {
                                    subject_data.damage = bump_add_u16(
                                        &subject_data.damage,
                                        tc,
                                        d as u16,
                                    );
                                },
                                None => {},
                            }
                        },
                        None => {},
                    }
                }
            },
            _ => {},
        }
    }

    /// Claims a subject's tracked deaths into its finished stats and drops
    /// its record.
    pub fn finish_per_subject(&mut self, subject: &SubjectData, data: ClassStats) -> (r:
        ClassStats)
        ensures
            ({
                let step = class_finish_spec(
                    old(self)@,
                    subject_data_id_spec(subject@),
                    data,
                );
                final(self)@ == step.0 && r == step.1
            }),
    {
        let id = subject.id();
        match self.find(id) {
            Some(i) => {
                let rec = self.data.remove(i);
                ClassStats { deaths: rec.1.deaths, ..data }
            },
            None => {
                let zero = ClassMap::new(0u8);
                proof {
                    assert(zero == class_map_zero_u8());
                }
                ClassStats { deaths: zero, ..data }
            },
        }
    }
}

/// During inactive rounds nothing is recorded: a kill, assist or damage event
/// leaves both the shared records and the per-subject stats untouched.
pub proof fn lemma_inactive_round_records_nothing(
    h: ClassStatsHandlerV,
    subject: SubjectId,
    stats: ClassStats,
    ev: GameEventV,
)
    requires
        !h.active,
        ev is Killed || ev is KillAssist || ev is Damage,
    ensures
        class_step(h, subject, stats, ev) == (h, stats),
{
}

} // verus!
