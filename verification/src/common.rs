use vstd::prelude::*;

use crate::find::{lemma_rfind_idx, rfind_idx};
use crate::num::{parse_u16, parse_u16_spec, parse_u32, parse_u32_spec};
use crate::parsing::{bytes_eq, find_between_end};
use crate::raw_event::{split_player_spec, split_player_subject, RawSubject, RawSubjectView};
use crate::steam::{account_id, account_of, individual_steam64, steam3_of, steam3_render,
    steam64_of_account, steam_decode_spec, steam_parse};

verus! {

/// A team, as named in the log.
#[derive(Debug, Clone, Copy, PartialEq, Eq, Structural, Hash)]
pub enum Team {
    Red,
    Blue,
    Spectator,
}

impl Default for Team {
    fn default() -> (r: Self)
        ensures
            r == Team::Spectator,
    {
        Team::Spectator
    }
}

/// The display name of each team.
pub open spec fn team_name_chars(t: Team) -> Seq<char> {
    match t {
        Team::Red => "Red"@,
        Team::Blue => "Blue"@,
        Team::Spectator => "Spectator"@,
    }
}

/// The name of each team, as bytes.
pub open spec fn team_name(t: Team) -> Seq<u8> {
    match t {
        Team::Red => seq!['R' as u8, 'e' as u8, 'd' as u8],
        Team::Blue => seq!['B' as u8, 'l' as u8, 'u' as u8, 'e' as u8],
        Team::Spectator => seq!['S' as u8, 'p' as u8, 'e' as u8, 'c' as u8, 't' as u8, 'a' as u8, 't' as u8, 'o' as u8, 'r' as u8],
    }
}

/// Which team a name denotes, if any.
pub open spec fn team_from_spec(s: Seq<u8>) -> Option<Team> {
    if s == team_name(Team::Blue) {
        Some(Team::Blue)
    } else if s == team_name(Team::Red) {
        Some(Team::Red)
    } else if s == team_name(Team::Spectator) {
        Some(Team::Spectator)
    } else {
        None
    }
}

impl Team {
    pub fn as_str(self) -> (r: &'static str)
        ensures
            r@ == team_name_chars(self),
    {
        match self {
            Team::Red => "Red",
            Team::Blue => "Blue",
            Team::Spectator => "Spectator",
        }
    }

    /// Parses a team name.
    pub fn from_bytes(s: &[u8]) -> (r: Option<Team>)
        ensures
            r == team_from_spec(s@),
    {
        let mut nred: Vec<u8> = Vec::new();
        nred.push('R' as u8);
        nred.push('e' as u8);
        nred.push('d' as u8);
        proof { assert(nred@ =~= team_name(Team::Red)); }
        let mut nblue: Vec<u8> = Vec::new();
        nblue.push('B' as u8);
        nblue.push('l' as u8);
        nblue.push('u' as u8);
        nblue.push('e' as u8);
        proof { assert(nblue@ =~= team_name(Team::Blue)); }
        let mut nspectator: Vec<u8> = Vec::new();
        nspectator.push('S' as u8);
        nspectator.push('p' as u8);
        nspectator.push('e' as u8);
        nspectator.push('c' as u8);
        nspectator.push('t' as u8);
        nspectator.push('a' as u8);
        nspectator.push('t' as u8);
        nspectator.push('o' as u8);
        nspectator.push('r' as u8);
        proof { assert(nspectator@ =~= team_name(Team::Spectator)); }
        if bytes_eq(s, nblue.as_slice()) {
            return Some(Team::Blue);
        }
        if bytes_eq(s, nred.as_slice()) {
            return Some(Team::Red);
        }
        if bytes_eq(s, nspectator.as_slice()) {
            return Some(Team::Spectator);
        }
        None
    }
}

/// A player class, as named in the log.
#[derive(Debug, Clone, Copy, PartialEq, Eq, Structural, Hash)]
pub enum Class {
    Scout,
    Soldier,
    Pyro,
    DemoMan,
    HeavyWeapons,
    Engineer,
    Medic,
    Sniper,
    Spy,
}

impl Default for Class {
    fn default() -> (r: Self)
        ensures
            r == Class::Scout,
    {
        Class::Scout
    }
}

/// The lowercase display name of each class.
pub open spec fn class_name_chars(c: Class) -> Seq<char> {
    match c {
        Class::Scout => "scout"@,
        Class::Soldier => "soldier"@,
        Class::Pyro => "pyro"@,
        Class::DemoMan => "demoman"@,
        Class::HeavyWeapons => "heavyweapons"@,
        Class::Engineer => "engineer"@,
        Class::Medic => "medic"@,
        Class::Sniper => "sniper"@,
        Class::Spy => "spy"@,
    }
}

/// Which class a spelled-out name denotes, if any.
pub open spec fn class_from_spec(s: Seq<u8>) -> Option<Class> {
    if s == seq!['S' as u8, 'c' as u8, 'o' as u8, 'u' as u8, 't' as u8] || s == seq!['s' as u8, 'c' as u8, 'o' as u8, 'u' as u8, 't' as u8] {
        Some(Class::Scout)
    } else if s == seq!['S' as u8, 'o' as u8, 'l' as u8, 'd' as u8, 'i' as u8, 'e' as u8, 'r' as u8] || s == seq!['s' as u8, 'o' as u8, 'l' as u8, 'd' as u8, 'i' as u8, 'e' as u8, 'r' as u8] {
        Some(Class::Soldier)
    } else if s == seq!['P' as u8, 'y' as u8, 'r' as u8, 'o' as u8] || s == seq!['p' as u8, 'y' as u8, 'r' as u8, 'o' as u8] {
        Some(Class::Pyro)
    } else if s == seq!['D' as u8, 'e' as u8, 'm' as u8, 'o' as u8, 'm' as u8, 'a' as u8, 'n' as u8] || s == seq!['d' as u8, 'e' as u8, 'm' as u8, 'o' as u8, 'm' as u8, 'a' as u8, 'n' as u8] {
        Some(Class::DemoMan)
    } else if s == seq!['H' as u8, 'e' as u8, 'a' as u8, 'v' as u8, 'y' as u8, 'w' as u8, 'e' as u8, 'a' as u8, 'p' as u8, 'o' as u8, 'n' as u8, 's' as u8] || s == seq!['h' as u8, 'e' as u8, 'a' as u8, 'v' as u8, 'y' as u8, 'w' as u8, 'e' as u8, 'a' as u8, 'p' as u8, 'o' as u8, 'n' as u8, 's' as u8] || s == seq!['H' as u8, 'e' as u8, 'a' as u8, 'v' as u8, 'y' as u8] || s == seq!['h' as u8, 'e' as u8, 'a' as u8, 'v' as u8, 'y' as u8] {
        Some(Class::HeavyWeapons)
    } else if s == seq!['E' as u8, 'n' as u8, 'g' as u8, 'i' as u8, 'n' as u8, 'e' as u8, 'e' as u8, 'r' as u8] || s == seq!['e' as u8, 'n' as u8, 'g' as u8, 'i' as u8, 'n' as u8, 'e' as u8, 'e' as u8, 'r' as u8] {
        Some(Class::Engineer)
    } else if s == seq!['M' as u8, 'e' as u8, 'd' as u8, 'i' as u8, 'c' as u8] || s == seq!['m' as u8, 'e' as u8, 'd' as u8, 'i' as u8, 'c' as u8] {
        Some(Class::Medic)
    } else if s == seq!['S' as u8, 'n' as u8, 'i' as u8, 'p' as u8, 'e' as u8, 'r' as u8] || s == seq!['s' as u8, 'n' as u8, 'i' as u8, 'p' as u8, 'e' as u8, 'r' as u8] {
        Some(Class::Sniper)
    } else if s == seq!['S' as u8, 'p' as u8, 'y' as u8] || s == seq!['s' as u8, 'p' as u8, 'y' as u8] {
        Some(Class::Spy)
    } else {
        None
    }
}

impl Class {
    pub fn as_str(self) -> (r: &'static str)
        ensures
            r@ == class_name_chars(self),
    {
        match self {
            Class::Scout => "scout",
            Class::Soldier => "soldier",
            Class::Pyro => "pyro",
            Class::DemoMan => "demoman",
            Class::HeavyWeapons => "heavyweapons",
            Class::Engineer => "engineer",
            Class::Medic => "medic",
            Class::Sniper => "sniper",
            Class::Spy => "spy",
        }
    }

    /// Parses a class name, accepting the capitalised and short spellings.
    pub fn from_bytes(s: &[u8]) -> (r: Option<Class>)
        ensures
            r == class_from_spec(s@),
    {
        let mut n0: Vec<u8> = Vec::new();
        n0.push('S' as u8);
        n0.push('c' as u8);
        n0.push('o' as u8);
        n0.push('u' as u8);
        n0.push('t' as u8);
        proof { assert(n0@ =~= seq!['S' as u8, 'c' as u8, 'o' as u8, 'u' as u8, 't' as u8]); }
        if bytes_eq(s, n0.as_slice()) {
            return Some(Class::Scout);
        }
        let mut n1: Vec<u8> = Vec::new();
        n1.push('s' as u8);
        n1.push('c' as u8);
        n1.push('o' as u8);
        n1.push('u' as u8);
        n1.push('t' as u8);
        proof { assert(n1@ =~= seq!['s' as u8, 'c' as u8, 'o' as u8, 'u' as u8, 't' as u8]); }
        if bytes_eq(s, n1.as_slice()) {
            return Some(Class::Scout);
        }
        let mut n2: Vec<u8> = Vec::new();
        n2.push('S' as u8);
        n2.push('o' as u8);
        n2.push('l' as u8);
        n2.push('d' as u8);
        n2.push('i' as u8);
        n2.push('e' as u8);
        n2.push('r' as u8);
        proof { assert(n2@ =~= seq!['S' as u8, 'o' as u8, 'l' as u8, 'd' as u8, 'i' as u8, 'e' as u8, 'r' as u8]); }
        if bytes_eq(s, n2.as_slice()) {
            return Some(Class::Soldier);
        }
        let mut n3: Vec<u8> = Vec::new();
        n3.push('s' as u8);
        n3.push('o' as u8);
        n3.push('l' as u8);
        n3.push('d' as u8);
        n3.push('i' as u8);
        n3.push('e' as u8);
        n3.push('r' as u8);
        proof { assert(n3@ =~= seq!['s' as u8, 'o' as u8, 'l' as u8, 'd' as u8, 'i' as u8, 'e' as u8, 'r' as u8]); }
        if bytes_eq(s, n3.as_slice()) {
            return Some(Class::Soldier);
        }
        let mut n4: Vec<u8> = Vec::new();
        n4.push('P' as u8);
        n4.push('y' as u8);
        n4.push('r' as u8);
        n4.push('o' as u8);
        proof { assert(n4@ =~= seq!['P' as u8, 'y' as u8, 'r' as u8, 'o' as u8]); }
        if bytes_eq(s, n4.as_slice()) {
            return Some(Class::Pyro);
        }
        let mut n5: Vec<u8> = Vec::new();
        n5.push('p' as u8);
        n5.push('y' as u8);
        n5.push('r' as u8);
        n5.push('o' as u8);
        proof { assert(n5@ =~= seq!['p' as u8, 'y' as u8, 'r' as u8, 'o' as u8]); }
        if bytes_eq(s, n5.as_slice()) {
            return Some(Class::Pyro);
        }
        let mut n6: Vec<u8> = Vec::new();
        n6.push('D' as u8);
        n6.push('e' as u8);
        n6.push('m' as u8);
        n6.push('o' as u8);
        n6.push('m' as u8);
        n6.push('a' as u8);
        n6.push('n' as u8);
        proof { assert(n6@ =~= seq!['D' as u8, 'e' as u8, 'm' as u8, 'o' as u8, 'm' as u8, 'a' as u8, 'n' as u8]); }
        if bytes_eq(s, n6.as_slice()) {
            return Some(Class::DemoMan);
        }
        let mut n7: Vec<u8> = Vec::new();
        n7.push('d' as u8);
        n7.push('e' as u8);
        n7.push('m' as u8);
        n7.push('o' as u8);
        n7.push('m' as u8);
        n7.push('a' as u8);
        n7.push('n' as u8);
        proof { assert(n7@ =~= seq!['d' as u8, 'e' as u8, 'm' as u8, 'o' as u8, 'm' as u8, 'a' as u8, 'n' as u8]); }
        if bytes_eq(s, n7.as_slice()) {
            return Some(Class::DemoMan);
        }
        let mut n8: Vec<u8> = Vec::new();
        n8.push('H' as u8);
        n8.push('e' as u8);
        n8.push('a' as u8);
        n8.push('v' as u8);
        n8.push('y' as u8);
        n8.push('w' as u8);
        n8.push('e' as u8);
        n8.push('a' as u8);
        n8.push('p' as u8);
        n8.push('o' as u8);
        n8.push('n' as u8);
        n8.push('s' as u8);
        proof { assert(n8@ =~= seq!['H' as u8, 'e' as u8, 'a' as u8, 'v' as u8, 'y' as u8, 'w' as u8, 'e' as u8, 'a' as u8, 'p' as u8, 'o' as u8, 'n' as u8, 's' as u8]); }
        if bytes_eq(s, n8.as_slice()) {
            return Some(Class::HeavyWeapons);
        }
        let mut n9: Vec<u8> = Vec::new();
        n9.push('h' as u8);
        n9.push('e' as u8);
        n9.push('a' as u8);
        n9.push('v' as u8);
        n9.push('y' as u8);
        n9.push('w' as u8);
        n9.push('e' as u8);
        n9.push('a' as u8);
        n9.push('p' as u8);
        n9.push('o' as u8);
        n9.push('n' as u8);
        n9.push('s' as u8);
        proof { assert(n9@ =~= seq!['h' as u8, 'e' as u8, 'a' as u8, 'v' as u8, 'y' as u8, 'w' as u8, 'e' as u8, 'a' as u8, 'p' as u8, 'o' as u8, 'n' as u8, 's' as u8]); }
        if bytes_eq(s, n9.as_slice()) {
            return Some(Class::HeavyWeapons);
        }
        let mut n10: Vec<u8> = Vec::new();
        n10.push('H' as u8);
        n10.push('e' as u8);
        n10.push('a' as u8);
        n10.push('v' as u8);
        n10.push('y' as u8);
        proof { assert(n10@ =~= seq!['H' as u8, 'e' as u8, 'a' as u8, 'v' as u8, 'y' as u8]); }
        if bytes_eq(s, n10.as_slice()) {
            return Some(Class::HeavyWeapons);
        }
        let mut n11: Vec<u8> = Vec::new();
        n11.push('h' as u8);
        n11.push('e' as u8);
        n11.push('a' as u8);
        n11.push('v' as u8);
        n11.push('y' as u8);
        proof { assert(n11@ =~= seq!['h' as u8, 'e' as u8, 'a' as u8, 'v' as u8, 'y' as u8]); }
        if bytes_eq(s, n11.as_slice()) {
            return Some(Class::HeavyWeapons);
        }
        let mut n12: Vec<u8> = Vec::new();
        n12.push('E' as u8);
        n12.push('n' as u8);
        n12.push('g' as u8);
        n12.push('i' as u8);
        n12.push('n' as u8);
        n12.push('e' as u8);
        n12.push('e' as u8);
        n12.push('r' as u8);
        proof { assert(n12@ =~= seq!['E' as u8, 'n' as u8, 'g' as u8, 'i' as u8, 'n' as u8, 'e' as u8, 'e' as u8, 'r' as u8]); }
        if bytes_eq(s, n12.as_slice()) {
            return Some(Class::Engineer);
        }
        let mut n13: Vec<u8> = Vec::new();
        n13.push('e' as u8);
        n13.push('n' as u8);
        n13.push('g' as u8);
        n13.push('i' as u8);
        n13.push('n' as u8);
        n13.push('e' as u8);
        n13.push('e' as u8);
        n13.push('r' as u8);
        proof { assert(n13@ =~= seq!['e' as u8, 'n' as u8, 'g' as u8, 'i' as u8, 'n' as u8, 'e' as u8, 'e' as u8, 'r' as u8]); }
        if bytes_eq(s, n13.as_slice()) {
            return Some(Class::Engineer);
        }
        let mut n14: Vec<u8> = Vec::new();
        n14.push('M' as u8);
        n14.push('e' as u8);
        n14.push('d' as u8);
        n14.push('i' as u8);
        n14.push('c' as u8);
        proof { assert(n14@ =~= seq!['M' as u8, 'e' as u8, 'd' as u8, 'i' as u8, 'c' as u8]); }
        if bytes_eq(s, n14.as_slice()) {
            return Some(Class::Medic);
        }
        let mut n15: Vec<u8> = Vec::new();
        n15.push('m' as u8);
        n15.push('e' as u8);
        n15.push('d' as u8);
        n15.push('i' as u8);
        n15.push('c' as u8);
        proof { assert(n15@ =~= seq!['m' as u8, 'e' as u8, 'd' as u8, 'i' as u8, 'c' as u8]); }
        if bytes_eq(s, n15.as_slice()) {
            return Some(Class::Medic);
        }
        let mut n16: Vec<u8> = Vec::new();
        n16.push('S' as u8);
        n16.push('n' as u8);
        n16.push('i' as u8);
        n16.push('p' as u8);
        n16.push('e' as u8);
        n16.push('r' as u8);
        proof { assert(n16@ =~= seq!['S' as u8, 'n' as u8, 'i' as u8, 'p' as u8, 'e' as u8, 'r' as u8]); }
        if bytes_eq(s, n16.as_slice()) {
            return Some(Class::Sniper);
        }
        let mut n17: Vec<u8> = Vec::new();
        n17.push('s' as u8);
        n17.push('n' as u8);
        n17.push('i' as u8);
        n17.push('p' as u8);
        n17.push('e' as u8);
        n17.push('r' as u8);
        proof { assert(n17@ =~= seq!['s' as u8, 'n' as u8, 'i' as u8, 'p' as u8, 'e' as u8, 'r' as u8]); }
        if bytes_eq(s, n17.as_slice()) {
            return Some(Class::Sniper);
        }
        let mut n18: Vec<u8> = Vec::new();
        n18.push('S' as u8);
        n18.push('p' as u8);
        n18.push('y' as u8);
        proof { assert(n18@ =~= seq!['S' as u8, 'p' as u8, 'y' as u8]); }
        if bytes_eq(s, n18.as_slice()) {
            return Some(Class::Spy);
        }
        let mut n19: Vec<u8> = Vec::new();
        n19.push('s' as u8);
        n19.push('p' as u8);
        n19.push('y' as u8);
        proof { assert(n19@ =~= seq!['s' as u8, 'p' as u8, 'y' as u8]); }
        if bytes_eq(s, n19.as_slice()) {
            return Some(Class::Spy);
        }
        None
    }
}

/// A per-class table of values.
#[derive(Debug, Clone, Copy, PartialEq, Eq)]
pub struct ClassMap<T> {
    pub scout: T,
    pub soldier: T,
    pub pyro: T,
    pub demoman: T,
    pub heavyweapons: T,
    pub engineer: T,
    pub medic: T,
    pub sniper: T,
    pub spy: T,
}

impl<T> ClassMap<T> {
    /// The value stored for a class.
    pub open spec fn spec_get(&self, c: Class) -> T {
        match c {
            Class::Scout => self.scout,
            Class::Soldier => self.soldier,
            Class::Pyro => self.pyro,
            Class::DemoMan => self.demoman,
            Class::HeavyWeapons => self.heavyweapons,
            Class::Engineer => self.engineer,
            Class::Medic => self.medic,
            Class::Sniper => self.sniper,
            Class::Spy => self.spy,
        }
    }

    pub fn new(v: T) -> (r: Self) where T: Copy
        ensures
            forall|c: Class| r.spec_get(c) == v,
            r == (ClassMap {
                scout: v,
                soldier: v,
                pyro: v,
                demoman: v,
                heavyweapons: v,
                engineer: v,
                medic: v,
                sniper: v,
                spy: v,
            }),
    {
        ClassMap {
            scout: v,
            soldier: v,
            pyro: v,
            demoman: v,
            heavyweapons: v,
            engineer: v,
            medic: v,
            sniper: v,
            spy: v,
        }
    }

    pub fn get(&self, c: Class) -> (r: &T)
        ensures
            *r == self.spec_get(c),
    {
        match c {
            Class::Scout => &self.scout,
            Class::Soldier => &self.soldier,
            Class::Pyro => &self.pyro,
            Class::DemoMan => &self.demoman,
            Class::HeavyWeapons => &self.heavyweapons,
            Class::Engineer => &self.engineer,
            Class::Medic => &self.medic,
            Class::Sniper => &self.sniper,
            Class::Spy => &self.spy,
        }
    }

    pub fn set(&mut self, c: Class, v: T)
        ensures
            forall|k: Class| final(self).spec_get(k) == if k == c {
                v
            } else {
                old(self).spec_get(k)
            },
    {
        match c {
            Class::Scout => {
                self.scout = v;
            },
            Class::Soldier => {
                self.soldier = v;
            },
            Class::Pyro => {
                self.pyro = v;
            },
            Class::DemoMan => {
                self.demoman = v;
            },
            Class::HeavyWeapons => {
                self.heavyweapons = v;
            },
            Class::Engineer => {
                self.engineer = v;
            },
            Class::Medic => {
                self.medic = v;
            },
            Class::Sniper => {
                self.sniper = v;
            },
            Class::Spy => {
                self.spy = v;
            },
        }
    }
}


/// A stable 32-bit hash of a byte string: a base-31 polynomial, seeded with 17.
pub open spec fn stable_hash_spec(s: Seq<u8>) -> int
    decreases s.len(),
{
    if s.len() == 0 {
        17
    } else {
        (stable_hash_spec(s.subrange(0, s.len() - 1)) * 31 + s[s.len() - 1]) % 0x1_0000_0000
    }
}

pub proof fn lemma_stable_hash_bounds(s: Seq<u8>)
    ensures
        0 <= stable_hash_spec(s) < 0x1_0000_0000,
    decreases s.len(),
{
    if s.len() > 0 {
        lemma_stable_hash_bounds(s.subrange(0, s.len() - 1));
    }
}

/// Hashes a byte string stably, for identities of malformed descriptors.
pub fn stable_hash(s: &[u8]) -> (r: u32)
    ensures
        r == stable_hash_spec(s@),
{
    let mut h: u32 = 17;
    let mut i: usize = 0;
    proof {
        assert(s@.subrange(0, 0) =~= Seq::<u8>::empty());
    }
    while i < s.len()
        invariant
            0 <= i <= s@.len(),
            h == stable_hash_spec(s@.subrange(0, i as int)),
        decreases s@.len() - i,
    {
        let b = s[i];
        proof {
            lemma_stable_hash_bounds(s@.subrange(0, i as int));
            assert(s@.subrange(0, i + 1).subrange(0, i as int) == s@.subrange(0, i as int));
        }
        h = ((h as u64 * 31 + b as u64) % 0x1_0000_0000) as u32;
        i += 1;
    }
    proof {
        assert(s@.subrange(0, s@.len() as int) == s@);
    }
    h
}

/// A compact, hashable subject identity, assigned deterministically from the
/// raw descriptor. Two descriptors for the same entity resolve equal; a
/// descriptor that fits no documented shape falls back to a stable hash.
#[derive(Debug, Clone, Copy, PartialEq, Eq, Structural, Hash)]
pub enum SubjectId {
    Player(u32),
    Team(Team),
    Bot(u16),
    System,
    World,
    Console,
    MalformedPlayer(u32),
}

/// The steam64 id an identity stands for: only real player accounts have one.
pub open spec fn subject_steam_id_spec(id: SubjectId) -> Option<u64> {
    match id {
        SubjectId::Player(account) => Some(steam64_of_account(account)),
        _ => None,
    }
}

impl SubjectId {
    /// The steam64 id of a player identity; bots, teams, the system, the
    /// console, the world and malformed players have none.
    pub fn steam_id(&self) -> (r: Option<u64>)
        ensures
            r == subject_steam_id_spec(*self),
    {
        match self {
            SubjectId::Player(account) => Some(individual_steam64(*account)),
            _ => None,
        }
    }
}

/// The digits between the last `:` and the last `]` of a descriptor, if any.
pub open spec fn tail_digits_spec(p: Seq<u8>) -> Option<Seq<u8>> {
    let e = rfind_idx(p, ']' as u8);
    if e < 0 {
        None
    } else {
        let st = rfind_idx(p.subrange(0, e), ':' as u8);
        if st < 0 {
            None
        } else {
            Some(p.subrange(st + 1, e))
        }
    }
}

/// The account id in a descriptor tail of the form `:<digits>]`, if any.
pub open spec fn tail_account_spec(p: Seq<u8>) -> Option<u32> {
    match tail_digits_spec(p) {
        Some(d) => parse_u32_spec(d),
        None => None,
    }
}

/// The identity of a player descriptor: the steam3 account digits near the
/// tail when they parse; else the account of a parsed steam id section; else a
/// bot keyed by its user id; else a stable hash of the descriptor.
pub open spec fn player_identity_spec(p: Seq<u8>) -> SubjectId {
    match tail_account_spec(p) {
        Some(account) => SubjectId::Player(account),
        None => match split_player_spec(p) {
            None => SubjectId::MalformedPlayer(stable_hash_spec(p) as u32),
            Some(parts) => {
                let (name, uid, steam, team) = parts;
                match steam_decode_spec(steam) {
                    Some(id64) => SubjectId::Player(account_of(id64)),
                    None => {
                        let uid_val = match uid {
                            None => Some(0u16),
                            Some(u) => parse_u16_spec(u),
                        };
                        match uid_val {
                            Some(v) => SubjectId::Bot(v),
                            None => SubjectId::MalformedPlayer(stable_hash_spec(p) as u32),
                        }
                    },
                }
            },
        },
    }
}

/// The identity of any raw subject.
pub open spec fn subject_id_spec(v: RawSubjectView) -> SubjectId {
    match v {
        RawSubjectView::Player(p) => player_identity_spec(p),
        RawSubjectView::Team(t) => SubjectId::Team(t),
        RawSubjectView::System(_) => SubjectId::System,
        RawSubjectView::Console => SubjectId::Console,
        RawSubjectView::World => SubjectId::World,
    }
}

/// The canonical record kept once per identity: the identity's variant along
/// with the name, per-session user id and team seen at first observation.
#[derive(Debug, Clone, PartialEq, Eq)]
pub enum SubjectData {
    Player { name: Vec<u8>, user_id: u16, steam_id: u64, team: Team },
    Bot { name: Vec<u8>, user_id: u16, team: Team },
    Team(Team),
    System(Vec<u8>),
    Console,
    World,
    Malformed { raw: Vec<u8>, hash: u32 },
}

/// The mathematical shape of a subject record.
pub enum SubjectDataV {
    Player { name: Seq<u8>, user_id: u16, steam_id: u64, team: Team },
    Bot { name: Seq<u8>, user_id: u16, team: Team },
    Team(Team),
    System(Seq<u8>),
    Console,
    World,
    Malformed { raw: Seq<u8>, hash: u32 },
}

impl View for SubjectData {
    type V = SubjectDataV;

    open spec fn view(&self) -> SubjectDataV {
        match self {
            SubjectData::Player { name, user_id, steam_id, team } => SubjectDataV::Player {
                name: name@,
                user_id: *user_id,
                steam_id: *steam_id,
                team: *team,
            },
            SubjectData::Bot { name, user_id, team } => SubjectDataV::Bot {
                name: name@,
                user_id: *user_id,
                team: *team,
            },
            SubjectData::Team(t) => SubjectDataV::Team(*t),
            SubjectData::System(n) => SubjectDataV::System(n@),
            SubjectData::Console => SubjectDataV::Console,
            SubjectData::World => SubjectDataV::World,
            SubjectData::Malformed { raw, hash } => SubjectDataV::Malformed {
                raw: raw@,
                hash: *hash,
            },
        }
    }
}

/// The record a player descriptor resolves to, consistent with its identity.
pub open spec fn player_data_spec(p: Seq<u8>) -> SubjectDataV {
    let split = split_player_spec(p);
    let name: Seq<u8> = match split {
        Some(parts) => parts.0,
        None => p,
    };
    let uid_field: u16 = match split {
        Some(parts) => match parts.1 {
            Some(u) => match parse_u16_spec(u) {
                Some(v) => v,
                None => 0u16,
            },
            None => 0u16,
        },
        None => 0u16,
    };
    let team: Team = match split {
        Some(parts) => match team_from_spec(parts.3) {
            Some(t) => t,
            None => Team::Spectator,
        },
        None => Team::Spectator,
    };
    match player_identity_spec(p) {
        SubjectId::Player(account) => {
            let steam64 = match split {
                Some(parts) => match steam_decode_spec(parts.2) {
                    Some(v) => v,
                    None => steam64_of_account(account),
                },
                None => steam64_of_account(account),
            };
            SubjectDataV::Player { name, user_id: uid_field, steam_id: steam64, team }
        },
        SubjectId::Bot(v) => SubjectDataV::Bot { name, user_id: v, team },
        _ => SubjectDataV::Malformed { raw: p, hash: stable_hash_spec(p) as u32 },
    }
}

/// The record any raw subject resolves to.
pub open spec fn subject_data_spec(v: RawSubjectView) -> SubjectDataV {
    match v {
        RawSubjectView::Player(p) => player_data_spec(p),
        RawSubjectView::Team(t) => SubjectDataV::Team(t),
        RawSubjectView::System(n) => SubjectDataV::System(n),
        RawSubjectView::Console => SubjectDataV::Console,
        RawSubjectView::World => SubjectDataV::World,
    }
}

/// Resolves a player descriptor to its identity and record in one pass.
fn resolve_player(p: &[u8]) -> (r: (SubjectId, SubjectData))
    ensures
        r.0 == player_identity_spec(p@),
        r.1@ == player_data_spec(p@),
{
    proof {
        lemma_rfind_idx(p@, ']' as u8);
    }
    let id_from_tail: Option<u32> = match find_between_end(p, ':' as u8, ']' as u8) {
        Some(d) => parse_u32(d),
        None => None,
    };
    match split_player_subject(p) {
        Err(_) => {
            match id_from_tail {
                Some(account) => (
                    SubjectId::Player(account),
                    SubjectData::Player {
                        name: vstd::slice::slice_to_vec(p),
                        user_id: 0,
                        steam_id: individual_steam64(account),
                        team: Team::Spectator,
                    },
                ),
                None => {
                    let h = stable_hash(p);
                    (
                        SubjectId::MalformedPlayer(h),
                        SubjectData::Malformed { raw: vstd::slice::slice_to_vec(p), hash: h },
                    )
                },
            }
        },
        Ok((name, uid, steam, team)) => {
            let steam64 = steam_parse(steam);
            let uid_val: Option<u16> = match uid {
                None => Some(0u16),
                Some(u) => parse_u16(u),
            };
            let uid_field: u16 = match uid_val {
                Some(v) => v,
                None => 0,
            };
            let team_val: Team = match Team::from_bytes(team) {
                Some(t) => t,
                None => Team::Spectator,
            };
            let id = match id_from_tail {
                Some(account) => SubjectId::Player(account),
                None => match steam64 {
                    Some(sv) => SubjectId::Player(account_id(sv)),
                    None => match uid_val {
                        Some(v) => SubjectId::Bot(v),
                        None => SubjectId::MalformedPlayer(stable_hash(p)),
                    },
                },
            };
            let data = match id {
                SubjectId::Player(account) => SubjectData::Player {
                    name: vstd::slice::slice_to_vec(name),
                    user_id: uid_field,
                    steam_id: match steam64 {
                        Some(sv) => sv,
                        None => individual_steam64(account),
                    },
                    team: team_val,
                },
                SubjectId::Bot(v) => SubjectData::Bot {
                    name: vstd::slice::slice_to_vec(name),
                    user_id: v,
                    team: team_val,
                },
                _ => {
                    let h = stable_hash(p);
                    SubjectData::Malformed { raw: vstd::slice::slice_to_vec(p), hash: h }
                },
            };
            (id, data)
        },
    }
}

/// Resolves any raw subject to its identity and canonical record.
pub fn resolve_subject(raw: &RawSubject) -> (r: (SubjectId, SubjectData))
    ensures
        r.0 == subject_id_spec(raw@),
        r.1@ == subject_data_spec(raw@),
{
    match raw {
        RawSubject::Player(p) => resolve_player(p),
        RawSubject::Team(t) => (SubjectId::Team(*t), SubjectData::Team(*t)),
        RawSubject::System(n) => (SubjectId::System, SubjectData::System(vstd::slice::slice_to_vec(n))),
        RawSubject::Console => (SubjectId::Console, SubjectData::Console),
        RawSubject::World => (SubjectId::World, SubjectData::World),
    }
}

impl<'a> RawSubject<'a> {
    /// The identity this raw subject resolves to; it never fails, so a single
    /// bad descriptor cannot abort a parse.
    pub fn id(&self) -> (r: SubjectId)
        ensures
            r == subject_id_spec(self@),
    {
        resolve_subject(self).0
    }
}

/// A field-for-field copy of a canonical record.
pub fn clone_subject_data(d: &SubjectData) -> (r: SubjectData)
    ensures
        r@ == d@,
{
    match d {
        SubjectData::Player { name, user_id, steam_id, team } => SubjectData::Player {
            name: vstd::slice::slice_to_vec(name.as_slice()),
            user_id: *user_id,
            steam_id: *steam_id,
            team: *team,
        },
        SubjectData::Bot { name, user_id, team } => SubjectData::Bot {
            name: vstd::slice::slice_to_vec(name.as_slice()),
            user_id: *user_id,
            team: *team,
        },
        SubjectData::Team(t) => SubjectData::Team(*t),
        SubjectData::System(n) => SubjectData::System(vstd::slice::slice_to_vec(n.as_slice())),
        SubjectData::Console => SubjectData::Console,
        SubjectData::World => SubjectData::World,
        SubjectData::Malformed { raw, hash } => SubjectData::Malformed {
            raw: vstd::slice::slice_to_vec(raw.as_slice()),
            hash: *hash,
        },
    }
}

/// The identity a canonical record stands for.
pub open spec fn subject_data_id_spec(d: SubjectDataV) -> SubjectId {
    match d {
        SubjectDataV::Player { steam_id, .. } => SubjectId::Player(account_of(steam_id)),
        SubjectDataV::Bot { user_id, .. } => SubjectId::Bot(user_id),
        SubjectDataV::Team(t) => SubjectId::Team(t),
        SubjectDataV::System(_) => SubjectId::System,
        SubjectDataV::Console => SubjectId::Console,
        SubjectDataV::World => SubjectId::World,
        SubjectDataV::Malformed { hash, .. } => SubjectId::MalformedPlayer(hash),
    }
}

impl SubjectData {
    /// The identity this record stands for.
    pub fn id(&self) -> (r: SubjectId)
        ensures
            r == subject_data_id_spec(self@),
    {
        match self {
            SubjectData::Player { steam_id, .. } => SubjectId::Player(account_id(*steam_id)),
            SubjectData::Bot { user_id, .. } => SubjectId::Bot(*user_id),
            SubjectData::Team(t) => SubjectId::Team(*t),
            SubjectData::System(_) => SubjectId::System,
            SubjectData::Console => SubjectId::Console,
            SubjectData::World => SubjectId::World,
            SubjectData::Malformed { hash, .. } => SubjectId::MalformedPlayer(*hash),
        }
    }
}

/// A steam64 id that renders as steam3 text; ordering output by it is the
/// canonical per-player order.
#[derive(Debug, Clone, Copy, PartialEq, Eq, Structural, Hash)]
pub struct SteamId3(pub u64);

impl SteamId3 {
    /// The canonical steam3 text of this id.
    pub fn steam3(&self) -> (r: String)
        ensures
            r@ == steam3_of(self.0),
    {
        steam3_render(self.0)
    }
}

/// Resolving a descriptor is a function of its bytes: equal descriptors give
/// equal identities, and two descriptors whose steam3 tail digits give the
/// same account id resolve to that player, whatever their other sections say.
pub proof fn lemma_identity_same_account(d1: Seq<u8>, d2: Seq<u8>, account: u32)
    requires
        tail_account_spec(d1) == Some(account),
        tail_account_spec(d2) == Some(account),
    ensures
        player_identity_spec(d1) == player_identity_spec(d2),
        player_identity_spec(d1) == SubjectId::Player(account),
{
}

/// Two descriptors without steam3 tail digits whose steam id sections decode
/// to the same account also resolve to that one player identity.
pub proof fn lemma_identity_same_steam_section(d1: Seq<u8>, d2: Seq<u8>)
    requires
        tail_account_spec(d1) is None,
        tail_account_spec(d2) is None,
        split_player_spec(d1) is Some,
        split_player_spec(d2) is Some,
        steam_decode_spec(split_player_spec(d1)->Some_0.2) is Some,
        steam_decode_spec(split_player_spec(d2)->Some_0.2) is Some,
        account_of(steam_decode_spec(split_player_spec(d1)->Some_0.2)->Some_0) == account_of(
            steam_decode_spec(split_player_spec(d2)->Some_0.2)->Some_0,
        ),
    ensures
        player_identity_spec(d1) == player_identity_spec(d2),
        player_identity_spec(d1) == SubjectId::Player(
            account_of(steam_decode_spec(split_player_spec(d1)->Some_0.2)->Some_0),
        ),
{
}

} // verus!
