use vstd::prelude::*;

use crate::common::{subject_id_spec, SubjectId};
use crate::event::{EventMeta, GameEvent, GameEventV};
use crate::num::{sat32, sat_add_u32};
use crate::raw_event::RawEventType;
use crate::steam::steam64_of_account;

verus! {

/// The first position of `key` among the entries; the length if it is absent.
pub open spec fn hs_find(s: Seq<(u64, u32)>, key: u64) -> int
    decreases s.len(),
{
    if s.len() == 0 {
        0
    } else if s[0].0 == key {
        0
    } else {
        1 + hs_find(s.subrange(1, s.len() as int), key)
    }
}

pub proof fn lemma_hs_find(s: Seq<(u64, u32)>, key: u64)
    ensures
        0 <= hs_find(s, key) <= s.len(),
        hs_find(s, key) < s.len() ==> s[hs_find(s, key)].0 == key,
        forall|j: int| 0 <= j < hs_find(s, key) ==> (#[trigger] s[j]).0 != key,
    decreases s.len(),
{
    if s.len() == 0 {
    } else if s[0].0 == key {
    } else {
        let t = s.subrange(1, s.len() as int);
        lemma_hs_find(t, key);
        assert forall|j: int| 0 <= j < hs_find(s, key) implies (#[trigger] s[j]).0 != key by {
            if j >= 1 {
                assert(t[j - 1] == s[j]);
            }
        }
    }
}

/// The first position whose key exceeds `key`: where a fresh key is inserted
/// so ascending order is kept.
pub open spec fn hs_ins_pos(s: Seq<(u64, u32)>, key: u64) -> int
    decreases s.len(),
{
    if s.len() == 0 {
        0
    } else if s[0].0 > key {
        0
    } else {
        1 + hs_ins_pos(s.subrange(1, s.len() as int), key)
    }
}

pub proof fn lemma_hs_ins_pos(s: Seq<(u64, u32)>, key: u64)
    ensures
        0 <= hs_ins_pos(s, key) <= s.len(),
        hs_ins_pos(s, key) < s.len() ==> s[hs_ins_pos(s, key)].0 > key,
        forall|j: int| 0 <= j < hs_ins_pos(s, key) ==> (#[trigger] s[j]).0 <= key,
    decreases s.len(),
{
    if s.len() == 0 {
    } else if s[0].0 > key {
    } else {
        let t = s.subrange(1, s.len() as int);
        lemma_hs_ins_pos(t, key);
        assert forall|j: int| 0 <= j < hs_ins_pos(s, key) implies (#[trigger] s[j]).0 <= key by {
            if j >= 1 {
                assert(t[j - 1] == s[j]);
            }
        }
    }
}

/// Keys strictly ascend.
pub open spec fn hs_sorted(s: Seq<(u64, u32)>) -> bool {
    forall|i: int, j: int| 0 <= i < j < s.len() ==> (#[trigger] s[i]).0 < (#[trigger] s[j]).0
}

/// Adding healing for a recipient: the existing count grows (saturating), or
/// a fresh entry enters at its ordered position.
pub open spec fn hs_add(s: Seq<(u64, u32)>, key: u64, amount: u32) -> Seq<(u64, u32)> {
    let f = hs_find(s, key);
    if f < s.len() {
        s.update(f, (key, sat32(s[f].1 + amount)))
    } else {
        s.insert(hs_ins_pos(s, key), (key, amount))
    }
}

/// The total healing recorded over all recipients.
pub open spec fn hs_total(s: Seq<(u64, u32)>) -> int
    decreases s.len(),
{
    if s.len() == 0 {
        0
    } else {
        hs_total(s.subrange(0, s.len() - 1)) + s[s.len() - 1].1
    }
}

/// Healing from one subject to each recipient, grouped by the recipient's
/// steam64 id and kept in ascending key order.
#[derive(Debug, PartialEq, Eq)]
pub struct HealSpread {
    pub entries: Vec<(u64, u32)>,
}

impl View for HealSpread {
    type V = Seq<(u64, u32)>;

    open spec fn view(&self) -> Seq<(u64, u32)> {
        self.entries@
    }
}

/// The event tags the heal-spread counter consumes.
pub open spec fn heal_does_handle_spec(ty: RawEventType) -> bool {
    ty == RawEventType::Healed
}

/// One counting step: a heal event whose target resolves to a player adds its
/// amount under that player's steam64 id; everything else changes nothing.
pub open spec fn heal_step(s: Seq<(u64, u32)>, ev: GameEventV) -> Seq<(u64, u32)> {
    match ev {
        GameEventV::Healed(h) => match h.target {
            Some(t) => match subject_id_spec(t) {
                SubjectId::Player(account) => hs_add(s, steam64_of_account(account), h.amount),
                _ => s,
            },
            None => s,
        },
        _ => s,
    }
}

impl HealSpread {
    pub fn new() -> (r: Self)
        ensures
            r@ =~= Seq::<(u64, u32)>::empty(),
            hs_sorted(r@),
    {
        HealSpread { entries: Vec::new() }
    }

    pub fn does_handle(ty: RawEventType) -> (r: bool)
        ensures
            r == heal_does_handle_spec(ty),
    {
        match ty {
            RawEventType::Healed => true,
            _ => false,
        }
    }

    /// Adds healing for one recipient, keeping the entries ordered.
    pub fn add(&mut self, key: u64, amount: u32)
        requires
            hs_sorted(old(self)@),
        ensures
            final(self)@ == hs_add(old(self)@, key, amount),
            hs_sorted(final(self)@),
    {
        proof {
            lemma_hs_find(self@, key);
            lemma_hs_ins_pos(self@, key);
        }
        let ghost s0 = self@;
        let mut i: usize = 0;
        while i < self.entries.len() && self.entries[i].0 < key
            invariant
                0 <= i <= self.entries@.len(),
                self.entries@ == s0,
                forall|j: int| 0 <= j < i ==> (#[trigger] s0[j]).0 < key,
            decreases self.entries@.len() - i,
        {
            i += 1;
        }
        if i < self.entries.len() && self.entries[i].0 == key {
            proof {
                let f = hs_find(s0, key);
                if f < i {
                    assert(s0[f].0 == key);
                    assert(s0[f].0 < key);
                } else if (i as int) < f {
                    assert(s0[i as int].0 != key);
                }
            }
            let old_count = self.entries[i].1;
            self.entries[i] = (key, sat_add_u32(old_count, amount));
            proof {
                assert(final(self)@ =~= hs_add(s0, key, amount));
                assert forall|a: int, b: int|
                    0 <= a < b < self.entries@.len() implies (#[trigger] self.entries@[a]).0 < (
                #[trigger] self.entries@[b]).0 by {
                    assert(s0[a].0 < s0[b].0);
                }
            }
        } else {
            proof {
                let f = hs_find(s0, key);
                if f < s0.len() {
                    assert(s0[f].0 == key);
                    if f < i {
                        assert(s0[f].0 < key);
                    } else if (i as int) < s0.len() {
                        assert((i as int) <= f);
                        if (i as int) < f {
                            assert(s0[i as int].0 != key);
                            assert(s0[i as int].0 >= key);
                            assert(s0[(i as int)].0 < s0[f].0);
                        }
                    }
                }
                let p = hs_ins_pos(s0, key);
                if p < i {
                    assert(s0[p].0 > key);
                    assert(s0[p].0 < key);
                } else if (i as int) < p {
                    assert(s0[i as int].0 <= key);
                    if (i as int) < s0.len() {
                        assert(s0[i as int].0 >= key);
                        assert(s0[i as int].0 != key);
                    }
                }
            }
            self.entries.insert(i, (key, amount));
            proof {
                assert(final(self)@ =~= hs_add(s0, key, amount));
                assert forall|a: int, b: int|
                    0 <= a < b < self.entries@.len() implies (#[trigger] self.entries@[a]).0 < (
                #[trigger] self.entries@[b]).0 by {
                    let n = self.entries@.len();
                    if b < i {
                        assert(s0[a].0 < s0[b].0);
                    } else if a < i && b == i {
                        assert(s0[a].0 < key);
                    } else if a < i && b > i {
                        assert(s0[a].0 < s0[b - 1].0);
                    } else if a == i && b > i {
                        assert(s0[b - 1].0 >= key);
                        assert(s0[b - 1].0 != key);
                    } else {
                        assert(s0[a - 1].0 < s0[b - 1].0);
                    }
                }
            }
        }
    }

    /// Whether the entries ascend strictly by key.
    pub fn is_sorted(&self) -> (r: bool)
        ensures
            r == hs_sorted(self@),
    {
        let n = self.entries.len();
        if n <= 1 {
            return true;
        }
        let mut k: usize = 0;
        while k < n - 1
            invariant
                1 <= n == self.entries@.len(),
                0 <= k <= self.entries@.len(),
                forall|j: int|
                    0 <= j < k && j + 1 < self.entries@.len() ==> (#[trigger] self.entries@[j]).0
                        < self.entries@[j + 1].0,
            decreases self.entries@.len() - k,
        {
            if !(self.entries[k].0 < self.entries[k + 1].0) {
                proof {
                    assert(!hs_sorted(self@));
                }
                return false;
            }
            k += 1;
        }
        proof {
            assert forall|a: int, b: int|
                0 <= a < b < self.entries@.len() implies (#[trigger] self.entries@[a]).0 < (
            #[trigger] self.entries@[b]).0 by {
                lemma_adjacent_ascends(self@, a, b);
            }
        }
        true
    }

    /// Counts a heal event against the recipient's steam64 id.
    pub fn handle_event(&mut self, meta: &EventMeta, subject: SubjectId, event: &GameEvent)
        requires
            hs_sorted(old(self)@),
        ensures
            final(self)@ == heal_step(old(self)@, event@),
            hs_sorted(final(self)@),
    {
        match event {
            GameEvent::Healed(h) => {
                match &h.target {
                    Some(t) => {
                        let id = t.id();
                        match id {
                            SubjectId::Player(account) => {
                                let key = crate::steam::individual_steam64(account);
                                self.add(key, h.amount);
                            },
                            _ => {},
                        }
                    },
                    None => {},
                }
            },
            _ => {},
        }
    }
}

/// Pairwise ascent between neighbours carries to any two positions.
proof fn lemma_adjacent_ascends(s: Seq<(u64, u32)>, a: int, b: int)
    requires
        forall|j: int| 0 <= j && j + 1 < s.len() ==> (#[trigger] s[j]).0 < s[j + 1].0,
        0 <= a < b < s.len(),
    ensures
        s[a].0 < s[b].0,
    decreases b - a,
{
    if b == a + 1 {
    } else {
        lemma_adjacent_ascends(s, a, b - 1);
    }
}

/// An updated entry changes the total by exactly the difference at its place.
proof fn lemma_hs_total_update(s: Seq<(u64, u32)>, f: int, e: (u64, u32))
    requires
        0 <= f < s.len(),
    ensures
        hs_total(s.update(f, e)) == hs_total(s) - s[f].1 + e.1,
    decreases s.len(),
{
    let u = s.update(f, e);
    if f == s.len() - 1 {
        assert(u.subrange(0, u.len() - 1) =~= s.subrange(0, s.len() - 1));
    } else {
        lemma_hs_total_update(s.subrange(0, s.len() - 1), f, e);
        assert(u.subrange(0, u.len() - 1) =~= s.subrange(0, s.len() - 1).update(f, e));
        assert(u[u.len() - 1] == s[s.len() - 1]);
    }
}

/// An inserted entry adds exactly its count to the total.
proof fn lemma_hs_total_insert(s: Seq<(u64, u32)>, p: int, e: (u64, u32))
    requires
        0 <= p <= s.len(),
    ensures
        hs_total(s.insert(p, e)) == hs_total(s) + e.1,
    decreases s.len(),
{
    let u = s.insert(p, e);
    if p == s.len() {
        assert(u.subrange(0, u.len() - 1) =~= s);
        assert(u[u.len() - 1] == e);
    } else {
        lemma_hs_total_insert(s.subrange(0, s.len() - 1), p, e);
        assert(u.subrange(0, u.len() - 1) =~= s.subrange(0, s.len() - 1).insert(p, e));
        assert(u[u.len() - 1] == s[s.len() - 1]);
    }
}

/// Every single count is at most the total.
proof fn lemma_hs_entry_le_total(s: Seq<(u64, u32)>, i: int)
    requires
        0 <= i < s.len(),
    ensures
        s[i].1 <= hs_total(s),
        hs_total(s) >= 0,
    decreases s.len(),
{
    if s.len() == 1 {
        assert(s.subrange(0, 0) =~= Seq::<(u64, u32)>::empty());
        assert(hs_total(s.subrange(0, 0)) == 0);
    } else if i == s.len() - 1 {
        lemma_hs_entry_le_total(s.subrange(0, s.len() - 1), 0);
    } else {
        lemma_hs_entry_le_total(s.subrange(0, s.len() - 1), i);
        assert(s.subrange(0, s.len() - 1)[i] == s[i]);
    }
}

/// Adding an amount that does not saturate grows the total by that amount.
pub proof fn lemma_hs_add_total(s: Seq<(u64, u32)>, key: u64, amount: u32)
    requires
        hs_total(s) + amount <= u32::MAX,
    ensures
        hs_total(hs_add(s, key, amount)) == hs_total(s) + amount,
{
    lemma_hs_find(s, key);
    lemma_hs_ins_pos(s, key);
    let f = hs_find(s, key);
    if f < s.len() {
        lemma_hs_entry_le_total(s, f);
        lemma_hs_total_update(s, f, (key, sat32(s[f].1 + amount)));
    } else {
        if s.len() > 0 {
            lemma_hs_entry_le_total(s, 0);
        }
        lemma_hs_total_insert(s, hs_ins_pos(s, key), (key, amount));
    }
}

/// The healing recorded after a run of events, starting from nothing.
pub open spec fn heal_fold(events: Seq<GameEventV>) -> Seq<(u64, u32)>
    decreases events.len(),
{
    if events.len() == 0 {
        Seq::empty()
    } else {
        heal_step(heal_fold(events.subrange(0, events.len() - 1)), events[events.len() - 1])
    }
}

/// The amount a single event contributes: its healing when its target
/// resolves to a player, nothing otherwise.
pub open spec fn heal_amount(ev: GameEventV) -> int {
    match ev {
        GameEventV::Healed(h) => match h.target {
            Some(t) => match subject_id_spec(t) {
                SubjectId::Player(_) => h.amount as int,
                _ => 0,
            },
            None => 0,
        },
        _ => 0,
    }
}

/// The total healing contributed by a run of events.
pub open spec fn heal_amount_sum(events: Seq<GameEventV>) -> int
    decreases events.len(),
{
    if events.len() == 0 {
        0
    } else {
        heal_amount_sum(events.subrange(0, events.len() - 1)) + heal_amount(
            events[events.len() - 1],
        )
    }
}

/// Every amount is nonnegative, so prefix totals never exceed the full total.
pub proof fn lemma_heal_prefix_le(events: Seq<GameEventV>, i: int)
    requires
        0 <= i <= events.len(),
    ensures
        heal_amount_sum(events.subrange(0, i)) <= heal_amount_sum(events),
    decreases events.len() - i,
{
    if i == events.len() {
        assert(events.subrange(0, i) =~= events);
    } else {
        let pre = events.subrange(0, events.len() - 1);
        if i < pre.len() {
            lemma_heal_prefix_le(pre, i);
            assert(pre.subrange(0, i) =~= events.subrange(0, i));
        } else {
            assert(events.subrange(0, i) =~= pre);
        }
        assert(heal_amount(events[events.len() - 1]) >= 0);
    }
}

/// Conservation of healing: over any run of events whose total healing fits a
/// counter, the sum over recipients of the per-recipient counts equals the
/// total outgoing healing.
pub proof fn lemma_heal_conservation(events: Seq<GameEventV>)
    requires
        heal_amount_sum(events) <= u32::MAX,
    ensures
        hs_total(heal_fold(events)) == heal_amount_sum(events),
    decreases events.len(),
{
    if events.len() == 0 {
    } else {
        let pre = events.subrange(0, events.len() - 1);
        let last = events[events.len() - 1];
        lemma_heal_prefix_le(events, events.len() - 1);
        assert(heal_amount_sum(pre) <= heal_amount_sum(events));
        assert(heal_amount(last) >= 0);
        lemma_heal_conservation(pre);
        match last {
            GameEventV::Healed(h) => match h.target {
                Some(t) => match subject_id_spec(t) {
                    SubjectId::Player(account) => {
                        lemma_hs_add_total(
                            heal_fold(pre),
                            steam64_of_account(account),
                            h.amount,
                        );
                    },
                    _ => {},
                },
                None => {},
            },
            _ => {},
        }
    }
}

} // verus!
