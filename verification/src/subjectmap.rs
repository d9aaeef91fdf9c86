use vstd::prelude::*;

use crate::common::{clone_subject_data, resolve_subject, subject_data_spec, subject_id_spec,
    SubjectData, SubjectId};
use crate::raw_event::RawSubject;

verus! {

/// The first position of `id` among the entries; the length if it is absent.
pub open spec fn sm_find<T>(s: Seq<(SubjectId, SubjectData, T)>, id: SubjectId) -> int
    decreases s.len(),
{
    if s.len() == 0 {
        0
    } else if s[0].0 == id {
        0
    } else {
        1 + sm_find(s.subrange(1, s.len() as int), id)
    }
}

pub proof fn lemma_sm_find<T>(s: Seq<(SubjectId, SubjectData, T)>, id: SubjectId)
    ensures
        0 <= sm_find(s, id) <= s.len(),
        sm_find(s, id) < s.len() ==> s[sm_find(s, id)].0 == id,
        forall|j: int| 0 <= j < sm_find(s, id) ==> (#[trigger] s[j]).0 != id,
    decreases s.len(),
{
    if s.len() == 0 {
    } else if s[0].0 == id {
    } else {
        let t = s.subrange(1, s.len() as int);
        lemma_sm_find(t, id);
        assert forall|j: int| 0 <= j < sm_find(s, id) implies (#[trigger] s[j]).0 != id by {
            if j >= 1 {
                assert(t[j - 1] == s[j]);
            }
        }
    }
}

/// Appending an entry with a fresh identity leaves earlier lookups unchanged.
pub proof fn lemma_sm_find_push<T>(
    s: Seq<(SubjectId, SubjectData, T)>,
    e: (SubjectId, SubjectData, T),
    id: SubjectId,
)
    ensures
        id != e.0 && sm_find(s, id) == s.len() ==> sm_find(s.push(e), id) == s.len() + 1,
        sm_find(s, id) < s.len() ==> sm_find(s.push(e), id) == sm_find(s, id),
        id == e.0 && sm_find(s, id) == s.len() ==> sm_find(s.push(e), id) == s.len(),
    decreases s.len(),
{
    lemma_sm_find(s, id);
    if s.len() == 0 {
        let p = s.push(e);
        assert(p[0] == e);
        assert(p.subrange(1, p.len() as int) =~= Seq::<(SubjectId, SubjectData, T)>::empty());
        assert(sm_find(p.subrange(1, p.len() as int), id) == 0);
        if id != e.0 {
            assert(sm_find(p, id) == 1);
        }
    } else if s[0].0 == id {
        assert(s.push(e)[0] == s[0]);
    } else {
        let t = s.subrange(1, s.len() as int);
        lemma_sm_find_push(t, e, id);
        let p = s.push(e);
        assert(p[0] == s[0]);
        assert(p.subrange(1, p.len() as int) =~= t.push(e));
        assert(sm_find(p, id) == 1 + sm_find(t.push(e), id));
        assert(sm_find(s, id) == 1 + sm_find(t, id));
        if id != e.0 && sm_find(s, id) == s.len() {
            assert(sm_find(t, id) == t.len());
            assert(sm_find(t.push(e), id) == t.len() + 1);
            assert(sm_find(p, id) == s.len() + 1);
        }
    }
}

/// The mapping from subject identities to their canonical record and to the
/// per-subject handler state, in order of first observation. Every identity
/// occurs at most once.
pub struct SubjectMap<T> {
    pub entries: Vec<(SubjectId, SubjectData, T)>,
}

impl<T> SubjectMap<T> {
    /// Identities are unique among the entries.
    pub open spec fn wf(&self) -> bool {
        forall|i: int, j: int|
            0 <= i < j < self.entries@.len() ==> (#[trigger] self.entries@[i]).0 != (
            #[trigger] self.entries@[j]).0
    }

    pub fn new() -> (r: Self)
        ensures
            r.entries@.len() == 0,
            r.wf(),
    {
        SubjectMap { entries: Vec::new() }
    }

    pub fn len(&self) -> (r: usize)
        ensures
            r == self.entries@.len(),
    {
        self.entries.len()
    }

    /// The position of an identity, when it is present.
    pub fn index_of(&self, id: SubjectId) -> (r: Option<usize>)
        ensures
            match r {
                Some(i) => i == sm_find(self.entries@, id) && i < self.entries@.len(),
                None => sm_find(self.entries@, id) == self.entries@.len(),
            },
    {
        let mut i: usize = 0;
        while i < self.entries.len()
            invariant
                0 <= i <= self.entries@.len(),
                forall|j: int| 0 <= j < i ==> (#[trigger] self.entries@[j]).0 != id,
            decreases self.entries@.len() - i,
        {
            if self.entries[i].0 == id {
                proof {
                    lemma_sm_find(self.entries@, id);
                    let f = sm_find(self.entries@, id);
                    if f < i {
                        assert(self.entries@[f].0 == id);
                    } else if i < f {
                        assert(self.entries@[i as int].0 != id);
                    }
                }
                return Some(i);
            }
            i += 1;
        }
        proof {
            lemma_sm_find(self.entries@, id);
            if sm_find(self.entries@, id) < self.entries@.len() {
                assert(self.entries@[sm_find(self.entries@, id)].0 == id);
            }
        }
        None
    }

    /// Resolves a raw subject and makes sure its identity is present, writing
    /// the canonical record on first observation; the fresh state seeds the
    /// per-subject cell then. Returns the identity and its position.
    pub fn insert(&mut self, raw: &RawSubject, fresh: T) -> (r: (SubjectId, usize))
        requires
            old(self).wf(),
        ensures
            final(self).wf(),
            r.0 == subject_id_spec(raw@),
            r.1 == sm_find(final(self).entries@, r.0),
            r.1 < final(self).entries@.len(),
            final(self).entries@[r.1 as int].0 == r.0,
            sm_find(old(self).entries@, r.0) < old(self).entries@.len() ==> final(self).entries@
                == old(self).entries@,
            sm_find(old(self).entries@, r.0) == old(self).entries@.len() ==> (
            final(self).entries@.len() == old(self).entries@.len() + 1 && final(self).entries@[
                r.1 as int].1@ == subject_data_spec(raw@) && final(self).entries@[r.1 as int].2
                == fresh && final(self).entries@.subrange(0, old(self).entries@.len() as int)
                == old(self).entries@),
    {
        let (id, data) = resolve_subject(raw);
        match self.index_of(id) {
            Some(i) => {
                proof {
                    lemma_sm_find(self.entries@, id);
                }
                (id, i)
            },
            None => {
                proof {
                    lemma_sm_find(self.entries@, id);
                    lemma_sm_find_push(self.entries@, (id, data, fresh), id);
                }
                let ghost olde = self.entries@;
                self.entries.push((id, data, fresh));
                proof {
                    assert(self.entries@.subrange(0, olde.len() as int) =~= olde);
                    assert forall|i: int, j: int|
                        0 <= i < j < self.entries@.len() implies (#[trigger] self.entries@[i]).0
                        != (#[trigger] self.entries@[j]).0 by {
                        if j < olde.len() {
                        } else {
                            assert(self.entries@[j] == (id, data, fresh));
                            lemma_sm_find(olde, id);
                            assert(olde[i].0 != id);
                        }
                    }
                }
                (id, self.entries.len() - 1)
            },
        }
    }

    /// A data-only copy of the map: the same identities and records, with unit
    /// in place of every per-subject state cell.
    pub fn to_just_subjects(&self) -> (r: SubjectMap<()>)
        ensures
            r.entries@.len() == self.entries@.len(),
            forall|k: int|
                0 <= k < r.entries@.len() ==> (#[trigger] r.entries@[k]).0 == self.entries@[k].0
                    && r.entries@[k].1@ == self.entries@[k].1@,
            self.wf() ==> r.wf(),
    {
        let mut out: Vec<(SubjectId, SubjectData, ())> = Vec::new();
        let mut i: usize = 0;
        while i < self.entries.len()
            invariant
                0 <= i <= self.entries@.len(),
                out@.len() == i,
                forall|k: int|
                    0 <= k < i ==> (#[trigger] out@[k]).0 == self.entries@[k].0 && out@[k].1@
                        == self.entries@[k].1@,
            decreases self.entries@.len() - i,
        {
            let e = &self.entries[i];
            out.push((e.0, crate::common::clone_subject_data(&e.1), ()));
            i += 1;
        }
        SubjectMap { entries: out }
    }

    /// Removes and returns the entry at a position; the driver puts it back
    /// with `restore` after dispatching to the handlers.
    pub fn take(&mut self, i: usize) -> (r: (SubjectId, SubjectData, T))
        requires
            i < old(self).entries@.len(),
        ensures
            r == old(self).entries@[i as int],
            final(self).entries@ == old(self).entries@.remove(i as int),
    {
        self.entries.remove(i)
    }

    /// Puts an entry back at the position `take` removed it from.
    pub fn restore(&mut self, i: usize, e: (SubjectId, SubjectData, T))
        requires
            i <= old(self).entries@.len(),
        ensures
            final(self).entries@ == old(self).entries@.insert(i as int, e),
    {
        self.entries.insert(i, e);
    }
}

} // verus!
