use vstd::prelude::*;

verus! {

/// Index of the first occurrence of `b` in `s`; `s.len()` if `b` does not occur.
pub open spec fn find_idx(s: Seq<u8>, b: u8) -> int
    decreases s.len(),
{
    if s.len() == 0 {
        0
    } else if s[0] == b {
        0
    } else {
        1 + find_idx(s.subrange(1, s.len() as int), b)
    }
}

/// Index of the last occurrence of `b` in `s`; `-1` if `b` does not occur.
pub open spec fn rfind_idx(s: Seq<u8>, b: u8) -> int
    decreases s.len(),
{
    if s.len() == 0 {
        -1
    } else if s[s.len() - 1] == b {
        s.len() - 1
    } else {
        rfind_idx(s.subrange(0, s.len() - 1), b)
    }
}

/// Index of the first occurrence of the needle `n` in `s`; `s.len()` if none.
pub open spec fn findseq_idx(s: Seq<u8>, n: Seq<u8>) -> int
    decreases s.len(),
{
    if n.len() == 0 {
        0
    } else if s.len() < n.len() {
        s.len() as int
    } else if s.subrange(0, n.len() as int) == n {
        0
    } else {
        1 + findseq_idx(s.subrange(1, s.len() as int), n)
    }
}

pub proof fn lemma_find_idx(s: Seq<u8>, b: u8)
    ensures
        0 <= find_idx(s, b) <= s.len(),
        find_idx(s, b) < s.len() ==> s[find_idx(s, b)] == b,
        forall|j: int| 0 <= j < find_idx(s, b) ==> s[j] != b,
    decreases s.len(),
{
    if s.len() == 0 {
    } else if s[0] == b {
    } else {
        let t = s.subrange(1, s.len() as int);
        lemma_find_idx(t, b);
        assert forall|j: int| 0 <= j < find_idx(s, b) implies s[j] != b by {
            if j >= 1 {
                assert(t[j - 1] == s[j]);
            }
        }
    }
}

pub proof fn lemma_rfind_idx(s: Seq<u8>, b: u8)
    ensures
        -1 <= rfind_idx(s, b) < s.len(),
        rfind_idx(s, b) >= 0 ==> s[rfind_idx(s, b)] == b,
        forall|j: int| rfind_idx(s, b) < j < s.len() ==> s[j] != b,
    decreases s.len(),
{
    if s.len() == 0 {
    } else if s[s.len() - 1] == b {
    } else {
        let t = s.subrange(0, s.len() - 1);
        lemma_rfind_idx(t, b);
        assert forall|j: int| rfind_idx(s, b) < j < s.len() implies s[j] != b by {
            if j < s.len() - 1 {
                assert(t[j] == s[j]);
            }
        }
    }
}

pub proof fn lemma_findseq_idx(s: Seq<u8>, n: Seq<u8>)
    requires
        n.len() >= 1,
    ensures
        0 <= findseq_idx(s, n) <= s.len(),
        findseq_idx(s, n) < s.len() ==> findseq_idx(s, n) + n.len() <= s.len()
            && s.subrange(findseq_idx(s, n), findseq_idx(s, n) + n.len() as int) == n,
        forall|j: int|
            0 <= j < findseq_idx(s, n) && j + n.len() <= s.len() ==> #[trigger] s.subrange(
                j,
                j + n.len() as int,
            ) != n,
    decreases s.len(),
{
    if n.len() == 0 {
    } else if s.len() < n.len() {
    } else if s.subrange(0, n.len() as int) == n {
    } else {
        let t = s.subrange(1, s.len() as int);
        lemma_findseq_idx(t, n);
        let f = findseq_idx(s, n);
        assert(f == 1 + findseq_idx(t, n));
        if f < s.len() {
            assert(t.subrange(f - 1, f - 1 + n.len() as int) == s.subrange(
                f,
                f + n.len() as int,
            ));
        }
        assert forall|j: int|
            0 <= j < f && j + n.len() <= s.len() implies #[trigger] s.subrange(j, j + n.len() as int)
            != n by {
            if j >= 1 {
                assert(t.subrange(j - 1, j - 1 + n.len() as int) == s.subrange(
                    j,
                    j + n.len() as int,
                ));
            }
        }
    }
}

/// Relies on memchr::memchr: returns the index of the first occurrence of
/// `needle` in `haystack`, or `None` if it does not occur.
#[verifier::external_body]
fn memchr_first(needle: u8, haystack: &[u8]) -> (r: Option<usize>)
    ensures
        match r {
            Some(i) => i < haystack@.len() && haystack@[i as int] == needle && forall|j: int|
                0 <= j < i ==> haystack@[j] != needle,
            None => forall|j: int| 0 <= j < haystack@.len() ==> haystack@[j] != needle,
        },
{
    memchr::memchr(needle, haystack)
}

/// Relies on memchr::memrchr: returns the index of the last occurrence of
/// `needle` in `haystack`, or `None` if it does not occur.
#[verifier::external_body]
fn memrchr_last(needle: u8, haystack: &[u8]) -> (r: Option<usize>)
    ensures
        match r {
            Some(i) => i < haystack@.len() && haystack@[i as int] == needle && forall|j: int|
                i < j < haystack@.len() ==> haystack@[j] != needle,
            None => forall|j: int| 0 <= j < haystack@.len() ==> haystack@[j] != needle,
        },
{
    memchr::memrchr(needle, haystack)
}

/// Relies on memchr::memmem::find: returns the index of the first occurrence
/// of the substring `needle` in `haystack`, or `None` if it does not occur.
#[verifier::external_body]
fn memmem_first(haystack: &[u8], needle: &[u8]) -> (r: Option<usize>)
    ensures
        match r {
            Some(i) => i + needle@.len() <= haystack@.len() && haystack@.subrange(
                i as int,
                i + needle@.len(),
            ) == needle@ && forall|j: int|
                0 <= j < i ==> #[trigger] haystack@.subrange(j, j + needle@.len()) != needle@,
            None => forall|j: int|
                0 <= j && j + needle@.len() <= haystack@.len() ==> #[trigger] haystack@.subrange(
                    j,
                    j + needle@.len(),
                ) != needle@,
        },
{
    memchr::memmem::find(haystack, needle)
}

/// First index of `b` in `s`, with `s.len()` standing for "not found".
pub fn find_byte(s: &[u8], b: u8) -> (r: usize)
    ensures
        r == find_idx(s@, b),
{
    proof {
        lemma_find_idx(s@, b);
    }
    match memchr_first(b, s) {
        Some(i) => {
            proof {
                let f = find_idx(s@, b);
                if f < i {
                    assert(s@[f] == b);
                } else if (i as int) < f {
                    assert(s@[i as int] != b);
                }
            }
            i
        },
        None => {
            proof {
                if find_idx(s@, b) < s@.len() {
                    assert(s@[find_idx(s@, b)] == b);
                }
            }
            s.len()
        },
    }
}

/// Last index of `b` in `s`, or `None`.
pub fn rfind_byte(s: &[u8], b: u8) -> (r: Option<usize>)
    ensures
        match r {
            Some(i) => i == rfind_idx(s@, b),
            None => rfind_idx(s@, b) == -1,
        },
{
    proof {
        lemma_rfind_idx(s@, b);
    }
    match memrchr_last(b, s) {
        Some(i) => {
            proof {
                let f = rfind_idx(s@, b);
                if f < i {
                    assert(s@[i as int] == b);
                } else if (i as int) < f {
                    assert(s@[f] == b);
                }
            }
            Some(i)
        },
        None => {
            proof {
                if rfind_idx(s@, b) >= 0 {
                    assert(s@[rfind_idx(s@, b)] == b);
                }
            }
            None
        },
    }
}

/// First index of the substring `needle` in `s`, with `s.len()` for "not found".
pub fn find_needle(s: &[u8], needle: &[u8]) -> (r: usize)
    requires
        needle@.len() >= 1,
    ensures
        r == findseq_idx(s@, needle@),
{
    proof {
        lemma_findseq_idx(s@, needle@);
    }
    match memmem_first(s, needle) {
        Some(i) => {
            proof {
                let f = findseq_idx(s@, needle@);
                if f < i {
                    assert(s@.subrange(f, f + needle@.len()) == needle@);
                } else if (i as int) < f {
                    assert(s@.subrange(i as int, i + needle@.len()) == needle@);
                }
            }
            i
        },
        None => {
            proof {
                let f = findseq_idx(s@, needle@);
                if f < s@.len() {
                    assert(s@.subrange(f, f + needle@.len()) == needle@);
                }
            }
            s.len()
        },
    }
}

} // verus!
