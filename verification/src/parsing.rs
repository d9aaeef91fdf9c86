use vstd::prelude::*;

use crate::error::Error;
use crate::find::{find_byte, find_idx, find_needle, findseq_idx, lemma_find_idx,
    lemma_findseq_idx, lemma_rfind_idx, rfind_byte, rfind_idx};

verus! {

/// The two-byte terminator that ends a quoted subject descriptor.
pub open spec fn subject_end_needle() -> Seq<u8> {
    seq!['>' as u8, '"' as u8]
}

/// Splits at the first occurrence of `delim`: the bytes before it, and the
/// bytes after it when `offset` is 1 (from it when `offset` is 0).
pub fn split_once<'a>(input: &'a [u8], delim: u8, offset: usize) -> (r: Result<
    (&'a [u8], &'a [u8]),
    Error,
>)
    requires
        offset <= 1,
    ensures
        find_idx(input@, delim) < input@.len() ==> (r matches Ok(p)
            && p.0@ == input@.subrange(0, find_idx(input@, delim))
            && p.1@ == input@.subrange(find_idx(input@, delim) + offset, input@.len() as int)),
        find_idx(input@, delim) == input@.len() ==> r matches Err(Error::Incomplete),
{
    proof {
        lemma_find_idx(input@, delim);
    }
    let end = find_byte(input, delim);
    if end < input.len() {
        Ok((&input[0..end], &input[end + offset..input.len()]))
    } else {
        Err(Error::Incomplete)
    }
}

/// Splits a quoted subject descriptor at the first `>"` terminator: the bytes
/// up to and including the `>`, and the bytes after the `"` when `offset` is 1.
pub fn split_subject_end<'a>(input: &'a [u8], offset: usize) -> (r: Result<
    (&'a [u8], &'a [u8]),
    Error,
>)
    requires
        offset <= 1,
    ensures
        findseq_idx(input@, subject_end_needle()) < input@.len() ==> (r matches Ok(p)
            && p.0@ == input@.subrange(0, findseq_idx(input@, subject_end_needle()) + 1)
            && p.1@ == input@.subrange(
            findseq_idx(input@, subject_end_needle()) + 1 + offset,
            input@.len() as int,
        )),
        findseq_idx(input@, subject_end_needle()) == input@.len() ==> r matches Err(
            Error::Incomplete,
        ),
{
    proof {
        lemma_findseq_idx(input@, subject_end_needle());
    }
    let mut needle: Vec<u8> = Vec::new();
    needle.push('>' as u8);
    needle.push('"' as u8);
    proof {
        assert(needle@ =~= subject_end_needle());
    }
    let end = find_needle(input, needle.as_slice());
    if end < input.len() {
        Ok((&input[0..end + 1], &input[end + 1 + offset..input.len()]))
    } else {
        Err(Error::Incomplete)
    }
}

/// Splits at the first occurrence of `delim`: the bytes from it, and the bytes
/// before it; the whole input counts as "before" when `delim` does not occur.
pub fn take_until<'a>(input: &'a [u8], delim: u8) -> (r: (&'a [u8], &'a [u8]))
    ensures
        find_idx(input@, delim) < input@.len() ==> r.0@ == input@.subrange(
            find_idx(input@, delim),
            input@.len() as int,
        ) && r.1@ == input@.subrange(0, find_idx(input@, delim)),
        find_idx(input@, delim) == input@.len() ==> r.0@.len() == 0 && r.1@ == input@,
{
    proof {
        lemma_find_idx(input@, delim);
    }
    let end = find_byte(input, delim);
    if end < input.len() {
        (&input[end..input.len()], &input[0..end])
    } else {
        (&input[0..0], input)
    }
}

/// Drops the first `count` bytes; `Incomplete` when fewer are there.
pub fn skip<'a>(input: &'a [u8], count: usize) -> (r: Result<&'a [u8], Error>)
    ensures
        count <= input@.len() ==> (r matches Ok(out) && out@ == input@.subrange(
            count as int,
            input@.len() as int,
        )),
        count > input@.len() ==> r matches Err(Error::Incomplete),
{
    if count <= input.len() {
        Ok(&input[count..input.len()])
    } else {
        Err(Error::Incomplete)
    }
}

/// Drops a single leading `expected` byte if present, and says whether it was.
pub fn skip_matches<'a>(input: &'a [u8], expected: u8) -> (r: (&'a [u8], bool))
    ensures
        input@.len() > 0 && input@[0] == expected ==> r.1 && r.0@ == input@.subrange(
            1,
            input@.len() as int,
        ),
        !(input@.len() > 0 && input@[0] == expected) ==> !r.1 && r.0@ == input@,
{
    if input.len() > 0 && input[0] == expected {
        (&input[1..input.len()], true)
    } else {
        (input, false)
    }
}

/// Byte-for-byte equality of two slices.
pub fn bytes_eq(a: &[u8], b: &[u8]) -> (r: bool)
    ensures
        r <==> a@ == b@,
{
    if a.len() != b.len() {
        return false;
    }
    let mut i: usize = 0;
    while i < a.len()
        invariant
            i <= a@.len(),
            a@.len() == b@.len(),
            forall|j: int| 0 <= j < i ==> a@[j] == b@[j],
        decreases a@.len() - i,
    {
        if a[i] != b[i] {
            return false;
        }
        i += 1;
    }
    proof {
        assert(a@ =~= b@);
    }
    true
}

/// Whether `prefix` starts `s`.
pub fn starts_with(s: &[u8], prefix: &[u8]) -> (r: bool)
    ensures
        r <==> prefix@.is_prefix_of(s@),
{
    if prefix.len() > s.len() {
        return false;
    }
    let head = &s[0..prefix.len()];
    let r = bytes_eq(head, prefix);
    proof {
        if r {
            assert(prefix@.is_prefix_of(s@));
        } else {
            assert(!prefix@.is_prefix_of(s@));
        }
    }
    r
}

/// Whether `suffix` ends `s`.
pub fn ends_with(s: &[u8], suffix: &[u8]) -> (r: bool)
    ensures
        r <==> suffix@.is_suffix_of(s@),
{
    if suffix.len() > s.len() {
        return false;
    }
    let tail = &s[s.len() - suffix.len()..s.len()];
    let r = bytes_eq(tail, suffix);
    proof {
        if r {
            assert(suffix@.is_suffix_of(s@));
        } else {
            assert(!suffix@.is_suffix_of(s@));
        }
    }
    r
}

/// The bytes strictly between the last `end` byte and the last `start` byte
/// before it, when both exist.
pub fn find_between_end<'a>(input: &'a [u8], start: u8, end: u8) -> (r: Option<&'a [u8]>)
    ensures
        r matches Some(v) ==> {
            let e = rfind_idx(input@, end);
            let s = rfind_idx(input@.subrange(0, e), start);
            e >= 0 && s >= 0 && v@ == input@.subrange(s + 1, e)
        },
        r is None ==> rfind_idx(input@, end) == -1 || rfind_idx(
            input@.subrange(0, rfind_idx(input@, end)),
            start,
        ) == -1,
{
    proof {
        lemma_rfind_idx(input@, end);
    }
    let e = match rfind_byte(input, end) {
        Some(e) => e,
        None => {
            return None;
        },
    };
    let head = &input[0..e];
    proof {
        lemma_rfind_idx(head@, start);
    }
    match rfind_byte(head, start) {
        Some(s) => Some(&input[s + 1..e]),
        None => None,
    }
}

} // verus!
