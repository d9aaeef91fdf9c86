use vstd::prelude::*;

use crate::find::{find_byte, find_idx, lemma_find_idx};

verus! {

pub open spec fn is_digit(b: u8) -> bool {
    '0' as u8 <= b <= '9' as u8
}

pub open spec fn is_digits(s: Seq<u8>) -> bool {
    forall|i: int| 0 <= i < s.len() ==> is_digit(#[trigger] s[i])
}

/// The number denoted by a string of decimal digits, most significant first.
pub open spec fn digits_val(s: Seq<u8>) -> int
    decreases s.len(),
{
    if s.len() == 0 {
        0
    } else {
        digits_val(s.subrange(0, s.len() - 1)) * 10 + (s[s.len() - 1] - ('0' as u8))
    }
}

pub proof fn lemma_digits_val_nonneg(s: Seq<u8>)
    requires
        is_digits(s),
    ensures
        digits_val(s) >= 0,
    decreases s.len(),
{
    if s.len() > 0 {
        let t = s.subrange(0, s.len() - 1);
        assert(is_digits(t));
        lemma_digits_val_nonneg(t);
    }
}

/// Extending a digit string on the right cannot decrease its value.
pub proof fn lemma_digits_val_prefix_le(s: Seq<u8>, i: int)
    requires
        is_digits(s),
        0 <= i <= s.len(),
    ensures
        digits_val(s.subrange(0, i)) <= digits_val(s),
    decreases s.len() - i,
{
    if i == s.len() {
        assert(s.subrange(0, i) =~= s);
    } else {
        let t = s.subrange(0, s.len() - 1);
        assert(is_digits(t));
        if i < t.len() {
            lemma_digits_val_prefix_le(t, i);
            assert(t.subrange(0, i) == s.subrange(0, i));
        } else {
            assert(s.subrange(0, i) == t);
        }
        lemma_digits_val_nonneg(t);
        assert(is_digit(s[s.len() - 1]));
        assert(digits_val(t) * 10 >= digits_val(t)) by (nonlinear_arith)
            requires
                digits_val(t) >= 0,
        ;
    }
}

/// The value of a decimal digit string, when it is one and fits in a `u64`.
pub open spec fn parse_u64_spec(s: Seq<u8>) -> Option<u64> {
    if s.len() >= 1 && is_digits(s) && digits_val(s) <= u64::MAX {
        Some(digits_val(s) as u64)
    } else {
        None
    }
}

/// Parses an unsigned decimal number.
pub fn parse_u64(s: &[u8]) -> (r: Option<u64>)
    ensures
        r == parse_u64_spec(s@),
{
    if s.len() == 0 {
        return None;
    }
    let mut acc: u64 = 0;
    let mut i: usize = 0;
    while i < s.len()
        invariant
            0 <= i <= s@.len(),
            is_digits(s@.subrange(0, i as int)),
            acc == digits_val(s@.subrange(0, i as int)),
        decreases s@.len() - i,
    {
        let b = s[i];
        if !(b >= '0' as u8 && b <= '9' as u8) {
            assert(!is_digits(s@));
            return None;
        }
        let d = b - '0' as u8;
        proof {
            assert(s@.subrange(0, i + 1).subrange(0, i as int) == s@.subrange(0, i as int));
            assert(is_digits(s@.subrange(0, i + 1)));
        }
        if acc > (u64::MAX - d as u64) / 10 {
            proof {
                let p = s@.subrange(0, i + 1);
                assert(digits_val(p) == acc * 10 + d);
                assert(acc * 10 + d > u64::MAX) by (nonlinear_arith)
                    requires
                        acc > (u64::MAX - d as u64) / 10,
                        0 <= d <= 9,
                ;
                if is_digits(s@) {
                    lemma_digits_val_prefix_le(s@, i + 1);
                }
            }
            return None;
        }
        proof {
            assert(acc * 10 + d <= u64::MAX) by (nonlinear_arith)
                requires
                    acc <= (u64::MAX - d as u64) / 10,
                    0 <= d <= 9,
            ;
            assert(digits_val(s@.subrange(0, i + 1)) == acc * 10 + d);
        }
        acc = acc * 10 + d as u64;
        i += 1;
    }
    proof {
        assert(s@.subrange(0, s@.len() as int) == s@);
    }
    Some(acc)
}

/// The value of a decimal digit string, when it fits in a `u32`.
pub open spec fn parse_u32_spec(s: Seq<u8>) -> Option<u32> {
    if s.len() >= 1 && is_digits(s) && digits_val(s) <= u32::MAX {
        Some(digits_val(s) as u32)
    } else {
        None
    }
}

pub fn parse_u32(s: &[u8]) -> (r: Option<u32>)
    ensures
        r == parse_u32_spec(s@),
{
    proof {
        if is_digits(s@) {
            lemma_digits_val_nonneg(s@);
        }
    }
    match parse_u64(s) {
        Some(v) => if v <= u32::MAX as u64 {
            Some(v as u32)
        } else {
            None
        },
        None => None,
    }
}

/// The value of a decimal digit string, when it fits in a `u16`.
pub open spec fn parse_u16_spec(s: Seq<u8>) -> Option<u16> {
    if s.len() >= 1 && is_digits(s) && digits_val(s) <= u16::MAX {
        Some(digits_val(s) as u16)
    } else {
        None
    }
}

pub fn parse_u16(s: &[u8]) -> (r: Option<u16>)
    ensures
        r == parse_u16_spec(s@),
{
    proof {
        if is_digits(s@) {
            lemma_digits_val_nonneg(s@);
        }
    }
    match parse_u64(s) {
        Some(v) => if v <= u16::MAX as u64 {
            Some(v as u16)
        } else {
            None
        },
        None => None,
    }
}

/// The value of a decimal digit string, when it fits in a `u8`.
pub open spec fn parse_u8_spec(s: Seq<u8>) -> Option<u8> {
    if s.len() >= 1 && is_digits(s) && digits_val(s) <= u8::MAX {
        Some(digits_val(s) as u8)
    } else {
        None
    }
}

pub fn parse_u8(s: &[u8]) -> (r: Option<u8>)
    ensures
        r == parse_u8_spec(s@),
{
    proof {
        if is_digits(s@) {
            lemma_digits_val_nonneg(s@);
        }
    }
    match parse_u64(s) {
        Some(v) => if v <= u8::MAX as u64 {
            Some(v as u8)
        } else {
            None
        },
        None => None,
    }
}

/// The value of an optionally `-`-signed decimal string, when it fits in an `i32`.
pub open spec fn parse_i32_spec(s: Seq<u8>) -> Option<i32> {
    if s.len() >= 1 && s[0] == '-' as u8 {
        let d = s.subrange(1, s.len() as int);
        if d.len() >= 1 && is_digits(d) && digits_val(d) <= 0x8000_0000 {
            Some((-digits_val(d)) as i32)
        } else {
            None
        }
    } else {
        if s.len() >= 1 && is_digits(s) && digits_val(s) <= i32::MAX {
            Some(digits_val(s) as i32)
        } else {
            None
        }
    }
}

pub fn parse_i32(s: &[u8]) -> (r: Option<i32>)
    ensures
        r == parse_i32_spec(s@),
{
    proof {
        if is_digits(s@) {
            lemma_digits_val_nonneg(s@);
        }
    }
    if s.len() >= 1 && s[0] == '-' as u8 {
        let d = &s[1..s.len()];
        proof {
            if is_digits(d@) {
                lemma_digits_val_nonneg(d@);
            }
        }
        match parse_u64(d) {
            Some(v) => if v <= 0x8000_0000u64 {
                proof {
                    lemma_digits_val_nonneg(d@);
                }
                Some((0i64 - v as i64) as i32)
            } else {
                None
            },
            None => None,
        }
    } else {
        match parse_u64(s) {
            Some(v) => if v <= i32::MAX as u64 {
                Some(v as i32)
            } else {
                None
            },
            None => None,
        }
    }
}

/// The value of a decimal fraction `digits[.digits]`, in hundredths, truncated
/// to two fractional digits; `None` when the form or the size is off.
pub open spec fn parse_centi_spec(s: Seq<u8>) -> Option<u32> {
    let dot = find_idx(s, '.' as u8);
    if dot == s.len() {
        match parse_u32_spec(s) {
            Some(v) => if v <= u32::MAX / 100 {
                Some((v * 100) as u32)
            } else {
                None
            },
            None => None,
        }
    } else {
        let ip = s.subrange(0, dot);
        let fp = s.subrange(dot + 1, s.len() as int);
        if ip.len() >= 1 && is_digits(ip) && is_digits(fp) && digits_val(ip) <= (u32::MAX - 99)
            / 100 {
            Some((digits_val(ip) * 100 + centi_frac(fp)) as u32)
        } else {
            None
        }
    }
}

/// The first two fractional digits, scaled to hundredths.
pub open spec fn centi_frac(fp: Seq<u8>) -> int {
    if fp.len() == 0 {
        0
    } else if fp.len() == 1 {
        (fp[0] - ('0' as u8)) * 10
    } else {
        (fp[0] - ('0' as u8)) * 10 + (fp[1] - ('0' as u8))
    }
}

/// Parses a decimal fraction into hundredths.
#[verifier::loop_isolation(false)]
pub fn parse_centi(s: &[u8]) -> (r: Option<u32>)
    ensures
        r == parse_centi_spec(s@),
{
    proof {
        lemma_find_idx(s@, '.' as u8);
    }
    let dot = find_byte(s, '.' as u8);
    if dot == s.len() {
        match parse_u32(s) {
            Some(v) => if v <= u32::MAX / 100 {
                Some(v * 100)
            } else {
                None
            },
            None => None,
        }
    } else {
        let ip = &s[0..dot];
        let fp = &s[dot + 1..s.len()];
        let iv = match parse_u32(ip) {
            Some(v) => v,
            None => {
                return None;
            },
        };
        proof {
            lemma_digits_val_nonneg(ip@);
        }
        if iv > (u32::MAX - 99) / 100 {
            return None;
        }
        let mut frac: u32 = 0;
        if fp.len() >= 1 {
            let b0 = fp[0];
            if !(b0 >= '0' as u8 && b0 <= '9' as u8) {
                assert(!is_digit(fp@[0]));
                return None;
            }
            frac = (b0 - '0' as u8) as u32 * 10;
        }
        if fp.len() >= 2 {
            let b1 = fp[1];
            if !(b1 >= '0' as u8 && b1 <= '9' as u8) {
                assert(!is_digit(fp@[1]));
                return None;
            }
            frac = frac + (b1 - '0' as u8) as u32;
        }
        let mut i: usize = 2;
        while i < fp.len()
            invariant
                2 <= i,
                frac == centi_frac(fp@),
                forall|j: int| 0 <= j < i && j < fp@.len() ==> is_digit(#[trigger] fp@[j]),
            decreases fp@.len() - i,
        {
            let b = fp[i];
            if !(b >= '0' as u8 && b <= '9' as u8) {
                assert(!is_digit(fp@[i as int]));
                return None;
            }
            i += 1;
        }
        assert(is_digits(fp@));
        Some(iv * 100 + frac)
    }
}

/// Ten to the `n`.
pub open spec fn tenpow(n: nat) -> int
    decreases n,
{
    if n == 0 {
        1
    } else {
        10 * tenpow((n - 1) as nat)
    }
}

/// A digit string of length `n` denotes a value below ten to the `n`.
pub proof fn lemma_digits_val_upper(s: Seq<u8>)
    requires
        is_digits(s),
    ensures
        0 <= digits_val(s) < tenpow(s.len()),
    decreases s.len(),
{
    if s.len() == 0 {
    } else {
        let t = s.subrange(0, s.len() - 1);
        assert(is_digits(t));
        lemma_digits_val_upper(t);
        assert(is_digit(s[s.len() - 1]));
        assert(digits_val(t) * 10 + 9 < 10 * tenpow(t.len())) by (nonlinear_arith)
            requires
                digits_val(t) < tenpow(t.len()),
                tenpow(t.len()) >= 1,
        ;
        lemma_tenpow_pos(t.len());
    }
}

pub proof fn lemma_tenpow_pos(n: nat)
    ensures
        tenpow(n) >= 1,
    decreases n,
{
    if n > 0 {
        lemma_tenpow_pos((n - 1) as nat);
    }
}

/// `v`, clamped from above into a `u8`.
pub open spec fn sat8(v: int) -> u8 {
    if v > u8::MAX {
        u8::MAX
    } else {
        v as u8
    }
}

/// `v`, clamped from above into a `u16`.
pub open spec fn sat16(v: int) -> u16 {
    if v > u16::MAX {
        u16::MAX
    } else {
        v as u16
    }
}

/// `v`, clamped from above into a `u32`.
pub open spec fn sat32(v: int) -> u32 {
    if v > u32::MAX {
        u32::MAX
    } else {
        v as u32
    }
}

/// Saturating addition of counters.
pub fn sat_add_u8(a: u8, b: u8) -> (r: u8)
    ensures
        r == sat8(a + b),
{
    if a > u8::MAX - b {
        u8::MAX
    } else {
        a + b
    }
}

/// Saturating addition of counters.
pub fn sat_add_u16(a: u16, b: u16) -> (r: u16)
    ensures
        r == sat16(a + b),
{
    if a > u16::MAX - b {
        u16::MAX
    } else {
        a + b
    }
}

/// Saturating addition of counters.
pub fn sat_add_u32(a: u32, b: u32) -> (r: u32)
    ensures
        r == sat32(a + b),
{
    if a > u32::MAX - b {
        u32::MAX
    } else {
        a + b
    }
}

} // verus!
