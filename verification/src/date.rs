use vstd::prelude::*;

use crate::error::Error;
use crate::find::{find_needle, findseq_idx, lemma_findseq_idx};
use crate::num::{lemma_digits_val_upper, parse_u32, parse_u32_spec, tenpow};

verus! {

/// A calendar date with a time of day, at second resolution.
#[derive(Debug, Clone, Copy, PartialEq, Eq, Structural)]
pub struct DateTime {
    pub year: u32,
    pub month: u32,
    pub day: u32,
    pub hour: u32,
    pub minute: u32,
    pub second: u32,
}

/// The field bounds that a fixed-width timestamp guarantees.
pub open spec fn dt_bounded(dt: DateTime) -> bool {
    dt.year <= 9999 && dt.month <= 99 && dt.day <= 99 && dt.hour <= 99 && dt.minute <= 99
        && dt.second <= 99
}

/// Seconds since a fixed reference instant, by civil-calendar day counting
/// (400-year eras of 146097 days, with the year starting in March).
pub open spec fn timestamp_spec(dt: DateTime) -> int {
    let y: int = if dt.month <= 2 {
        dt.year + 399
    } else {
        dt.year + 400
    };
    let era = y / 400;
    let yoe = y % 400;
    let mp: int = if dt.month > 2 {
        dt.month - 3
    } else {
        dt.month + 9
    };
    let doy1 = (153 * mp + 2) / 5 + dt.day;
    let days1 = era * 146097 + yoe * 365 + yoe / 4 - yoe / 100 + doy1;
    (days1 - 1) * 86400 + dt.hour * 3600 + dt.minute * 60 + dt.second
}

impl DateTime {
    /// Seconds since a fixed reference instant; differences of two values give
    /// elapsed wall-clock seconds across day, month and year boundaries.
    pub fn timestamp(&self) -> (r: u64)
        requires
            dt_bounded(*self),
        ensures
            r == timestamp_spec(*self),
            r < 0x80_0000_0000u64,
    {
        let y: u64 = if self.month <= 2 {
            self.year as u64 + 399
        } else {
            self.year as u64 + 400
        };
        let era: u64 = y / 400;
        let yoe: u64 = y % 400;
        let mp: u64 = if self.month > 2 {
            self.month as u64 - 3
        } else {
            self.month as u64 + 9
        };
        let doy1: u64 = (153 * mp + 2) / 5 + self.day as u64;
        let days1: u64 = era * 146097 + yoe * 365 + yoe / 4 - yoe / 100 + doy1;
        assert(days1 >= 1) by {
            if era == 0 {
                assert(y == 399);
                assert(yoe == 399);
            }
        }
        (days1 - 1) * 86400 + self.hour as u64 * 3600 + self.minute as u64 * 60
            + self.second as u64
    }
}

/// What parsing the fixed-width `MM/DD/YYYY - HH:MM:SS` prefix yields.
pub open spec fn parse_date_spec(raw: Seq<u8>) -> Option<DateTime> {
    if raw.len() != 21 {
        None
    } else {
        let month = parse_u32_spec(raw.subrange(0, 2));
        let day = parse_u32_spec(raw.subrange(3, 5));
        let year = parse_u32_spec(raw.subrange(6, 10));
        let hour = parse_u32_spec(raw.subrange(13, 15));
        let minute = parse_u32_spec(raw.subrange(16, 18));
        let second = parse_u32_spec(raw.subrange(19, 21));
        if month is Some && day is Some && year is Some && hour is Some && minute is Some
            && second is Some {
            Some(
                DateTime {
                    year: year->0,
                    month: month->0,
                    day: day->0,
                    hour: hour->0,
                    minute: minute->0,
                    second: second->0,
                },
            )
        } else {
            None
        }
    }
}

/// Parses the fixed-width timestamp prefix by digit positions.
pub fn parse_date(raw: &[u8]) -> (r: Result<DateTime, Error>)
    ensures
        match r {
            Ok(dt) => parse_date_spec(raw@) == Some(dt) && dt_bounded(dt),
            Err(e) => parse_date_spec(raw@) is None && e == Error::Malformed,
        },
{
    if raw.len() != 21 {
        return Err(Error::Malformed);
    }
    let month = parse_u32(&raw[0..2]);
    let day = parse_u32(&raw[3..5]);
    let year = parse_u32(&raw[6..10]);
    let hour = parse_u32(&raw[13..15]);
    let minute = parse_u32(&raw[16..18]);
    let second = parse_u32(&raw[19..21]);
    match (month, day, year, hour, minute, second) {
        (Some(month), Some(day), Some(year), Some(hour), Some(minute), Some(second)) => {
            proof {
                lemma_digits_val_upper(raw@.subrange(0, 2));
                lemma_digits_val_upper(raw@.subrange(3, 5));
                lemma_digits_val_upper(raw@.subrange(6, 10));
                lemma_digits_val_upper(raw@.subrange(13, 15));
                lemma_digits_val_upper(raw@.subrange(16, 18));
                lemma_digits_val_upper(raw@.subrange(19, 21));
                assert(tenpow(0) == 1);
                assert(tenpow(1) == 10);
                assert(tenpow(2) == 100);
                assert(tenpow(3) == 1000);
                assert(tenpow(4) == 10000);
            }
            Ok(DateTime { year, month, day, hour, minute, second })
        },
        _ => Err(Error::Malformed),
    }
}

/// The two decimal digits of a value below one hundred.
pub open spec fn two_digits(v: int) -> Seq<u8> {
    seq![(('0' as u8) + (v / 10) % 10) as u8, (('0' as u8) + v % 10) as u8]
}

/// The four decimal digits of a value below ten thousand.
pub open spec fn four_digits(v: int) -> Seq<u8> {
    seq![
        (('0' as u8) + (v / 1000) % 10) as u8,
        (('0' as u8) + (v / 100) % 10) as u8,
        (('0' as u8) + (v / 10) % 10) as u8,
        (('0' as u8) + v % 10) as u8,
    ]
}

/// The `L MM/DD/YYYY` text that starts a log line bearing this date.
pub open spec fn line_start_seq(dt: DateTime) -> Seq<u8> {
    seq!['L' as u8, ' ' as u8] + two_digits(dt.month as int) + seq!['/' as u8] + two_digits(
        dt.day as int,
    ) + seq!['/' as u8] + four_digits(dt.year as int)
}

/// Whether `params` contains the `L MM/DD/YYYY` line prefix for this date
/// (the mark of a line truncated while log files were combined).
pub fn contains_line_start(params: &[u8], dt: &DateTime) -> (r: bool)
    requires
        dt_bounded(*dt),
    ensures
        r <==> findseq_idx(params@, line_start_seq(*dt)) < params@.len(),
{
    let mut needle: Vec<u8> = Vec::new();
    needle.push('L' as u8);
    needle.push(' ' as u8);
    needle.push((dt.month / 10 % 10) as u8 + '0' as u8);
    needle.push((dt.month % 10) as u8 + '0' as u8);
    needle.push('/' as u8);
    needle.push((dt.day / 10 % 10) as u8 + '0' as u8);
    needle.push((dt.day % 10) as u8 + '0' as u8);
    needle.push('/' as u8);
    needle.push((dt.year / 1000 % 10) as u8 + '0' as u8);
    needle.push((dt.year / 100 % 10) as u8 + '0' as u8);
    needle.push((dt.year / 10 % 10) as u8 + '0' as u8);
    needle.push((dt.year % 10) as u8 + '0' as u8);
    proof {
        assert(needle@ =~= line_start_seq(*dt));
        lemma_findseq_idx(params@, line_start_seq(*dt));
    }
    let idx = find_needle(params, needle.as_slice());
    idx < params.len()
}

} // verus!
