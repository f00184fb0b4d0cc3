//! Calendar timestamps for recording sessions: a plain field-wise UTC time,
//! its compact `YYYYMMDD_HHMMSS` rendering (verified digit by digit), and the
//! trusted reading of the wall clock.

use chrono::{Datelike, Timelike};
use vstd::prelude::*;

use crate::ids::hex_char_of;

verus! {

/// A UTC wall-clock instant, split into calendar fields.
#[derive(Clone, Copy, Debug, PartialEq, Eq, Structural)]
pub struct TimeParts {
    pub year: u16,
    pub month: u8,
    pub day: u8,
    pub hour: u8,
    pub minute: u8,
    pub second: u8,
}

impl TimeParts {
    /// The fields form a calendar time that the compact rendering can carry.
    pub open spec fn wf(self) -> bool {
        self.year <= 9999 && 1 <= self.month <= 12 && 1 <= self.day <= 31 && self.hour <= 23
            && self.minute <= 59 && self.second <= 59
    }
}

/// Two decimal digit characters of a value below 100.
pub open spec fn two_digit_chars(v: u8) -> Seq<char> {
    seq![hex_char_of(v / 10), hex_char_of(v % 10)]
}

/// Four decimal digit characters of a value below 10000.
pub open spec fn four_digit_chars(v: u16) -> Seq<char> {
    seq![
        hex_char_of((v / 1000) as u8),
        hex_char_of((v / 100 % 10) as u8),
        hex_char_of((v / 10 % 10) as u8),
        hex_char_of((v % 10) as u8),
    ]
}

/// The compact rendering `YYYYMMDD_HHMMSS` of a calendar time.
pub open spec fn timestamp_chars(t: TimeParts) -> Seq<char> {
    four_digit_chars(t.year) + two_digit_chars(t.month) + two_digit_chars(t.day) + seq!['_']
        + two_digit_chars(t.hour) + two_digit_chars(t.minute) + two_digit_chars(t.second)
}

/// Appends the two decimal digits of a value below 100.
pub fn append_two_digits(s: &mut String, v: u8)
    requires
        v < 100,
    ensures
        final(s)@ == old(s)@ + two_digit_chars(v),
{
    crate::ids::append_hex_char(s, v / 10);
    crate::ids::append_hex_char(s, v % 10);
    proof {
        assert(final(s)@ =~= old(s)@ + two_digit_chars(v));
    }
}

/// Appends the four decimal digits of a value below 10000.
pub fn append_four_digits(s: &mut String, v: u16)
    requires
        v < 10000,
    ensures
        final(s)@ == old(s)@ + four_digit_chars(v),
{
    crate::ids::append_hex_char(s, (v / 1000) as u8);
    crate::ids::append_hex_char(s, (v / 100 % 10) as u8);
    crate::ids::append_hex_char(s, (v / 10 % 10) as u8);
    crate::ids::append_hex_char(s, (v % 10) as u8);
    proof {
        assert(final(s)@ =~= old(s)@ + four_digit_chars(v));
    }
}

/// Renders a calendar time as `YYYYMMDD_HHMMSS`.
pub fn format_timestamp(t: &TimeParts) -> (r: String)
    requires
        t.wf(),
    ensures
        r@ == timestamp_chars(*t),
{
    let mut s = String::new();
    append_four_digits(&mut s, t.year);
    append_two_digits(&mut s, t.month);
    append_two_digits(&mut s, t.day);
    proof {
        reveal_strlit("_");
    }
    s.append("_");
    append_two_digits(&mut s, t.hour);
    append_two_digits(&mut s, t.minute);
    append_two_digits(&mut s, t.second);
    proof {
        assert("_"@ =~= seq!['_']) by {
            reveal_strlit("_");
        }
        assert(s@ =~= timestamp_chars(*t));
    }
    s
}

/// Raw calendar fields as the clock library hands them out.
pub struct RawUtcTime {
    pub year: i32,
    pub month: u32,
    pub day: u32,
    pub hour: u32,
    pub minute: u32,
    pub second: u32,
}

/// Relies on `chrono::Utc::now` and the `Datelike`/`Timelike` accessors:
/// `month` ranges over 1..=12, `day` over 1..=31, `hour` over 0..=23,
/// `minute` and `second` over 0..=59. The year is whatever the system clock
/// yields and is not bounded here.
#[verifier::external_body]
fn utc_now_raw() -> (r: RawUtcTime)
    ensures
        1 <= r.month <= 12,
        1 <= r.day <= 31,
        r.hour <= 23,
        r.minute <= 59,
        r.second <= 59,
{
    let t = chrono::Utc::now();
    RawUtcTime {
        year: t.year(),
        month: t.month(),
        day: t.day(),
        hour: t.hour(),
        minute: t.minute(),
        second: t.second(),
    }
}

/// Reads the wall clock and clamps the year into the four-digit range that
/// the compact rendering carries; the other fields are in range already.
pub fn utc_now_parts() -> (r: TimeParts)
    ensures
        r.wf(),
{
    let raw = utc_now_raw();
    let year: u16 = if raw.year < 0 {
        0
    } else if raw.year > 9999 {
        9999
    } else {
        raw.year as u16
    };
    TimeParts {
        year,
        month: raw.month as u8,
        day: raw.day as u8,
        hour: raw.hour as u8,
        minute: raw.minute as u8,
        second: raw.second as u8,
    }
}

} // verus!
