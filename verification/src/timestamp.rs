//! Capture-time timestamps as plain calendar and clock components, and their
//! ISO-8601 rendering for the timestamp segment of a rendered log line.
use vstd::prelude::*;
use vstd::string::StringExecFns;

use crate::textfmt::push_four_digits;
use crate::textfmt::push_two_digits;
use crate::textfmt::spec_four_digits;
use crate::textfmt::spec_two_digits;

verus! {

/// A moment in UTC, as plain calendar and clock components.
#[derive(Clone, Copy, Debug, PartialEq, Eq, Structural)]
pub struct Timestamp {
    /// Calendar year, `0..=9999`.
    pub year: u16,
    /// Calendar month, `1..=12`.
    pub month: u8,
    /// Day of the month, `1..=31`.
    pub day: u8,
    /// Hour of the day, `0..=23`.
    pub hour: u8,
    /// Minute of the hour, `0..=59`.
    pub minute: u8,
    /// Second of the minute, `0..=59`.
    pub second: u8,
    /// Nanoseconds within the second, `0..=999_999_999`.
    pub nanosecond: u32,
}

impl Timestamp {
    /// Every component is within its calendar or clock range.
    pub open spec fn wf(self) -> bool {
        &&& self.year <= 9999
        &&& 1 <= self.month <= 12
        &&& 1 <= self.day <= 31
        &&& self.hour <= 23
        &&& self.minute <= 59
        &&& self.second <= 59
        &&& self.nanosecond <= 999_999_999
    }

    /// Build a timestamp from raw clock components, rejecting any that fall
    /// outside the representable calendar and clock ranges.
    pub fn from_parts(
        year: i32,
        month: u8,
        day: u8,
        hour: u8,
        minute: u8,
        second: u8,
        nanosecond: u32,
    ) -> (r: Option<Timestamp>)
        ensures
            r is Some <==> {
                &&& 0 <= year <= 9999
                &&& 1 <= month <= 12
                &&& 1 <= day <= 31
                &&& hour <= 23
                &&& minute <= 59
                &&& second <= 59
                &&& nanosecond <= 999_999_999
            },
            r matches Some(t) ==> t == (Timestamp {
                year: year as u16,
                month,
                day,
                hour,
                minute,
                second,
                nanosecond,
            }),
            r matches Some(t) ==> t.wf(),
    {
        if 0 <= year && year <= 9999 && 1 <= month && month <= 12 && 1 <= day && day <= 31
            && hour <= 23 && minute <= 59 && second <= 59 && nanosecond <= 999_999_999 {
            Some(
                Timestamp {
                    year: year as u16,
                    month,
                    day,
                    hour,
                    minute,
                    second,
                    nanosecond,
                },
            )
        } else {
            None
        }
    }

    /// The ISO-8601 text of this timestamp, with the seconds truncated to
    /// two decimal digits and the UTC designator `Z`:
    /// `YYYY-MM-DDThh:mm:ss.ccZ`.
    pub open spec fn spec_iso8601(self) -> Seq<char> {
        spec_four_digits(self.year as int) + "-"@ + spec_two_digits(self.month as int) + "-"@
            + spec_two_digits(self.day as int) + "T"@ + spec_two_digits(self.hour as int) + ":"@
            + spec_two_digits(self.minute as int) + ":"@ + spec_two_digits(self.second as int)
            + "."@ + spec_two_digits(self.nanosecond as int / 10_000_000) + "Z"@
    }

    /// Render this timestamp as ISO-8601 text.
    pub fn iso8601_text(&self) -> (r: String)
        requires
            self.wf(),
        ensures
            r@ == self.spec_iso8601(),
    {
        let mut out = String::new();
        push_four_digits(&mut out, self.year);
        out.append("-");
        push_two_digits(&mut out, self.month);
        out.append("-");
        push_two_digits(&mut out, self.day);
        out.append("T");
        push_two_digits(&mut out, self.hour);
        out.append(":");
        push_two_digits(&mut out, self.minute);
        out.append(":");
        push_two_digits(&mut out, self.second);
        out.append(".");
        push_two_digits(&mut out, (self.nanosecond / 10_000_000) as u8);
        out.append("Z");
        proof {
            assert(out@ =~= self.spec_iso8601());
        }
        out
    }

    /// Whether every component is within its calendar or clock range.
    pub fn is_wf(&self) -> (r: bool)
        ensures
            r == self.wf(),
    {
        self.year <= 9999 && 1 <= self.month && self.month <= 12 && 1 <= self.day && self.day
            <= 31 && self.hour <= 23 && self.minute <= 59 && self.second <= 59 && self.nanosecond
            <= 999_999_999
    }

    /// The current moment in UTC, or `None` if the platform clock reports a
    /// date outside the representable calendar ranges.
    pub fn now() -> (r: Option<Timestamp>)
        ensures
            r matches Some(t) ==> t.wf(),
    {
        let (year, month, day, hour, minute, second, nanosecond) = now_utc_parts();
        Timestamp::from_parts(year, month, day, hour, minute, second, nanosecond)
    }
}

/// Relies on `time::OffsetDateTime::now_utc` and its component accessors:
/// the current UTC date and time, with each component in the range that the
/// crate documents (year `-9999..=9999`, month `1..=12`, day `1..=31`, hour
/// below 24, minute and second below 60, nanosecond below one billion).
#[verifier::external_body]
fn now_utc_parts() -> (r: (i32, u8, u8, u8, u8, u8, u32))
    ensures
        -9999 <= r.0 <= 9999,
        1 <= r.1 <= 12,
        1 <= r.2 <= 31,
        r.3 <= 23,
        r.4 <= 59,
        r.5 <= 59,
        r.6 <= 999_999_999,
{
    let t = time::OffsetDateTime::now_utc();
    (t.year(), t.month() as u8, t.day(), t.hour(), t.minute(), t.second(), t.nanosecond())
}

} // verus!
