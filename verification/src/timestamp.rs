//! UTC timestamps held as plain calendar fields, and their RFC 3339 wire
//! rendering at a configurable sub-second precision.

use vstd::prelude::*;
use chrono::Datelike;
use chrono::Timelike;
use crate::text::{push_padded, spec_padded};

verus! {

/// How many fractional-second digits the `@timestamp` field carries.
#[derive(Clone, Copy, Debug, PartialEq, Eq, Structural)]
pub enum TimePrecision {
    /// Format whole seconds only, with no decimal point nor subseconds.
    Secs,
    /// Use fixed 3 subsecond digits.
    Millis,
    /// Use fixed 6 subsecond digits.
    Micros,
    /// Use fixed 9 subsecond digits.
    Nanos,
}

impl TimePrecision {
    /// The number of fractional-second digits this precision renders.
    pub open spec fn spec_frac_digits(self) -> nat {
        match self {
            TimePrecision::Secs => 0,
            TimePrecision::Millis => 3,
            TimePrecision::Micros => 6,
            TimePrecision::Nanos => 9,
        }
    }
}

/// One instant, timezone-normalized to UTC, stored at full nanosecond
/// precision as plain calendar fields.
#[derive(Clone, Copy, Debug, PartialEq, Eq, Structural)]
pub struct Timestamp {
    pub year: u16,
    pub month: u8,
    pub day: u8,
    pub hour: u8,
    pub minute: u8,
    pub second: u8,
    pub nanos: u32,
}

impl Timestamp {
    /// Field ranges under which the timestamp renders as a well-formed
    /// RFC 3339 date-time with a four-digit year.
    pub open spec fn wf(self) -> bool {
        &&& self.year <= 9999
        &&& 1 <= self.month <= 12
        &&& 1 <= self.day <= 31
        &&& self.hour < 24
        &&& self.minute < 60
        &&& self.second < 60
        &&& self.nanos < 1_000_000_000
    }

    /// Builds a timestamp from raw calendar fields as a UTC clock reports
    /// them. Years outside 0..=9999 are clamped to that range, and a leap
    /// second (nanosecond values of 1,000,000,000 and above) is folded into
    /// the last representable nanosecond of its second, so the result always
    /// renders as a four-digit-year RFC 3339 date-time.
    pub fn from_parts(
        year: i32,
        month: u32,
        day: u32,
        hour: u32,
        minute: u32,
        second: u32,
        nanos: u32,
    ) -> (r: Timestamp)
        requires
            1 <= month <= 12,
            1 <= day <= 31,
            hour < 24,
            minute < 60,
            second < 60,
            nanos < 2_000_000_000,
        ensures
            r.wf(),
            r.year == if year < 0 { 0 } else if year > 9999 { 9999 } else { year },
            r.month == month,
            r.day == day,
            r.hour == hour,
            r.minute == minute,
            r.second == second,
            r.nanos == if nanos >= 1_000_000_000 { 999_999_999u32 } else { nanos },
    {
        let y: u16 = if year < 0 {
            0
        } else if year > 9999 {
            9999
        } else {
            year as u16
        };
        let ns: u32 = if nanos >= 1_000_000_000 {
            999_999_999
        } else {
            nanos
        };
        Timestamp {
            year: y,
            month: month as u8,
            day: day as u8,
            hour: hour as u8,
            minute: minute as u8,
            second: second as u8,
            nanos: ns,
        }
    }

    /// The current instant of the UTC clock.
    pub fn now() -> (r: Timestamp)
        ensures
            r.wf(),
    {
        let (year, month, day, hour, minute, second, nanos) = now_utc_parts();
        Timestamp::from_parts(year, month, day, hour, minute, second, nanos)
    }
}

/// Relies on `chrono::Utc::now` and the `Datelike`/`Timelike` accessors
/// (`year`, `month`, `day`, `hour`, `minute`, `second`, `nanosecond`) for the
/// current UTC calendar fields; the ranges are the ones their documentation
/// states, with nanoseconds up to 1,999,999,999 during a leap second.
#[verifier::external_body]
fn now_utc_parts() -> (r: (i32, u32, u32, u32, u32, u32, u32))
    ensures
        1 <= r.1 <= 12,
        1 <= r.2 <= 31,
        r.3 < 24,
        r.4 < 60,
        r.5 < 60,
        r.6 < 2_000_000_000,
{
    let t = chrono::Utc::now();
    (t.year(), t.month(), t.day(), t.hour(), t.minute(), t.second(), t.nanosecond())
}

/// The date-and-time part of the rendering, up to and including whole
/// seconds: `YYYY-MM-DDTHH:MM:SS`. It does not depend on the precision.
pub open spec fn spec_rfc3339_prefix(ts: Timestamp) -> Seq<char> {
    spec_padded(ts.year as nat, 4) + seq!['-'] + spec_padded(ts.month as nat, 2) + seq!['-']
        + spec_padded(ts.day as nat, 2) + seq!['T'] + spec_padded(ts.hour as nat, 2) + seq![':']
        + spec_padded(ts.minute as nat, 2) + seq![':'] + spec_padded(ts.second as nat, 2)
}

/// The fractional-second part: empty for whole seconds, otherwise a decimal
/// point followed by exactly 3, 6 or 9 digits of the nanosecond field.
pub open spec fn spec_rfc3339_frac(nanos: nat, p: TimePrecision) -> Seq<char> {
    match p {
        TimePrecision::Secs => Seq::<char>::empty(),
        TimePrecision::Millis => seq!['.'] + spec_padded(nanos / 1_000_000, 3),
        TimePrecision::Micros => seq!['.'] + spec_padded(nanos / 1_000, 6),
        TimePrecision::Nanos => seq!['.'] + spec_padded(nanos, 9),
    }
}

/// The full RFC 3339 rendering in UTC: prefix, fractional part, and the `Z`
/// UTC designator.
pub open spec fn spec_rfc3339(ts: Timestamp, p: TimePrecision) -> Seq<char> {
    spec_rfc3339_prefix(ts) + spec_rfc3339_frac(ts.nanos as nat, p) + seq!['Z']
}

/// Appends the RFC 3339 rendering of `ts` at precision `p`.
pub fn push_rfc3339(out: &mut Vec<char>, ts: &Timestamp, p: TimePrecision)
    ensures
        final(out)@ == old(out)@ + spec_rfc3339(*ts, p),
{
    push_padded(out, ts.year as u32, 4);
    out.push('-');
    push_padded(out, ts.month as u32, 2);
    out.push('-');
    push_padded(out, ts.day as u32, 2);
    out.push('T');
    push_padded(out, ts.hour as u32, 2);
    out.push(':');
    push_padded(out, ts.minute as u32, 2);
    out.push(':');
    push_padded(out, ts.second as u32, 2);
    assert(out@ =~= old(out)@ + spec_rfc3339_prefix(*ts));
    match p {
        TimePrecision::Secs => {},
        TimePrecision::Millis => {
            out.push('.');
            push_padded(out, ts.nanos / 1_000_000, 3);
        },
        TimePrecision::Micros => {
            out.push('.');
            push_padded(out, ts.nanos / 1_000, 6);
        },
        TimePrecision::Nanos => {
            out.push('.');
            push_padded(out, ts.nanos, 9);
        },
    }
    assert(out@ =~= old(out)@ + spec_rfc3339_prefix(*ts) + spec_rfc3339_frac(ts.nanos as nat, p));
    out.push('Z');
    assert(final(out)@ =~= old(out)@ + spec_rfc3339(*ts, p));
}

/// A timestamp paired with the precision it is to be rendered at.
#[derive(Clone, Copy, Debug, PartialEq, Eq, Structural)]
pub struct SerializableDateTime {
    pub date_time: Timestamp,
    pub time_precision: TimePrecision,
}

impl SerializableDateTime {
    pub fn new(date_time: Timestamp, time_precision: TimePrecision) -> (r: SerializableDateTime)
        ensures
            r.date_time == date_time,
            r.time_precision == time_precision,
    {
        SerializableDateTime { date_time, time_precision }
    }

    /// The RFC 3339 rendering of the instant at the chosen precision.
    pub fn serialize(&self) -> (r: String)
        ensures
            r@ == spec_rfc3339(self.date_time, self.time_precision),
    {
        let mut out: Vec<char> = Vec::new();
        push_rfc3339(&mut out, &self.date_time, self.time_precision);
        crate::text::string_from_chars(out)
    }
}

/// The length of the fractional part of a rendering, decimal point included.
pub open spec fn spec_frac_len(p: TimePrecision) -> nat {
    if p == TimePrecision::Secs {
        0
    } else {
        p.spec_frac_digits() + 1
    }
}

/// Renderings of one instant differ only past the whole-seconds prefix: the
/// first 19 characters are the same at every precision, the fractional part
/// carries exactly 0, 3, 6 or 9 digits after a decimal point, and the
/// rendering always ends in `Z`.
pub proof fn lemma_precision_renderings(ts: Timestamp, p1: TimePrecision, p2: TimePrecision)
    ensures
        spec_rfc3339(ts, p1).len() == 20 + spec_frac_len(p1),
        spec_rfc3339(ts, p1).take(19) == spec_rfc3339(ts, p2).take(19),
        spec_rfc3339(ts, p1).last() == 'Z',
        p1 != TimePrecision::Secs ==> spec_rfc3339(ts, p1)[19] == '.',
{
    lemma_rfc3339_shape(ts, p1);
    lemma_rfc3339_shape(ts, p2);
    assert(spec_rfc3339(ts, p1).take(19) =~= spec_rfc3339_prefix(ts));
    assert(spec_rfc3339(ts, p2).take(19) =~= spec_rfc3339_prefix(ts));
    if p1 != TimePrecision::Secs {
        assert(spec_rfc3339_frac(ts.nanos as nat, p1)[0] == '.');
        assert(spec_rfc3339(ts, p1)[19] == spec_rfc3339_frac(ts.nanos as nat, p1)[0]);
    }
}

proof fn lemma_rfc3339_shape(ts: Timestamp, p: TimePrecision)
    ensures
        spec_rfc3339_prefix(ts).len() == 19,
        spec_rfc3339_frac(ts.nanos as nat, p).len() == spec_frac_len(p),
        spec_rfc3339(ts, p).len() == 20 + spec_frac_len(p),
        spec_rfc3339(ts, p).take(19) =~= spec_rfc3339_prefix(ts),
        spec_rfc3339(ts, p).last() == 'Z',
{
    crate::text::lemma_padded_len(ts.year as nat, 4);
    crate::text::lemma_padded_len(ts.month as nat, 2);
    crate::text::lemma_padded_len(ts.day as nat, 2);
    crate::text::lemma_padded_len(ts.hour as nat, 2);
    crate::text::lemma_padded_len(ts.minute as nat, 2);
    crate::text::lemma_padded_len(ts.second as nat, 2);
    crate::text::lemma_padded_len((ts.nanos / 1_000_000) as nat, 3);
    crate::text::lemma_padded_len((ts.nanos / 1_000) as nat, 6);
    crate::text::lemma_padded_len(ts.nanos as nat, 9);
}

} // verus!
