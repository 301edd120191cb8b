//! Timestamps and their calendar forms.
//!
//! A timestamp is a count of seconds and nanoseconds from the Unix epoch.
//! Its calendar fields and its RFC 3339 text are computed by `chrono`, in
//! UTC; the eight-word form that a native event carries is built here.

use chrono::DateTime;
use chrono::Datelike;
use chrono::Timelike;
use chrono::Utc;
use vstd::prelude::*;
use vstd::utf8::is_ascii_chars;

verus! {

/// A point in time: whole seconds since 1970-01-01 00:00:00 UTC, negative
/// before it, and the nanoseconds past that second.
#[derive(Clone, Copy, Debug, PartialEq, Eq, Structural)]
pub struct Timestamp {
    pub secs: i64,
    pub nanos: u32,
}

/// The calendar fields of a point in time, in UTC.
#[derive(Clone, Copy, Debug, PartialEq, Eq, Structural)]
pub struct CivilTime {
    pub year: i32,
    pub month: u32,
    pub day: u32,
    pub hour: u32,
    pub minute: u32,
    pub second: u32,
    pub nanosecond: u32,
}

impl CivilTime {
    /// The ranges that the calendar fields of a valid date and time lie in.
    /// A nanosecond count of a thousand million or more marks a leap second.
    pub open spec fn in_range(self) -> bool {
        &&& 1 <= self.month <= 12
        &&& 1 <= self.day <= 31
        &&& self.hour <= 23
        &&& self.minute <= 59
        &&& self.second <= 59
        &&& self.nanosecond <= 1_999_999_999
    }
}

/// The UTC calendar fields of the time `secs` seconds and `nanos`
/// nanoseconds from the epoch, as `chrono` computes them; `None` where
/// `chrono` cannot represent that time.
pub uninterp spec fn utc_civil_time(secs: i64, nanos: u32) -> Option<CivilTime>;

/// The RFC 3339 text of the time `secs` seconds and `nanos` nanoseconds from
/// the epoch in UTC, as `chrono` writes it; `None` where `chrono` cannot
/// represent that time.
pub uninterp spec fn utc_rfc3339(secs: i64, nanos: u32) -> Option<Seq<char>>;

/// Calls `chrono::DateTime::<Utc>::from_timestamp` and reads the year, month,
/// day, hour, minute, second and nanosecond of the result through
/// `chrono::Datelike` and `chrono::Timelike`. The contract gives the result
/// its name, repeats the ranges that those traits document for their
/// getters, and says that the nanoseconds are the ones that were given,
/// which `chrono` keeps as they are; the calendar arithmetic itself is not
/// proved here.
#[verifier::external_body]
fn civil_time_utc(secs: i64, nanos: u32) -> (civil: Option<CivilTime>)
    ensures
        civil == utc_civil_time(secs, nanos),
        civil matches Some(c) ==> c.in_range(),
        civil matches Some(c) ==> c.nanosecond == nanos,
{
    match DateTime::<Utc>::from_timestamp(secs, nanos) {
        Some(dt) => Some(
            CivilTime {
                year: dt.year(),
                month: dt.month(),
                day: dt.day(),
                hour: dt.hour(),
                minute: dt.minute(),
                second: dt.second(),
                nanosecond: dt.nanosecond(),
            },
        ),
        None => None,
    }
}

/// Calls `chrono::DateTime::<Utc>::from_timestamp` and, on the result,
/// `chrono::DateTime::to_rfc3339`. The contract gives the text its name and
/// says how long it can be: a signed year of at most six digits, the date,
/// the time, at most nine digits of a second's fraction and the offset
/// `+00:00` make at most 38 characters, all of them ASCII.
#[verifier::external_body]
fn rfc3339_utc(secs: i64, nanos: u32) -> (text: Option<String>)
    ensures
        text is Some <==> utc_rfc3339(secs, nanos) is Some,
        text matches Some(t) ==> utc_rfc3339(secs, nanos) == Some(t@),
        text matches Some(t) ==> t@.len() <= RFC3339_CHARS_MAX && is_ascii_chars(t@),
{
    match DateTime::<Utc>::from_timestamp(secs, nanos) {
        Some(dt) => Some(dt.to_rfc3339()),
        None => None,
    }
}

/// The most characters that the RFC 3339 text of a time has.
pub const RFC3339_CHARS_MAX: usize = 38;

/// The nanoseconds in a second.
pub const NANOS_PER_SECOND: u32 = 1_000_000_000;

/// The point in time that lies the given seconds and nanoseconds after the
/// epoch, or before it, as nanoseconds from the epoch.
pub open spec fn offset_instant(before: bool, secs: u64, nanos: u32) -> int {
    if before {
        -(secs * NANOS_PER_SECOND + nanos)
    } else {
        secs * NANOS_PER_SECOND + nanos
    }
}

/// Whether the whole seconds at or below a point in time fit in 64 signed
/// bits.
pub open spec fn instant_in_range(instant: int) -> bool {
    i64::MIN * NANOS_PER_SECOND <= instant < (i64::MAX + 1) * NANOS_PER_SECOND
}

impl Timestamp {
    /// This point in time, as nanoseconds from the epoch.
    pub open spec fn instant(self) -> int {
        self.secs * NANOS_PER_SECOND + self.nanos
    }

    /// The timestamp of the point in time that lies the given seconds and
    /// nanoseconds after the epoch, or before it. The seconds of a time
    /// before the epoch are rounded down, so that the nanoseconds always
    /// count forward. `None` for a nanosecond count of a second or more and
    /// for a time whose seconds do not fit in 64 signed bits.
    pub fn from_epoch_offset(before: bool, secs: u64, nanos: u32) -> (timestamp: Option<Timestamp>)
        ensures
            timestamp is Some <==> nanos < NANOS_PER_SECOND && instant_in_range(
                offset_instant(before, secs, nanos),
            ),
            timestamp matches Some(t) ==> t.nanos < NANOS_PER_SECOND && t.instant()
                == offset_instant(before, secs, nanos),
    {
        if nanos >= NANOS_PER_SECOND {
            return None;
        }
        if !before {
            if secs > i64::MAX as u64 {
                None
            } else {
                Some(Timestamp { secs: secs as i64, nanos })
            }
        } else if nanos == 0 {
            if secs <= i64::MAX as u64 {
                Some(Timestamp { secs: -(secs as i64), nanos: 0 })
            } else if secs == i64::MAX as u64 + 1 {
                Some(Timestamp { secs: i64::MIN, nanos: 0 })
            } else {
                None
            }
        } else {
            if secs > i64::MAX as u64 {
                None
            } else {
                Some(Timestamp { secs: -(secs as i64) - 1, nanos: NANOS_PER_SECOND - nanos })
            }
        }
    }

    /// The UTC calendar fields of this time, where `chrono` can represent it.
    pub fn civil(&self) -> (civil: Option<CivilTime>)
        ensures
            civil == utc_civil_time(self.secs, self.nanos),
            civil matches Some(c) ==> c.in_range(),
            civil matches Some(c) ==> c.nanosecond == self.nanos,
    {
        civil_time_utc(self.secs, self.nanos)
    }

    /// The RFC 3339 text of this time in UTC, where `chrono` can represent it.
    pub fn rfc3339(&self) -> (text: Option<String>)
        ensures
            text is Some <==> utc_rfc3339(self.secs, self.nanos) is Some,
            text matches Some(t) ==> utc_rfc3339(self.secs, self.nanos) == Some(t@),
            text matches Some(t) ==> t@.len() <= RFC3339_CHARS_MAX && is_ascii_chars(t@),
    {
        rfc3339_utc(self.secs, self.nanos)
    }
}

/// A date and time as eight 16-bit words: year, month, a zero in the place of
/// the day of the week, day, hour, minute, second, millisecond.
#[derive(Clone, Copy, Debug, PartialEq, Eq)]
pub struct Win32SystemTime {
    pub st: [u16; 8],
}

/// The eight words of a calendar time, each cut to its low 16 bits. Only a
/// year outside 0 to 65535 loses anything by that, where the fields are in
/// their ranges.
pub open spec fn system_time_words(civil: CivilTime) -> Seq<u16> {
    seq![
        civil.year as u16,
        civil.month as u16,
        0u16,
        civil.day as u16,
        civil.hour as u16,
        civil.minute as u16,
        civil.second as u16,
        (civil.nanosecond / 1_000_000) as u16,
    ]
}

impl Win32SystemTime {
    /// The eight-word form of a calendar time.
    pub fn from_civil(civil: &CivilTime) -> (time: Win32SystemTime)
        ensures
            time.st@ == system_time_words(*civil),
    {
        let st: [u16; 8] = [
            #[verifier::truncate] (civil.year as u16),
            #[verifier::truncate] (civil.month as u16),
            0,
            #[verifier::truncate] (civil.day as u16),
            #[verifier::truncate] (civil.hour as u16),
            #[verifier::truncate] (civil.minute as u16),
            #[verifier::truncate] (civil.second as u16),
            #[verifier::truncate] ((civil.nanosecond / 1_000_000) as u16),
        ];
        assert(st@ =~= system_time_words(*civil));
        Win32SystemTime { st }
    }

    /// The eight-word form of a timestamp in UTC: `None` where `chrono`
    /// cannot represent the time, else the words of its calendar fields.
    pub fn from_timestamp(timestamp: &Timestamp) -> (time: Option<Win32SystemTime>)
        ensures
            time is Some <==> utc_civil_time(timestamp.secs, timestamp.nanos) is Some,
            time is Some ==> utc_civil_time(timestamp.secs, timestamp.nanos)->0.in_range(),
            time is Some ==> utc_civil_time(timestamp.secs, timestamp.nanos)->0.nanosecond
                == timestamp.nanos,
            time matches Some(t) ==> t.st@[7] == (timestamp.nanos / 1_000_000) as u16,
            time matches Some(t) ==> t.st@ == system_time_words(
                utc_civil_time(timestamp.secs, timestamp.nanos)->0,
            ),
    {
        match timestamp.civil() {
            Some(civil) => Some(Win32SystemTime::from_civil(&civil)),
            None => None,
        }
    }
}

/// For a calendar time with its fields in their ranges and a year from 0 to
/// 65535, the eight words are the fields themselves, with milliseconds in
/// the last word, which is under 1000 for a time that is no leap second.
pub proof fn lemma_system_time_exact(civil: CivilTime)
    requires
        civil.in_range(),
        0 <= civil.year <= 65535,
    ensures
        system_time_words(civil).len() == 8,
        system_time_words(civil)[0] == civil.year,
        system_time_words(civil)[1] == civil.month,
        system_time_words(civil)[2] == 0,
        system_time_words(civil)[3] == civil.day,
        system_time_words(civil)[4] == civil.hour,
        system_time_words(civil)[5] == civil.minute,
        system_time_words(civil)[6] == civil.second,
        system_time_words(civil)[7] == civil.nanosecond / 1_000_000,
        civil.nanosecond < 1_000_000_000 ==> system_time_words(civil)[7] < 1000,
{
}

/// A timestamp with its nanoseconds under a second is fixed by its point in
/// time: two such timestamps of one instant are the same.
pub proof fn lemma_instant_fixes_timestamp(a: Timestamp, b: Timestamp)
    requires
        a.nanos < NANOS_PER_SECOND,
        b.nanos < NANOS_PER_SECOND,
        a.instant() == b.instant(),
    ensures
        a == b,
{
}

} // verus!
