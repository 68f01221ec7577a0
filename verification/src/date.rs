use vstd::prelude::*;

use chrono::Datelike;
use chrono::TimeZone;
use chrono::Timelike;
use chrono::Utc;

verus! {

/// A calendar timestamp at the resolution the packed wire format can carry.
///
/// The wire format packs a date into 16 bits (7-bit year offset from 1980,
/// 4-bit month, 5-bit day) and a time into 16 bits (5-bit hour, 6-bit minute,
/// 5-bit seconds at 2-second resolution).
#[derive(Clone, Copy, Debug, PartialEq, Eq, Structural)]
pub struct ZipDateTime {
    pub year: u16,
    pub month: u8,
    pub day: u8,
    pub hour: u8,
    pub minute: u8,
    pub second: u8,
}

/// The POSIX timestamp chrono computes for a calendar date and time in UTC;
/// a function of the six fields alone.
pub uninterp spec fn unix_seconds_of(
    year: u16,
    month: u8,
    day: u8,
    hour: u8,
    minute: u8,
    second: u8,
) -> i64;

/// Calendar parts of the current moment in UTC.
///
/// Relies on chrono::Utc::now and the Datelike/Timelike accessors, whose
/// documentation bounds them: month is 1..=12, day 1..=31, hour 0..=23,
/// minute 0..=59 and second 0..=59. The year is unbounded.
#[verifier::external_body]
fn now_parts() -> (r: (i32, u32, u32, u32, u32, u32))
    ensures
        1 <= r.1 <= 12,
        1 <= r.2 <= 31,
        r.3 <= 23,
        r.4 <= 59,
        r.5 <= 59,
{
    let n = Utc::now();
    (n.year(), n.month(), n.day(), n.hour(), n.minute(), n.second())
}

/// POSIX timestamp of a calendar date and time in UTC.
///
/// Relies on chrono's TimeZone::with_ymd_and_hms for Utc and on
/// DateTime::timestamp: fields that name a real calendar moment map to its
/// POSIX timestamp; invalid input data yields None.
#[verifier::external_body]
fn unix_seconds_parts(
    year: u16,
    month: u8,
    day: u8,
    hour: u8,
    minute: u8,
    second: u8,
) -> (r: Option<i64>)
    ensures
        r matches Some(t) ==> t == unix_seconds_of(year, month, day, hour, minute, second),
{
    Utc.with_ymd_and_hms(
        year as i32,
        month as u32,
        day as u32,
        hour as u32,
        minute as u32,
        second as u32,
    ).single().map(|dt| dt.timestamp())
}

impl ZipDateTime {
    /// The field ranges that the packed format represents exactly
    /// (the second additionally at 2-second resolution).
    pub open spec fn valid(self) -> bool {
        &&& 1980 <= self.year <= 2107
        &&& 1 <= self.month <= 12
        &&& 1 <= self.day <= 31
        &&& self.hour <= 23
        &&& self.minute <= 59
        &&& self.second <= 59
    }

    /// The 16-bit packed date: 7-bit year offset from 1980, 4-bit month,
    /// 5-bit day.
    pub open spec fn spec_packed_date(self) -> u16
        recommends
            self.valid(),
    {
        ((self.year - 1980) * 512 + self.month * 32 + self.day) as u16
    }

    /// The 16-bit packed time: 5-bit hour, 6-bit minute, 5-bit half-seconds.
    pub open spec fn spec_packed_time(self) -> u16
        recommends
            self.valid(),
    {
        (self.hour * 2048 + self.minute * 32 + self.second / 2) as u16
    }

    /// The timestamp a packed date and time decode to.
    pub open spec fn spec_from_packed(date: u16, time: u16) -> ZipDateTime {
        ZipDateTime {
            year: (1980 + date / 512) as u16,
            month: ((date / 32) % 16) as u8,
            day: (date % 32) as u8,
            hour: (time / 2048) as u8,
            minute: ((time / 32) % 64) as u8,
            second: ((time % 32) * 2) as u8,
        }
    }

    /// Packs this timestamp into the wire format's (time, date) pair.
    /// Seconds lose their lowest bit: 2-second resolution by design.
    pub fn to_packed(&self) -> (r: (u16, u16))
        requires
            self.valid(),
        ensures
            r.0 == self.spec_packed_time(),
            r.1 == self.spec_packed_date(),
    {
        let date: u16 = (self.year - 1980) * 512 + (self.month as u16) * 32 + (self.day as u16);
        let time: u16 = (self.hour as u16) * 2048 + (self.minute as u16) * 32 + (self.second
            as u16) / 2;
        (time, date)
    }

    /// Unpacks a wire-format date and time pair. Out-of-range bit patterns
    /// (a zero month, for instance) decode to out-of-range fields; no
    /// validation happens here.
    pub fn from_packed(date: u16, time: u16) -> (r: ZipDateTime)
        ensures
            r == ZipDateTime::spec_from_packed(date, time),
    {
        ZipDateTime {
            year: 1980 + date / 512,
            month: ((date / 32) % 16) as u8,
            day: (date % 32) as u8,
            hour: (time / 2048) as u8,
            minute: ((time / 32) % 64) as u8,
            second: ((time % 32) * 2) as u8,
        }
    }

    /// The current moment, clamped into the representable year range.
    pub fn now() -> (r: ZipDateTime)
        ensures
            r.valid(),
    {
        let (y, mo, d, h, mi, s) = now_parts();
        let year: u16 = if y < 1980 {
            1980
        } else if y > 2107 {
            2107
        } else {
            y as u16
        };
        ZipDateTime {
            year,
            month: mo as u8,
            day: d as u8,
            hour: h as u8,
            minute: mi as u8,
            second: s as u8,
        }
    }

    /// POSIX timestamp of this date and time, or None if the fields do not
    /// name a real calendar moment (day 31 of a 30-day month, say).
    pub fn unix_timestamp(&self) -> (r: Option<i64>)
        ensures
            r matches Some(t) ==> t == unix_seconds_of(
                self.year,
                self.month,
                self.day,
                self.hour,
                self.minute,
                self.second,
            ),
    {
        unix_seconds_parts(self.year, self.month, self.day, self.hour, self.minute, self.second)
    }
}

proof fn lemma_date_fields_recovered(y: u16, m: u16, d: u16)
    by (bit_vector)
    requires
        y < 128,
        1 <= m <= 12,
        1 <= d <= 31,
    ensures
        (y * 512 + m * 32 + d) / 512 == y,
        ((y * 512 + m * 32 + d) / 32) % 16 == m,
        (y * 512 + m * 32 + d) % 32 == d,
        y * 512 + m * 32 + d <= 65535,
{
}

proof fn lemma_time_fields_recovered(h: u16, mi: u16, s2: u16)
    by (bit_vector)
    requires
        h <= 23,
        mi <= 59,
        s2 <= 29,
    ensures
        (h * 2048 + mi * 32 + s2) / 2048 == h,
        ((h * 2048 + mi * 32 + s2) / 32) % 64 == mi,
        (h * 2048 + mi * 32 + s2) % 32 == s2,
        h * 2048 + mi * 32 + s2 <= 65535,
{
}

/// Law (date/time codec): packing any valid timestamp with an even second and
/// unpacking the result yields the identical timestamp.
pub proof fn lemma_datetime_round_trip(dt: ZipDateTime)
    requires
        dt.valid(),
        dt.second % 2 == 0,
    ensures
        ZipDateTime::spec_from_packed(dt.spec_packed_date(), dt.spec_packed_time()) == dt,
{
    lemma_date_fields_recovered((dt.year - 1980) as u16, dt.month as u16, dt.day as u16);
    lemma_time_fields_recovered(dt.hour as u16, dt.minute as u16, (dt.second / 2) as u16);
}

/// Law (date/time codec): packing a valid timestamp with an odd second
/// truncates the second to the even value just below it; every other field
/// survives unchanged.
pub proof fn lemma_datetime_truncates_odd_second(dt: ZipDateTime)
    requires
        dt.valid(),
        dt.second % 2 == 1,
    ensures
        (ZipDateTime::spec_from_packed(dt.spec_packed_date(), dt.spec_packed_time())
            == ZipDateTime { second: (dt.second - 1) as u8, ..dt }),
{
    lemma_date_fields_recovered((dt.year - 1980) as u16, dt.month as u16, dt.day as u16);
    lemma_time_fields_recovered(dt.hour as u16, dt.minute as u16, (dt.second / 2) as u16);
}

} // verus!
