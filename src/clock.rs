use vstd::prelude::*;

verus! {

#[verifier::external_type_specification]
#[verifier::external_body]
pub struct ExOffsetDateTime(time::OffsetDateTime);

/// Relies on `time::OffsetDateTime::now_utc`: the current instant, in UTC.
/// Nothing is known of which instant it is.
pub assume_specification[ time::OffsetDateTime::now_utc ]() -> time::OffsetDateTime;

/// Relies on `time::OffsetDateTime::year`: the calendar year of the instant.
pub assume_specification[ time::OffsetDateTime::year ](dt: time::OffsetDateTime) -> i32;

/// Relies on `time::OffsetDateTime::ordinal`: the day of the year, documented to lie in `1..=366`.
pub assume_specification[ time::OffsetDateTime::ordinal ](dt: time::OffsetDateTime) -> (r: u16)
    ensures
        1 <= r <= 366,
;

/// Relies on `time::OffsetDateTime::hour`: documented to lie in `0..24`.
pub assume_specification[ time::OffsetDateTime::hour ](dt: time::OffsetDateTime) -> (r: u8)
    ensures
        r < 24,
;

/// Relies on `time::OffsetDateTime::minute`: documented to lie in `0..60`.
pub assume_specification[ time::OffsetDateTime::minute ](dt: time::OffsetDateTime) -> (r: u8)
    ensures
        r < 60,
;

/// Relies on `time::OffsetDateTime::second`: documented to lie in `0..60`.
pub assume_specification[ time::OffsetDateTime::second ](dt: time::OffsetDateTime) -> (r: u8)
    ensures
        r < 60,
;

/// Relies on `rand::random`: a value from the thread-local generator.
/// Nothing is known of it.
#[verifier::external_body]
pub(crate) fn random_u128() -> u128 {
    rand::random()
}

/// Year from which year offsets count.
pub const UNIX_EPOCH_YEAR: i64 = 1970;

/// A UTC clock reading, as the identifier needs it: the calendar year, the day
/// within the year (from 1), and the time of day.
#[derive(Clone, Copy, Debug)]
pub struct ClockReading {
    pub year: i32,
    pub ordinal: u16,
    pub hour: u8,
    pub minute: u8,
    pub second: u8,
}

impl ClockReading {
    /// Each part lies in its calendar range.
    pub open spec fn wf(self) -> bool {
        &&& 1 <= self.ordinal <= 366
        &&& self.hour < 24
        &&& self.minute < 60
        &&& self.second < 60
    }

    /// Whole seconds from the start of the year, at midnight UTC, to the reading.
    pub open spec fn seconds_in_year(self) -> int {
        (self.ordinal - 1) * 86400 + self.hour * 3600 + self.minute * 60 + self.second
    }

    /// Years since 1970, kept to their low eight bits.
    pub open spec fn year_offset(self) -> u8 {
        (self.year - UNIX_EPOCH_YEAR) as u8
    }

    /// Reads the clock.
    pub fn now_utc() -> (r: ClockReading)
        ensures
            r.wf(),
    {
        let now = time::OffsetDateTime::now_utc();
        ClockReading {
            year: now.year(),
            ordinal: now.ordinal(),
            hour: now.hour(),
            minute: now.minute(),
            second: now.second(),
        }
    }

    /// Years since 1970, truncated to eight bits: the design takes it that
    /// identifiers are not made 256 years on.
    pub fn years_since_unix_epoch(&self) -> (r: u8)
        ensures
            r == self.year_offset(),
    {
        (self.year as i64 - UNIX_EPOCH_YEAR) as u8
    }

    pub fn seconds_since_year_start(&self) -> (r: u32)
        requires
            self.wf(),
        ensures
            r == self.seconds_in_year(),
            r < 31_622_400,
    {
        (self.ordinal as u32 - 1) * 86400 + self.hour as u32 * 3600 + self.minute as u32 * 60
            + self.second as u32
    }
}

} // verus!
