//! One source's answer: a UTC timestamp to the minute.

use vstd::prelude::*;
use crate::reading::{parse_rfc3339_utc, rfc3339_utc, UtcReading};

verus! {

/// A UTC timestamp as one source reports it. A source that failed reports
/// no sample at all, which callers write as `None`.
#[derive(Debug, Clone, Copy, PartialEq, Eq, Structural)]
pub struct TimestampSample {
    pub day: u8,
    pub month: u8,
    pub year: u16,
    pub hour: u8,
    pub minute: u8,
}

impl TimestampSample {
    /// Both samples name the same day, month, year and hour.
    pub open spec fn same_hour(self, other: TimestampSample) -> bool {
        &&& self.day == other.day
        &&& self.month == other.month
        &&& self.year == other.year
        &&& self.hour == other.hour
    }

    /// The sample that a reading gives: its day, month, hour and minute cut
    /// to 8 bits and its year to 16 bits, the second dropped. A reading
    /// whose fields fit those widths is kept as it is.
    pub open spec fn of_reading(reading: UtcReading) -> TimestampSample {
        TimestampSample {
            day: reading.day as u8,
            month: reading.month as u8,
            year: reading.year as u16,
            hour: reading.hour as u8,
            minute: reading.minute as u8,
        }
    }

    /// Makes the sample of a reading.
    pub fn from_reading(reading: UtcReading) -> (sample: TimestampSample)
        ensures
            sample == Self::of_reading(reading),
    {
        TimestampSample {
            day: reading.day as u8,
            month: reading.month as u8,
            year: reading.year as u16,
            hour: reading.hour as u8,
            minute: reading.minute as u8,
        }
    }

    /// This sample with its minute replaced.
    pub open spec fn at_minute(self, minute: u8) -> TimestampSample {
        TimestampSample { minute, ..self }
    }
}

/// A reading whose month, day, hour and minute are in range and whose year
/// lies between 0 and 65,535 gives a sample with the same fields.
pub proof fn lemma_sample_keeps_reading_in_range(reading: UtcReading)
    requires
        reading.in_range(),
        0 <= reading.year <= u16::MAX,
    ensures
        TimestampSample::of_reading(reading).day == reading.day,
        TimestampSample::of_reading(reading).month == reading.month,
        TimestampSample::of_reading(reading).year == reading.year,
        TimestampSample::of_reading(reading).hour == reading.hour,
        TimestampSample::of_reading(reading).minute == reading.minute,
{
}

/// Reads a timestamp in RFC 3339 form, such as
/// `2024-01-01T10:30:00+00:00`, as a sample in UTC. A text that is not of
/// that form gives no sample.
pub fn parse_timestamp(text: &str) -> (sample: Option<TimestampSample>)
    ensures
        sample == match rfc3339_utc(text@) {
            Some(reading) => Some(TimestampSample::of_reading(reading)),
            None => None,
        },
        sample matches Some(s) ==> {
            &&& 1 <= s.day <= 31
            &&& 1 <= s.month <= 12
            &&& s.hour <= 23
            &&& s.minute <= 59
        },
{
    match parse_rfc3339_utc(text) {
        Some(reading) => Some(TimestampSample::from_reading(reading)),
        None => None,
    }
}

} // verus!
