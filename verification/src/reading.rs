//! Calendar fields of an instant in UTC, as the `chrono` crate computes
//! them, and the two calls into `chrono` that produce them.

use vstd::prelude::*;
use chrono::{DateTime, Datelike, Timelike, Utc};

verus! {

/// The calendar fields of one instant in UTC, each as `chrono` hands it out.
#[derive(Debug, Clone, Copy, PartialEq, Eq, Structural)]
pub struct UtcReading {
    pub year: i32,
    pub month: u32,
    pub day: u32,
    pub hour: u32,
    pub minute: u32,
    pub second: u32,
}

impl UtcReading {
    /// Month, day, hour, minute and second lie in the ranges of a calendar
    /// date and a time of day. The year is not constrained.
    pub open spec fn in_range(self) -> bool {
        &&& 1 <= self.month <= 12
        &&& 1 <= self.day <= 31
        &&& self.hour <= 23
        &&& self.minute <= 59
        &&& self.second <= 59
    }
}

/// The UTC calendar fields that `chrono` reads from a text in RFC 3339
/// form, or `None` where `chrono` rejects the text.
pub uninterp spec fn rfc3339_utc(text: Seq<char>) -> Option<UtcReading>;

/// Reads the system clock with `chrono::Utc::now` and takes the fields of
/// the result with the getters of `chrono::Datelike` and `chrono::Timelike`.
///
/// Trusted: that month, day, hour, minute and second come back in the
/// ranges that `chrono` documents for those getters. Which instant comes
/// back is up to the machine, so nothing else is claimed. `Utc::now` panics
/// when the system clock stands before the Unix epoch.
#[verifier::external_body]
pub(crate) fn utc_now() -> (now: UtcReading)
    ensures
        now.in_range(),
{
    let now = Utc::now();
    UtcReading {
        year: now.year(),
        month: now.month(),
        day: now.day(),
        hour: now.hour(),
        minute: now.minute(),
        second: now.second(),
    }
}

/// Parses `text` with `chrono::DateTime::parse_from_rfc3339`, moves the
/// result to UTC with `DateTime::with_timezone` and takes its fields with
/// the getters of `chrono::Datelike` and `chrono::Timelike`. A text that
/// `chrono` rejects gives `None`.
///
/// Trusted: that the outcome depends on the characters of `text` alone, so
/// that it can be called [`rfc3339_utc`] of them, and that month, day,
/// hour, minute and second come back in the ranges that `chrono` documents
/// for those getters.
#[verifier::external_body]
pub(crate) fn parse_rfc3339_utc(text: &str) -> (parsed: Option<UtcReading>)
    ensures
        parsed == rfc3339_utc(text@),
        parsed matches Some(reading) ==> reading.in_range(),
{
    match DateTime::parse_from_rfc3339(text) {
        Ok(stamp) => {
            let utc = stamp.with_timezone(&Utc);
            Some(UtcReading {
                year: utc.year(),
                month: utc.month(),
                day: utc.day(),
                hour: utc.hour(),
                minute: utc.minute(),
                second: utc.second(),
            })
        },
        Err(_) => None,
    }
}

} // verus!
