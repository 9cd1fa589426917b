//! The software clock: a wall-clock reading that advances one second at a
//! time, on a calendar in which every month has 31 days.

use vstd::prelude::*;
use crate::reading::{utc_now, UtcReading};
use crate::sample::TimestampSample;

verus! {

/// A wall-clock reading as six mathematical integers.
pub struct ClockTime {
    pub second: int,
    pub minute: int,
    pub hour: int,
    pub day: int,
    pub month: int,
    pub year: int,
}

impl ClockTime {
    /// Every field lies in its nominal range. The year is not constrained.
    pub open spec fn valid(self) -> bool {
        &&& 0 <= self.second < 60
        &&& 0 <= self.minute < 60
        &&& 0 <= self.hour < 24
        &&& 1 <= self.day <= 31
        &&& 1 <= self.month <= 12
    }

    /// The reading one second later: the second is incremented, and each
    /// field that runs past its range is reset and carries into the next one.
    pub open spec fn next(self) -> ClockTime {
        if self.second + 1 < 60 {
            ClockTime { second: self.second + 1, ..self }
        } else if self.minute + 1 < 60 {
            ClockTime { second: 0, minute: self.minute + 1, ..self }
        } else if self.hour + 1 < 24 {
            ClockTime { second: 0, minute: 0, hour: self.hour + 1, ..self }
        } else if self.day + 1 <= 31 {
            ClockTime { second: 0, minute: 0, hour: 0, day: self.day + 1, ..self }
        } else if self.month + 1 <= 12 {
            ClockTime { second: 0, minute: 0, hour: 0, day: 1, month: self.month + 1, ..self }
        } else {
            ClockTime { second: 0, minute: 0, hour: 0, day: 1, month: 1, year: self.year + 1 }
        }
    }

    /// The reading `n` seconds later: `n` steps of [`ClockTime::next`].
    pub open spec fn after(self, n: nat) -> ClockTime
        decreases n,
    {
        if n == 0 {
            self
        } else {
            self.next().after((n - 1) as nat)
        }
    }

    /// The number of seconds from the first second of year 0 to this
    /// reading, on the clock's own calendar of twelve months of 31 days.
    pub open spec fn ordinal(self) -> int {
        self.second + 60 * (self.minute + 60 * (self.hour + 24 * ((self.day - 1) + 31 * ((self.month
            - 1) + 12 * self.year))))
    }

    /// The same time of day on the following day of the clock's calendar:
    /// day 31 is followed by day 1 of the next month, and month 12 by
    /// month 1 of the next year.
    pub open spec fn next_day(self) -> ClockTime {
        if self.day < 31 {
            ClockTime { day: self.day + 1, ..self }
        } else if self.month < 12 {
            ClockTime { day: 1, month: self.month + 1, ..self }
        } else {
            ClockTime { day: 1, month: 1, year: self.year + 1, ..self }
        }
    }

    /// The reading that the fields of a UTC instant give: its month, day,
    /// hour, minute and second cut to 8 bits and its year to 16 bits. A
    /// reading whose fields fit those widths is kept as it is.
    pub open spec fn of_reading(reading: UtcReading) -> ClockTime {
        ClockTime {
            second: (reading.second as u8) as int,
            minute: (reading.minute as u8) as int,
            hour: (reading.hour as u8) as int,
            day: (reading.day as u8) as int,
            month: (reading.month as u8) as int,
            year: (reading.year as u16) as int,
        }
    }

    /// The fields of a clock fit their widths: 8 bits, and 16 for the year.
    pub open spec fn fits(self) -> bool {
        &&& 0 <= self.second <= u8::MAX
        &&& 0 <= self.minute <= u8::MAX
        &&& 0 <= self.hour <= u8::MAX
        &&& 0 <= self.day <= u8::MAX
        &&& 0 <= self.month <= u8::MAX
        &&& 0 <= self.year <= u16::MAX
    }

    /// This reading to the minute, the second dropped.
    pub open spec fn to_minute(self) -> TimestampSample {
        TimestampSample {
            day: self.day as u8,
            month: self.month as u8,
            year: self.year as u16,
            hour: self.hour as u8,
            minute: self.minute as u8,
        }
    }

    /// Every increment that one step performs stays within the width of the
    /// field it is applied to: `u8` for all fields but the year, `u16` for
    /// the year.
    pub open spec fn step_fits(self) -> bool {
        &&& self.second < u8::MAX
        &&& self.second + 1 >= 60 ==> {
            &&& self.minute < u8::MAX
            &&& self.minute + 1 >= 60 ==> {
                &&& self.hour < u8::MAX
                &&& self.hour + 1 >= 24 ==> {
                    &&& self.day < u8::MAX
                    &&& self.day + 1 > 31 ==> {
                        &&& self.month < u8::MAX
                        &&& self.month + 1 > 12 ==> self.year < u16::MAX
                    }
                }
            }
        }
    }
}

/// The software clock. Its fields change only through [`SoftClock::tick`].
#[derive(Debug, Clone, Copy, PartialEq, Eq, Structural)]
pub struct SoftClock {
    sec: u8,
    min: u8,
    hour: u8,
    day: u8,
    month: u8,
    year: u16,
}

impl View for SoftClock {
    type V = ClockTime;

    closed spec fn view(&self) -> ClockTime {
        ClockTime {
            second: self.sec as int,
            minute: self.min as int,
            hour: self.hour as int,
            day: self.day as int,
            month: self.month as int,
            year: self.year as int,
        }
    }
}

impl SoftClock {
    /// The fields of every clock fit their widths.
    pub proof fn lemma_view_fits(self)
        ensures
            self@.fits(),
    {
    }

    /// A clock that shows the given fields of a UTC instant.
    pub fn from_reading(reading: UtcReading) -> (clock: SoftClock)
        ensures
            clock@ == ClockTime::of_reading(reading),
            reading.in_range() ==> clock@.valid(),
    {
        SoftClock {
            sec: reading.second as u8,
            min: reading.minute as u8,
            hour: reading.hour as u8,
            day: reading.day as u8,
            month: reading.month as u8,
            year: reading.year as u16,
        }
    }

    /// A clock that shows the system's current time in UTC. Which time that
    /// is depends on the machine; it is a valid reading whatever it is.
    pub fn from_system_time() -> (clock: SoftClock)
        ensures
            clock@.valid(),
    {
        SoftClock::from_reading(utc_now())
    }

    /// Tells whether [`SoftClock::tick`] may be called: whether every
    /// increment of the next step fits its field.
    pub fn can_tick(&self) -> (fits: bool)
        ensures
            fits == self@.step_fits(),
    {
        if self.sec == u8::MAX {
            false
        } else if self.sec + 1 < 60 {
            true
        } else if self.min == u8::MAX {
            false
        } else if self.min + 1 < 60 {
            true
        } else if self.hour == u8::MAX {
            false
        } else if self.hour + 1 < 24 {
            true
        } else if self.day == u8::MAX {
            false
        } else if self.day + 1 <= 31 {
            true
        } else if self.month == u8::MAX {
            false
        } else if self.month + 1 <= 12 {
            true
        } else {
            self.year < u16::MAX
        }
    }

    /// What the clock shows, to the minute.
    pub fn timestamp(&self) -> (sample: TimestampSample)
        ensures
            sample == self@.to_minute(),
            sample.day == self@.day,
            sample.month == self@.month,
            sample.year == self@.year,
            sample.hour == self@.hour,
            sample.minute == self@.minute,
    {
        TimestampSample {
            day: self.day,
            month: self.month,
            year: self.year,
            hour: self.hour,
            minute: self.min,
        }
    }

    /// The second that the clock shows.
    pub fn second(&self) -> (second: u8)
        ensures
            second == self@.second,
    {
        self.sec
    }

    /// The minute that the clock shows.
    pub fn minute(&self) -> (minute: u8)
        ensures
            minute == self@.minute,
    {
        self.min
    }

    /// The hour that the clock shows.
    pub fn hour(&self) -> (hour: u8)
        ensures
            hour == self@.hour,
    {
        self.hour
    }

    /// The day that the clock shows.
    pub fn day(&self) -> (day: u8)
        ensures
            day == self@.day,
    {
        self.day
    }

    /// The month that the clock shows.
    pub fn month(&self) -> (month: u8)
        ensures
            month == self@.month,
    {
        self.month
    }

    /// The year that the clock shows.
    pub fn year(&self) -> (year: u16)
        ensures
            year == self@.year,
    {
        self.year
    }

    /// Advances the clock by one second.
    pub fn tick(&mut self)
        requires
            old(self)@.step_fits(),
        ensures
            final(self)@ == old(self)@.next(),
    {
        self.sec += 1;
        if self.sec >= 60 {
            self.sec = 0;
            self.min += 1;
            if self.min >= 60 {
                self.min = 0;
                self.hour += 1;
                if self.hour >= 24 {
                    self.hour = 0;
                    self.day += 1;
                    if self.day > 31 {
                        self.day = 1;
                        self.month += 1;
                        if self.month > 12 {
                            self.month = 1;
                            self.year += 1;
                        }
                    }
                }
            }
        }
    }
}

/// A reading whose month, day, hour, minute and second are in range and
/// whose year lies between 0 and 65,535 is shown by the clock made of it
/// field for field.
pub proof fn lemma_reading_in_range_is_kept(reading: UtcReading)
    requires
        reading.in_range(),
        0 <= reading.year <= u16::MAX,
    ensures
        ClockTime::of_reading(reading) == (ClockTime {
            second: reading.second as int,
            minute: reading.minute as int,
            hour: reading.hour as int,
            day: reading.day as int,
            month: reading.month as int,
            year: reading.year as int,
        }),
        ClockTime::of_reading(reading).valid(),
{
}

/// A clock that shows a valid reading can tick, unless it shows the last
/// second of year 65,535.
pub proof fn lemma_valid_clock_can_tick(clock: SoftClock)
    requires
        clock@.valid(),
    ensures
        clock@.step_fits() <==> clock@.next().year <= u16::MAX,
        clock@.step_fits() <==> !(clock@ == ClockTime {
            second: 59,
            minute: 59,
            hour: 23,
            day: 31,
            month: 12,
            year: u16::MAX as int,
        }),
{
    clock.lemma_view_fits();
}

/// One step keeps a valid reading valid and moves it one second along the
/// clock's calendar.
pub proof fn lemma_next_is_one_second(t: ClockTime)
    requires
        t.valid(),
    ensures
        t.next().valid(),
        t.next().ordinal() == t.ordinal() + 1,
{
}

/// `n` steps keep a valid reading valid and move it `n` seconds along the
/// clock's calendar.
pub proof fn lemma_after_is_n_seconds(t: ClockTime, n: nat)
    requires
        t.valid(),
    ensures
        t.after(n).valid(),
        t.after(n).ordinal() == t.ordinal() + n,
    decreases n,
{
    if n > 0 {
        lemma_next_is_one_second(t);
        lemma_after_is_n_seconds(t.next(), (n - 1) as nat);
    }
}

/// Two valid readings that lie equally many seconds from the start of the
/// calendar are the same reading.
pub proof fn lemma_ordinal_determines_reading(a: ClockTime, b: ClockTime)
    requires
        a.valid(),
        b.valid(),
        a.ordinal() == b.ordinal(),
    ensures
        a == b,
{
}

/// Sixty ticks from a valid reading whose minute is below 59 add one to the
/// minute and leave every other field, the second included, as it was.
pub proof fn lemma_sixty_ticks_add_a_minute(t: ClockTime)
    requires
        t.valid(),
        t.minute < 59,
    ensures
        t.after(60) == (ClockTime { minute: t.minute + 1, ..t }),
{
    let expected = ClockTime { minute: t.minute + 1, ..t };
    lemma_after_is_n_seconds(t, 60);
    lemma_ordinal_determines_reading(t.after(60), expected);
}

/// 86,400 ticks from any valid reading lead to the same time of day on the
/// following day of the clock's calendar, in which day 31 of every month is
/// followed by day 1 of the next.
pub proof fn lemma_day_of_ticks_is_next_day(t: ClockTime)
    requires
        t.valid(),
    ensures
        t.after(86_400) == t.next_day(),
{
    lemma_after_is_n_seconds(t, 86_400);
    lemma_ordinal_determines_reading(t.after(86_400), t.next_day());
}

} // verus!
