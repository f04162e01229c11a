//! One reading of the wall clock, as the resolver takes it.

use chrono::Timelike;
use vstd::prelude::*;

verus! {

/// A time of day as plain numbers: what a `WallClockSample` stands for.
pub struct TimeOfDay {
    pub hour: int,
    pub minute: int,
    pub second: int,
    pub millisecond: int,
}

impl TimeOfDay {
    /// Hour `0..=23`, minute and second `0..=59`, millisecond `0..=999`.
    pub open spec fn wf(self) -> bool {
        &&& 0 <= self.hour < 24
        &&& 0 <= self.minute < 60
        &&& 0 <= self.second < 60
        &&& 0 <= self.millisecond < 1000
    }

    /// Whole seconds since the hour began.
    pub open spec fn seconds_into_hour(self) -> int {
        self.minute * 60 + self.second
    }

    /// Milliseconds since the current five-minute bucket began.
    pub open spec fn millis_into_bucket(self) -> int {
        (self.minute % 5) * 60_000 + self.second * 1000 + self.millisecond
    }
}

/// A snapshot of the local time of day. Every value is in range: the fields are
/// private and no constructor lets another one through.
#[derive(Debug, Clone, Copy, PartialEq, Eq)]
pub struct WallClockSample {
    hour: u8,
    minute: u8,
    second: u8,
    millisecond: u16,
}

impl View for WallClockSample {
    type V = TimeOfDay;

    closed spec fn view(&self) -> TimeOfDay {
        TimeOfDay {
            hour: self.hour as int,
            minute: self.minute as int,
            second: self.second as int,
            millisecond: self.millisecond as int,
        }
    }
}

/// Reads the local time with `chrono::Local::now` and takes from it the hour,
/// minute and second of the day (`chrono::Timelike::hour`, `minute`, `second`)
/// and the count of milliseconds since the epoch
/// (`chrono::DateTime::timestamp_millis`), in that order. `Timelike` gives the
/// hour as `0..=23` and the minute and second as `0..=59`; that is all that is
/// claimed here. Of the millisecond count nothing is claimed. `now` panics
/// where the system clock stands before the epoch.
#[verifier::external_body]
fn read_local_clock() -> (r: (u32, u32, u32, i64))
    ensures
        r.0 < 24,
        r.1 < 60,
        r.2 < 60,
{
    let now = chrono::Local::now();
    (now.hour(), now.minute(), now.second(), now.timestamp_millis())
}

/// The milliseconds past the whole second in a count of milliseconds since
/// the epoch. Counts before the epoch are negative; the part past the second
/// is counted forwards all the same.
pub fn subsecond_millis(timestamp_millis: i64) -> (ms: u16)
    ensures
        ms == timestamp_millis as int % 1000,
{
    if timestamp_millis >= 0 {
        (timestamp_millis % 1000) as u16
    } else {
        let back: i64 = -(timestamp_millis + 1);
        (999 - back % 1000) as u16
    }
}

impl WallClockSample {
    #[verifier::type_invariant]
    spec fn in_range(self) -> bool {
        self@.wf()
    }

    /// The sample for the given time of day, if each part is in range.
    pub fn new(hour: u32, minute: u32, second: u32, millisecond: u32) -> (r: Option<
        WallClockSample,
    >)
        ensures
            r is Some <==> hour < 24 && minute < 60 && second < 60 && millisecond < 1000,
            r matches Some(t) ==> t@ == (TimeOfDay {
                hour: hour as int,
                minute: minute as int,
                second: second as int,
                millisecond: millisecond as int,
            }),
    {
        if hour < 24 && minute < 60 && second < 60 && millisecond < 1000 {
            Some(
                WallClockSample {
                    hour: hour as u8,
                    minute: minute as u8,
                    second: second as u8,
                    millisecond: millisecond as u16,
                },
            )
        } else {
            None
        }
    }

    /// The local time of day on the system clock, to the millisecond: what
    /// `from_reading` makes of the clock's reading. Which time that is lies
    /// with the clock; whatever it says, the sample is a time of day.
    pub fn now() -> (t: WallClockSample)
        ensures
            t@.wf(),
    {
        let reading = read_local_clock();
        match WallClockSample::from_reading(reading.0, reading.1, reading.2, reading.3) {
            Some(t) => t,
            None => unreached(),
        }
    }

    /// The sample for a reading of the clock: the hour, minute and second as
    /// read, and the millisecond taken from the count of milliseconds since
    /// the epoch. A reading whose hour, minute or second is out of range gives
    /// none; the count may be any.
    pub fn from_reading(hour: u32, minute: u32, second: u32, timestamp_millis: i64) -> (r: Option<
        WallClockSample,
    >)
        ensures
            r is Some <==> hour < 24 && minute < 60 && second < 60,
            r matches Some(t) ==> t@ == (TimeOfDay {
                hour: hour as int,
                minute: minute as int,
                second: second as int,
                millisecond: timestamp_millis as int % 1000,
            }),
    {
        WallClockSample::new(hour, minute, second, subsecond_millis(timestamp_millis) as u32)
    }

    /// Hour of the day, `0..=23`.
    pub fn hour(&self) -> (h: u8)
        ensures
            h == self@.hour,
            h < 24,
    {
        proof {
            use_type_invariant(self);
        }
        self.hour
    }

    /// Minute of the hour, `0..=59`.
    pub fn minute(&self) -> (m: u8)
        ensures
            m == self@.minute,
            m < 60,
    {
        proof {
            use_type_invariant(self);
        }
        self.minute
    }

    /// Second of the minute, `0..=59`.
    pub fn second(&self) -> (s: u8)
        ensures
            s == self@.second,
            s < 60,
    {
        proof {
            use_type_invariant(self);
        }
        self.second
    }

    /// Millisecond of the second, `0..=999`.
    pub fn millisecond(&self) -> (ms: u16)
        ensures
            ms == self@.millisecond,
            ms < 1000,
    {
        proof {
            use_type_invariant(self);
        }
        self.millisecond
    }
}

} // verus!
