//! Wall-clock times of day.

use vstd::prelude::*;
use vstd::string::StringSliceAdditionalSpecFns;
use vstd::std_specs::convert::TryFromSpecImpl;
use crate::clock_text::{collect_pair, number_fields, parse_clock};
use crate::parse_error::ParseError;

verus! {

/// The mathematical reading of a clock: an hour and a minute.
pub struct ClockTime {
    pub hour: nat,
    pub minute: nat,
}

impl ClockTime {
    /// A reading that a real clock can show.
    pub open spec fn is_wall_clock(self) -> bool {
        self.hour < 24 && self.minute < 60
    }

    /// Minutes since midnight.
    pub open spec fn minute_of_day(self) -> nat {
        self.hour * 60 + self.minute
    }

    /// Lexicographic order by (hour, minute).
    pub open spec fn precedes(self, other: ClockTime) -> bool {
        self.hour < other.hour || (self.hour == other.hour && self.minute < other.minute)
    }
}

/// An hour and a minute of the day.
#[derive(Clone, Copy, Debug, PartialEq, Eq, Structural)]
pub struct TimeSpec {
    hour: u32,
    minute: u32,
}

impl View for TimeSpec {
    type V = ClockTime;

    closed spec fn view(&self) -> ClockTime {
        ClockTime { hour: self.hour as nat, minute: self.minute as nat }
    }
}

impl TimeSpec {
    /// Makes the time `hour:minute`. No range is imposed on either part.
    pub fn new(hour: u32, minute: u32) -> (t: TimeSpec)
        ensures
            t@.hour == hour,
            t@.minute == minute,
    {
        TimeSpec { hour, minute }
    }

    /// Reads a time written as `hh:mm`.
    pub fn parse(s: &str) -> (parsed: Result<TimeSpec, ParseError>)
        ensures
            match parse_clock(s.spec_bytes()) {
                Some(clock) => parsed matches Ok(t) && t@ == clock,
                None => parsed == Err::<TimeSpec, ParseError>(ParseError::InvalidDateFormat),
            },
    {
        let tokens = number_fields(s.as_bytes());
        match collect_pair(tokens) {
            Some((Some(hour), Some(minute))) => Ok(TimeSpec { hour, minute }),
            _ => Err(ParseError::InvalidDateFormat),
        }
    }

    pub fn hour(&self) -> (h: u32)
        ensures
            h == self@.hour,
    {
        self.hour
    }

    pub fn minute(&self) -> (m: u32)
        ensures
            m == self@.minute,
    {
        self.minute
    }
}

impl TryFrom<String> for TimeSpec {
    type Error = ();

    /// Reads a time written as `hh:mm`.
    fn try_from(data: String) -> (parsed: Result<TimeSpec, ()>)
        ensures
            match parse_clock(vstd::utf8::encode_utf8(data@)) {
                Some(clock) => parsed matches Ok(t) && t@ == clock,
                None => parsed is Err,
            },
    {
        match TimeSpec::parse(data.as_str()) {
            Ok(t) => Ok(t),
            Err(_) => Err(()),
        }
    }
}

impl TryFromSpecImpl<String> for TimeSpec {
    open spec fn obeys_try_from_spec() -> bool {
        true
    }

    closed spec fn try_from_spec(data: String) -> Result<TimeSpec, ()> {
        match parse_clock(vstd::utf8::encode_utf8(data@)) {
            Some(clock) => Ok(TimeSpec { hour: clock.hour as u32, minute: clock.minute as u32 }),
            None => Err(()),
        }
    }
}

/// Two times with the same reading are the same time.
pub proof fn lemma_view_determines_time(a: TimeSpec, b: TimeSpec)
    requires
        a@ == b@,
    ensures
        a == b,
{
}

} // verus!
