//! Time-of-day windows, including windows that cross midnight.

use vstd::prelude::*;
use crate::clock::{ClockTime, TimeSpec};

verus! {

/// The mathematical content of a window: where it starts and where it stops.
pub struct Window {
    pub start: ClockTime,
    pub stop: ClockTime,
}

impl Window {
    /// The window starts and stops in different hours, start first.
    pub open spec fn is_same_day(self) -> bool {
        self.start.hour < self.stop.hour
    }

    /// The window crosses midnight.
    pub open spec fn is_wraparound(self) -> bool {
        self.start.hour > self.stop.hour
    }

    /// The window lies within one hour.
    pub open spec fn is_single_hour(self) -> bool {
        self.start.hour == self.stop.hour
    }

    /// A single-hour window whose start minute is not before its stop minute.
    pub open spec fn is_degenerate(self) -> bool {
        self.is_single_hour() && self.start.minute >= self.stop.minute
    }

    /// `t` lies in the stretch from `from` (inclusive) to `to` (exclusive),
    /// where `from` is in an earlier hour than `to`.
    pub open spec fn between_hours(from: ClockTime, to: ClockTime, t: ClockTime) -> bool {
        ||| (from.hour < t.hour && t.hour < to.hour)
        ||| (t.hour == from.hour && t.minute >= from.minute)
        ||| (t.hour == to.hour && t.minute < to.minute)
    }

    /// Whether the window covers `t`: the start is inside, the stop is not.
    pub open spec fn covers(self, t: ClockTime) -> bool {
        if self.is_same_day() {
            Self::between_hours(self.start, self.stop, t)
        } else if self.is_wraparound() {
            !Self::between_hours(self.stop, self.start, t)
        } else {
            t.hour == self.start.hour && self.start.minute <= t.minute < self.stop.minute
        }
    }
}

impl Window {
    /// The window with start and stop exchanged.
    pub open spec fn reversed(self) -> Window {
        Window { start: self.stop, stop: self.start }
    }

    /// Every minute shown in the window is below sixty.
    pub open spec fn has_clock_minutes(self) -> bool {
        self.start.minute < 60 && self.stop.minute < 60
    }
}

/// A single-hour window whose start minute is not before its stop minute
/// covers no time at all.
pub proof fn lemma_degenerate_window_is_empty(w: Window, t: ClockTime)
    requires
        w.is_degenerate(),
    ensures
        !w.covers(t),
{
}

/// The lower bound is inclusive: every window but a degenerate one covers
/// its own start, and a degenerate one does not.
pub proof fn lemma_start_is_inside(w: Window)
    ensures
        w.covers(w.start) <==> !w.is_degenerate(),
{
}

/// The upper bound is exclusive: no window covers its own stop.
pub proof fn lemma_stop_is_outside(w: Window)
    ensures
        !w.covers(w.stop),
{
}

/// A window that starts and stops in different hours and its reverse split
/// the day between them: each time is covered by exactly one of the two.
pub proof fn lemma_reverse_is_complement(w: Window, t: ClockTime)
    requires
        !w.is_single_hour(),
    ensures
        w.covers(t) <==> !w.reversed().covers(t),
{
}

/// On clock readings with minutes below sixty, a window that does not cross
/// midnight is the half-open interval of minutes of the day from its start
/// to its stop.
pub proof fn lemma_same_day_is_interval(w: Window, t: ClockTime)
    requires
        !w.is_wraparound(),
        w.has_clock_minutes(),
        t.minute < 60,
    ensures
        w.covers(t) <==> w.start.minute_of_day() <= t.minute_of_day() < w.stop.minute_of_day(),
{
}

/// On clock readings with minutes below sixty, a window that crosses
/// midnight covers the minutes of the day from its start onwards and those
/// before its stop.
pub proof fn lemma_wraparound_is_two_intervals(w: Window, t: ClockTime)
    requires
        w.is_wraparound(),
        w.has_clock_minutes(),
        t.minute < 60,
    ensures
        w.covers(t) <==> (t.minute_of_day() >= w.start.minute_of_day() || t.minute_of_day()
            < w.stop.minute_of_day()),
{
}

/// A window of the day, from `start` up to but not including `stop`.
#[derive(Clone, Copy, Debug, PartialEq, Eq, Structural)]
pub struct TimeSpan {
    start: TimeSpec,
    stop: TimeSpec,
}

impl View for TimeSpan {
    type V = Window;

    closed spec fn view(&self) -> Window {
        Window { start: self.start@, stop: self.stop@ }
    }
}

impl TimeSpan {
    pub fn new(start: TimeSpec, stop: TimeSpec) -> (span: TimeSpan)
        ensures
            span@.start == start@,
            span@.stop == stop@,
    {
        TimeSpan { start, stop }
    }

    /// Where the window starts.
    pub fn start(&self) -> (start: TimeSpec)
        ensures
            start@ == self@.start,
    {
        self.start
    }

    /// Where the window stops.
    pub fn stop(&self) -> (stop: TimeSpec)
        ensures
            stop@ == self@.stop,
    {
        self.stop
    }

    /// Whether the window covers `timespec`.
    pub fn contains(&self, timespec: &TimeSpec) -> (inside: bool)
        ensures
            inside == self@.covers(timespec@),
    {
        let start_hour = self.start.hour();
        let start_minute = self.start.minute();
        let stop_hour = self.stop.hour();
        let stop_minute = self.stop.minute();
        let hour = timespec.hour();
        let minute = timespec.minute();
        if start_hour < stop_hour {
            (hour > start_hour && hour < stop_hour)
                || (hour == start_hour && minute >= start_minute)
                || (hour == stop_hour && minute < stop_minute)
        } else if start_hour > stop_hour {
            !((hour > stop_hour && hour < start_hour)
                || (hour == stop_hour && minute >= stop_minute)
                || (hour == start_hour && minute < start_minute))
        } else {
            hour == start_hour && minute >= start_minute && minute < stop_minute
        }
    }
}

} // verus!
