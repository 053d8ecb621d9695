//! The order of times within a day.

use vstd::prelude::*;
use vstd::std_specs::cmp::PartialOrdSpecImpl;
use core::cmp::Ordering;
use crate::clock::TimeSpec;

verus! {

impl PartialOrd for TimeSpec {
    /// Orders two times by hour, then by minute.
    fn partial_cmp(&self, other: &TimeSpec) -> (order: Option<Ordering>) {
        let hour = self.hour();
        let other_hour = other.hour();
        let minute = self.minute();
        let other_minute = other.minute();
        if hour < other_hour || (hour == other_hour && minute < other_minute) {
            Some(Ordering::Less)
        } else if hour == other_hour && minute == other_minute {
            Some(Ordering::Equal)
        } else {
            Some(Ordering::Greater)
        }
    }
}

impl PartialOrdSpecImpl for TimeSpec {
    open spec fn obeys_partial_cmp_spec() -> bool {
        true
    }

    open spec fn partial_cmp_spec(&self, other: &TimeSpec) -> Option<Ordering> {
        if self@.precedes(other@) {
            Some(Ordering::Less)
        } else if self@ == other@ {
            Some(Ordering::Equal)
        } else {
            Some(Ordering::Greater)
        }
    }
}

/// Exactly one of three holds of two clock readings: the first precedes
/// the second, they are the same, or the second precedes the first.
pub proof fn lemma_order_is_total(a: TimeSpec, b: TimeSpec)
    ensures
        a@.precedes(b@) || a@ == b@ || b@.precedes(a@),
        !(a@.precedes(b@) && b@.precedes(a@)),
        !a@.precedes(a@),
{
}

/// The order of clock readings carries over from one pair to the next.
pub proof fn lemma_order_is_transitive(a: TimeSpec, b: TimeSpec, c: TimeSpec)
    requires
        a@.precedes(b@),
        b@.precedes(c@),
    ensures
        a@.precedes(c@),
{
}

} // verus!
