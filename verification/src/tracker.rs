//! The interval between two deliveries, as a handler works it out from the
//! cumulative instruction counts it is handed.

use vstd::prelude::*;

verus! {

/// A count that is lower than the one before it. Counts are cumulative, so this
/// means that the instrumentation is broken or that its counter has wrapped
/// around: the caller must stop, not carry on with a made-up interval.
#[derive(Clone, Copy, Debug, PartialEq, Eq, Structural)]
pub struct NegativeInterval {
    /// The count of the delivery before.
    pub previous: i64,
    /// The lower count that followed it.
    pub current: i64,
}

/// Remembers the instruction count of the last delivery.
pub struct IntervalTracker {
    previous: i64,
}

impl View for IntervalTracker {
    type V = int;

    /// The instruction count of the last delivery, 0 before the first.
    closed spec fn view(&self) -> int {
        self.previous as int
    }
}

impl IntervalTracker {
    #[verifier::type_invariant]
    spec fn never_negative(self) -> bool {
        self.previous >= 0
    }

    /// A tracker that has seen no delivery yet.
    pub fn new() -> (tracker: Self)
        ensures
            tracker@ == 0,
    {
        IntervalTracker { previous: 0 }
    }

    /// The instruction count of the last delivery, 0 before the first.
    pub fn previous(&self) -> (count: i64)
        ensures
            count == self@,
            count >= 0,
    {
        proof {
            use_type_invariant(self);
        }
        self.previous
    }

    /// Takes the count of a delivery and returns the interval since the one
    /// before. A count below the previous one is refused, and the tracker
    /// stays as it was.
    pub fn advance(&mut self, current: i64) -> (interval: Result<i64, NegativeInterval>)
        ensures
            current >= old(self)@ ==> interval == Ok::<i64, NegativeInterval>(
                (current - old(self)@) as i64,
            ) && final(self)@ == current,
            current < old(self)@ ==> interval == Err::<i64, NegativeInterval>(
                (NegativeInterval { previous: old(self)@ as i64, current }),
            ) && final(self)@ == old(self)@,
            interval matches Ok(length) ==> 0 <= length == current - old(self)@,
    {
        proof {
            use_type_invariant(&*self);
        }
        if current >= self.previous {
            let length: i64 = current - self.previous;
            self.previous = current;
            Ok(length)
        } else {
            Err(NegativeInterval { previous: self.previous, current })
        }
    }
}

} // verus!
