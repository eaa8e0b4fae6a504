//! A clock that moves only when told to.

use vstd::prelude::*;

use crate::time::{first_instant, last_instant, Clock, Timestamp};

verus! {

/// A clock that moves only when told to.
#[derive(Debug)]
pub struct FakeClock {
    current: Timestamp,
}

impl FakeClock {
    /// What the clock reads.
    pub closed spec fn reading(self) -> Timestamp {
        self.current
    }

    /// The reading is a point in time.
    #[verifier::type_invariant]
    closed spec fn valid(self) -> bool {
        self.current.valid()
    }

    /// A clock that reads `start`.
    pub fn at(start: Timestamp) -> (r: FakeClock)
        requires
            start.valid(),
        ensures
            r.reading() == start,
    {
        FakeClock { current: start }
    }

    /// Moves the clock by `delta` nanoseconds.
    pub fn advance(&mut self, delta: i128)
        requires
            first_instant() <= old(self).reading().instant() + delta <= last_instant(),
        ensures
            final(self).reading().instant() == old(self).reading().instant() + delta,
    {
        proof {
            use_type_invariant(&*self);
        }
        self.current = self.current.plus_nanos(delta);
    }
}

impl Clock for FakeClock {
    fn now(&self) -> (r: Timestamp)
        ensures
            r == self.reading(),
    {
        proof {
            use_type_invariant(self);
        }
        self.current
    }
}

}
