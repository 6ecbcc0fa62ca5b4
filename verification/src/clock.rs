//! The system clock.

use vstd::prelude::*;

verus! {

/// A reading of the system clock, in whole seconds since the Unix epoch.
/// Its field is private and only [`current_timestamp`] makes one, so a
/// reading that the library holds is a time the clock gave.
pub struct ClockReading {
    seconds: i64,
}

impl ClockReading {
    /// The seconds since the Unix epoch that the clock gave.
    pub closed spec fn value(&self) -> i64 {
        self.seconds
    }

    /// The reading as an unsigned issue time, as a JWT's `iat` claim holds
    /// it (the seconds cast to `u64`).
    pub open spec fn issue_time(&self) -> u64 {
        self.value() as u64
    }

    /// The seconds since the Unix epoch that the clock gave.
    pub fn seconds(&self) -> (s: i64)
        ensures
            s == self.value(),
    {
        self.seconds
    }
}

/// The current time in seconds since the Unix epoch, from
/// `chrono::Utc::now().timestamp()`. Trusted; nothing is claimed of the
/// value, which depends on the clock.
#[verifier::external_body]
pub(crate) fn current_timestamp() -> ClockReading {
    ClockReading { seconds: chrono::Utc::now().timestamp() }
}

} // verus!
