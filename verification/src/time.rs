//! Plain-value time: spans and readings of a monotonic clock, both counted in
//! whole nanoseconds. The cache never reads a clock itself; every operation
//! that depends on the time takes the current reading as an argument.

use vstd::prelude::*;

verus! {

/// Nanoseconds in one millisecond.
pub const NANOS_PER_MILLI: u128 = 1_000_000;

/// Nanoseconds in one second.
pub const NANOS_PER_SEC: u128 = 1_000_000_000;

/// A span of time.
#[derive(Clone, Copy, Debug, PartialEq, Eq, Structural)]
pub struct Duration {
    /// The length of the span in nanoseconds.
    pub nanos: u128,
}

impl Duration {
    /// The length of the span in nanoseconds.
    pub open spec fn nanos(self) -> nat {
        self.nanos as nat
    }

    /// The length of the span in whole milliseconds.
    pub open spec fn millis(self) -> nat {
        self.nanos() / 1_000_000
    }

    /// A span of `secs` seconds.
    pub fn from_secs(secs: u64) -> (d: Duration)
        ensures
            d.nanos() == secs as nat * 1_000_000_000,
    {
        let wide: u128 = secs as u128;
        assert(wide * 1_000_000_000 <= u128::MAX) by (nonlinear_arith)
            requires
                wide <= u64::MAX,
        ;
        Duration { nanos: wide * NANOS_PER_SEC }
    }

    /// A span of `millis` milliseconds.
    pub fn from_millis(millis: u64) -> (d: Duration)
        ensures
            d.nanos() == millis as nat * 1_000_000,
            d.millis() == millis as nat,
    {
        let wide: u128 = millis as u128;
        assert(wide * 1_000_000 <= u128::MAX) by (nonlinear_arith)
            requires
                wide <= u64::MAX,
        ;
        assert((wide * 1_000_000) / 1_000_000 == wide) by (nonlinear_arith);
        Duration { nanos: wide * NANOS_PER_MILLI }
    }

    /// A span of `nanos` nanoseconds.
    pub fn from_nanos(nanos: u128) -> (d: Duration)
        ensures
            d.nanos() == nanos as nat,
    {
        Duration { nanos }
    }

    /// The length of the span in nanoseconds.
    pub fn as_nanos(&self) -> (n: u128)
        ensures
            n as nat == self.nanos(),
    {
        self.nanos
    }

    /// The length of the span in whole milliseconds, rounded down.
    pub fn as_millis(&self) -> (n: u128)
        ensures
            n as nat == self.millis(),
    {
        self.nanos / NANOS_PER_MILLI
    }

}

/// A reading of a monotonic clock, as nanoseconds since an origin that the
/// embedder fixes once.
#[derive(Clone, Copy, Debug, PartialEq, Eq, Structural)]
pub struct Instant {
    /// The reading in nanoseconds since the clock's origin.
    pub nanos: u128,
}

/// The time that passed between the reading `earlier` and the reading
/// `later`, both in nanoseconds; zero when `later` is not after `earlier`.
pub open spec fn elapsed_nanos(earlier: nat, later: nat) -> nat {
    if later >= earlier {
        (later - earlier) as nat
    } else {
        0
    }
}

impl Instant {
    /// The reading in nanoseconds since the clock's origin.
    pub open spec fn nanos(self) -> nat {
        self.nanos as nat
    }

    /// The reading `nanos` nanoseconds after the clock's origin.
    pub fn from_nanos(nanos: u128) -> (t: Instant)
        ensures
            t.nanos() == nanos as nat,
    {
        Instant { nanos }
    }

    /// The reading in nanoseconds since the clock's origin.
    pub fn as_nanos(&self) -> (n: u128)
        ensures
            n as nat == self.nanos(),
    {
        self.nanos
    }

    /// The time from `earlier` to `self`, or zero if `earlier` is the later
    /// of the two.
    pub fn saturating_duration_since(&self, earlier: Instant) -> (d: Duration)
        ensures
            d.nanos() == elapsed_nanos(earlier.nanos(), self.nanos()),
    {
        if self.nanos >= earlier.nanos {
            Duration::from_nanos(self.nanos - earlier.nanos)
        } else {
            Duration::from_nanos(0)
        }
    }

    /// The time that has passed since `self` when the clock reads `now`.
    pub fn elapsed(&self, now: Instant) -> (d: Duration)
        ensures
            d.nanos() == elapsed_nanos(self.nanos(), now.nanos()),
    {
        now.saturating_duration_since(*self)
    }

}

} // verus!
