//! Points in time, counted in nanoseconds from the moment a clock was started.

use std::time::{Duration, Instant};
use vstd::prelude::*;

verus! {

/// Nanoseconds in a second.
pub const NANOS_PER_SEC: u128 = 1_000_000_000;

/// The most nanoseconds that a `std::time::Duration` holds.
pub const MAX_ELAPSED: u128 = 18_446_744_073_709_551_615_999_999_999;

/// `std::time::Instant`, a reading of the monotonic clock of the operating system.
#[verifier::external_type_specification]
#[verifier::external_body]
pub struct ExInstant(Instant);

/// `std::time::Instant::now`. What it reads rests on the moment of the call, so nothing is
/// claimed of it.
pub assume_specification[ Instant::now ]() -> (now: Instant)
;

/// `std::time::Instant::elapsed`, the time since the instant was read. What it returns rests on
/// the moment of the call, so nothing is claimed of it.
pub assume_specification[ Instant::elapsed ](since: &Instant) -> (elapsed: Duration)
;

/// `std::time::Duration::as_nanos`, the length of a duration in nanoseconds. The claim is that a
/// duration holds at most `u64::MAX` seconds and 999,999,999 nanoseconds.
pub assume_specification[ Duration::as_nanos ](length: &Duration) -> (nanos: u128)
    ensures
        nanos <= MAX_ELAPSED,
;

/// A clock that counts from the moment it was started.
pub struct Clock {
    started: Instant,
}

/// Whether `nanos` can be the nanoseconds from `started` to a later reading: what
/// `Duration::as_nanos` makes of a time that `Instant::elapsed` gives for `started`.
pub open spec fn can_elapse(started: Instant, nanos: u128) -> bool {
    exists|elapsed: Duration|
        call_ensures(Instant::elapsed, (&started,), elapsed) && #[trigger] call_ensures(
            Duration::as_nanos,
            (&elapsed,),
            nanos,
        )
}

/// Whether a clock that was started at `started` can read `nanos`.
pub open spec fn can_read(started: Instant, nanos: u128) -> bool {
    can_elapse(started, nanos) && nanos <= MAX_ELAPSED
}

impl Clock {
    /// The reading at which the clock was started.
    pub closed spec fn started(&self) -> Instant {
        self.started
    }

    /// Starts a clock at a reading of `Instant::now`.
    pub fn start() -> (clock: Self)
        ensures
            call_ensures(Instant::now, (), clock.started()),
    {
        Clock { started: Instant::now() }
    }

    /// Nanoseconds since the clock was started.
    pub fn now(&self) -> (nanos: u128)
        ensures
            can_read(self.started(), nanos),
    {
        self.started.elapsed().as_nanos()
    }
}

} // verus!
