//! The clock of the engine: the time since it was made and the time between
//! its last two updates.
//!
//! Times are whole nanoseconds since the clock was made.  The clock is read
//! when it is made and at each update, never in between, so what it reports
//! is the time of the last update.

use std::time::Instant;
use vstd::prelude::*;

verus! {

/// `std::time::Instant`, a reading of the system's monotonic clock.  It is
/// carried through and never looked into.
#[verifier::external_type_specification]
#[verifier::external_body]
pub struct ExInstant(std::time::Instant);

/// The clock of the engine.
pub struct Time {
    origin: Instant,
    last: u128,
    now: u128,
    delta: u128,
}

/// The time from `earlier` to `later`, or nothing where `later` is not
/// later.
pub open spec fn gap(earlier: nat, later: nat) -> nat {
    if later >= earlier {
        (later - earlier) as nat
    } else {
        0
    }
}

/// Calls `std::time::Instant::now`, which reads the system's monotonic
/// clock.  What it returns depends on when it is called, so nothing is
/// claimed of it.
#[verifier::external_body]
fn read_clock() -> Instant {
    Instant::now()
}

/// Calls `std::time::Instant::elapsed`, which reads the system's clock
/// again and returns the time since `origin` was read; the result is handed
/// on in whole nanoseconds, as `Duration::as_nanos` gives them.  It depends
/// on when it is called, so nothing is claimed of it.
#[verifier::external_body]
fn nanos_since(origin: &Instant) -> u128 {
    origin.elapsed().as_nanos()
}

impl Time {
    /// The reading of the system's clock that the times are counted from.
    pub closed spec fn origin(&self) -> Instant {
        self.origin
    }

    /// The time of the last update, in nanoseconds since the clock was made.
    pub closed spec fn since_start(&self) -> nat {
        self.now as nat
    }

    /// The time of the update before the last, in nanoseconds since the
    /// clock was made.
    pub closed spec fn previous(&self) -> nat {
        self.last as nat
    }

    /// The time between the last two updates, in nanoseconds.
    pub closed spec fn step(&self) -> nat {
        self.delta as nat
    }

    /// Makes a clock that starts now.  No time has passed between updates
    /// yet.
    pub fn new() -> (r: Self)
        ensures
            r.step() == 0,
    {
        let origin = read_clock();
        let last = nanos_since(&origin);
        let now = nanos_since(&origin);
        Self::from_readings(origin, last, now)
    }

    /// Makes a clock out of readings of the system's clock: `origin`, from
    /// which its times are counted, and two readings taken since, `last`
    /// before `now`, in nanoseconds since `origin`.  They stand for the two
    /// latest updates, and no time has passed between updates yet.
    pub fn from_readings(origin: Instant, last: u128, now: u128) -> (r: Self)
        ensures
            r.origin() == origin,
            r.previous() == last,
            r.since_start() == now,
            r.step() == 0,
    {
        Time { origin, last, now, delta: 0 }
    }

    /// Reads the system's clock and advances to that time.
    pub fn update(&mut self)
        ensures
            final(self).origin() == old(self).origin(),
            final(self).previous() == old(self).since_start(),
            final(self).step() == gap(old(self).since_start(), final(self).since_start()),
    {
        let now = nanos_since(&self.origin);
        self.advance(now);
    }

    /// Advances to the time `now`, in nanoseconds since the clock was made.
    /// The time of the last update becomes the time of the update before,
    /// and the time between the two is what lies between them, or nothing
    /// where `now` is not later.
    pub fn advance(&mut self, now: u128)
        ensures
            final(self).origin() == old(self).origin(),
            final(self).previous() == old(self).since_start(),
            final(self).since_start() == now,
            final(self).step() == gap(old(self).since_start(), now as nat),
    {
        self.last = self.now;
        self.now = now;
        self.delta = if self.now >= self.last {
            self.now - self.last
        } else {
            0
        };
    }

    /// Returns the time of the last update, in nanoseconds since the clock
    /// was made.
    pub fn elapsed(&self) -> (r: u128)
        ensures
            r == self.since_start(),
    {
        self.now
    }

    /// Returns the time between the last two updates, in nanoseconds.
    pub fn delta(&self) -> (r: u128)
        ensures
            r == self.step(),
    {
        self.delta
    }
}

} // verus!
