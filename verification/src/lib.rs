//! Oxygine: the mathematics, timing and window settings of a small game engine.
//!
//! Vectors and matrices are generic over their element type, and every
//! contract is stated over the operator specifications that `vstd` attaches
//! to `core::ops`.  For an element type whose operators are exact, such as
//! `i64`, a contract pins the result and asks that no step of the
//! computation overflows or divides by zero.  For one whose operators are
//! total, as those of floating-point numbers are, it asks nothing of the
//! operands and states what does not depend on rounding.

pub mod graphics;
pub mod math;
pub mod time;

use crate::time::Time;
use vstd::prelude::*;

verus! {

/// The engine: at present, its clock.
pub struct Engine {
    time: Time,
}

impl Engine {
    /// The clock of the engine.
    pub closed spec fn clock(&self) -> Time {
        self.time
    }

    /// Makes an engine whose clock starts now.
    pub fn new() -> (r: Self)
        ensures
            r.clock().step() == 0,
    {
        Engine { time: Time::new() }
    }

    /// Advances the clock of the engine; to be called once for each turn of
    /// the main loop.
    pub fn update(&mut self)
        ensures
            final(self).clock().previous() == old(self).clock().since_start(),
            final(self).clock().step() == crate::time::gap(
                old(self).clock().since_start(),
                final(self).clock().since_start(),
            ),
    {
        self.time.update();
    }

    /// Borrows the clock of the engine.
    pub fn time(&self) -> (r: &Time)
        ensures
            *r == self.clock(),
    {
        &self.time
    }
}

} // verus!
