//! The step count that the sensor task keeps and the display task shows.

use vstd::prelude::*;

verus! {

/// Counts steps from a stream of readings.
///
/// A step is a jump between one reading and the next. The first reading has
/// nothing before it to jump from: it only primes the counter. Whether two
/// readings are far enough apart is for the caller to say.
#[derive(Debug)]
pub struct StepCounter {
    steps: u32,
    primed: bool,
}

impl StepCounter {
    /// Number of steps counted so far.
    pub closed spec fn spec_steps(&self) -> u32 {
        self.steps
    }

    /// Whether a reading has been seen yet.
    pub closed spec fn spec_primed(&self) -> bool {
        self.primed
    }

    /// A counter at zero that has seen no reading.
    pub fn new() -> (counter: StepCounter)
        ensures
            counter.steps() == 0,
            !counter.primed(),
    {
        StepCounter { steps: 0, primed: false }
    }

    /// Number of steps counted so far.
    #[verifier::when_used_as_spec(spec_steps)]
    pub fn steps(&self) -> (n: u32)
        ensures
            n == self.spec_steps(),
    {
        self.steps
    }

    /// Whether a reading has been seen yet.
    #[verifier::when_used_as_spec(spec_primed)]
    pub fn primed(&self) -> (b: bool)
        ensures
            b == self.spec_primed(),
    {
        self.primed
    }

    /// Takes note of a reading. `jumped` says whether it lies further from
    /// the reading before it than the threshold allows; it counts as a step
    /// unless it is the first reading. Returns whether a step was counted.
    ///
    /// A reading that could not be taken is not reported at all: the counter
    /// then stays as it is.
    pub fn record(&mut self, jumped: bool) -> (counted: bool)
        requires
            old(self).steps() < u32::MAX,
        ensures
            counted == (old(self).primed() && jumped),
            final(self).steps() == old(self).steps() + (if counted {
                1int
            } else {
                0int
            }),
            final(self).primed(),
    {
        let counted = self.primed && jumped;
        if counted {
            self.steps = self.steps + 1;
        }
        self.primed = true;
        counted
    }
}

} // verus!
