//! A fixed interval, kept up across frames of any length.

use vstd::arithmetic::div_mod::lemma_fundamental_div_mod;
use vstd::prelude::*;

verus! {

/// Turns the time that frames take into runs of a fixed interval.
///
/// Time is counted in microseconds. What a frame leaves over is carried
/// into the next, so the runs do not drift against the clock.
#[derive(Clone, Copy, Debug, PartialEq, Eq)]
pub struct FixedTimestep {
    step: u64,
    accumulator: u64,
}

impl FixedTimestep {
    #[verifier::type_invariant]
    spec fn carries_less_than_a_step(self) -> bool {
        self.accumulator < self.step
    }

    /// The length of the interval.
    pub closed spec fn spec_step(&self) -> u64 {
        self.step
    }

    /// The time carried over: what has passed since the last run was due.
    pub closed spec fn spec_accumulator(&self) -> u64 {
        self.accumulator
    }

    /// An interval of `step` microseconds with nothing carried over; `None`
    /// if `step` is zero.
    pub fn new(step: u64) -> (timestep: Option<FixedTimestep>)
        ensures
            timestep is Some <==> step > 0,
            timestep matches Some(t) ==> t.step() == step && t.accumulator() == 0,
    {
        if step == 0 {
            None
        } else {
            Some(FixedTimestep { step, accumulator: 0 })
        }
    }

    /// The length of the interval; never zero.
    #[verifier::when_used_as_spec(spec_step)]
    pub fn step(&self) -> (step: u64)
        ensures
            step == self.spec_step(),
            step > 0,
    {
        proof {
            use_type_invariant(self);
        }
        self.step
    }

    /// The time carried over; always less than the interval.
    #[verifier::when_used_as_spec(spec_accumulator)]
    pub fn accumulator(&self) -> (accumulator: u64)
        ensures
            accumulator == self.spec_accumulator(),
            accumulator < self.spec_step(),
    {
        proof {
            use_type_invariant(self);
        }
        self.accumulator
    }

    /// Adds the time that a frame took and returns how many runs are due:
    /// one for each whole interval in the time carried over plus `elapsed`.
    /// The rest is carried over.
    pub fn update(&mut self, elapsed: u64) -> (runs: u64)
        ensures
            final(self).step() == old(self).step(),
            runs == (old(self).accumulator() + elapsed) / (old(self).step() as int),
            final(self).accumulator() == (old(self).accumulator() + elapsed) % (old(self).step() as int),
    {
        proof {
            use_type_invariant(&*self);
        }
        let step: u128 = self.step as u128;
        let total: u128 = self.accumulator as u128 + elapsed as u128;
        let runs: u128 = total / step;
        let rest: u128 = total % step;
        proof {
            lemma_fundamental_div_mod(total as int, step as int);
            assert(runs <= u64::MAX) by (nonlinear_arith)
                requires
                    step * runs + rest == total,
                    total + 2 <= step + 0x1_0000_0000_0000_0000,
                    step >= 1,
                    rest >= 0,
                    runs >= 0,
            ;
        }
        self.accumulator = rest as u64;
        runs as u64
    }
}

} // verus!
