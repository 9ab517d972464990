//! Pseudo-random generator backing the engine's [`RandomSource`] seam: a
//! 16-bit xorshift linear-feedback shift register.  The production adapter
//! seeds it from an analog read; tests seed it with a fixed value, which makes
//! every draw, and so every simulation run, reproducible.

use crate::RandomSource;
use vstd::prelude::*;

verus! {

/// One xorshift step of the 16-bit register.
pub open spec fn lfsr_step(x: u16) -> u16 {
    let a = x ^ (x >> 7);
    let b = a ^ (a << 9);
    b ^ (b >> 13)
}

pub struct PseudoRandomGenerator {
    lfsr: u16,
}

impl PseudoRandomGenerator {
    /// Current register contents.
    pub closed spec fn spec_state(self) -> u16 {
        self.lfsr
    }

    pub fn new(seed: u16) -> (g: Self)
        ensures
            g.spec_state() == seed,
    {
        Self { lfsr: seed }
    }

    /// Advances the register by one xorshift step and returns it.
    pub fn get(&mut self) -> (r: u16)
        ensures
            r == lfsr_step(old(self).spec_state()),
            final(self).spec_state() == r,
    {
        let lfsr = &mut self.lfsr;
        *lfsr ^= *lfsr >> 7;
        *lfsr ^= *lfsr << 9;
        *lfsr ^= *lfsr >> 13;
        *lfsr
    }
}

impl RandomSource for PseudoRandomGenerator {
    fn next(&mut self) -> i32 {
        let r = self.get();
        r as i32
    }
}

} // verus!
