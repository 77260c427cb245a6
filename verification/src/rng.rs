//! The small xorshift generator that drives the scene's random events.
use vstd::prelude::*;

verus! {

/// One xorshift64 step (shifts 13, 7, 17).
pub open spec fn xorshift(s: u64) -> u64 {
    let a = s ^ (s << 13u64);
    let b = a ^ (a >> 7u64);
    b ^ (b << 17u64)
}

/// The constant a seed is mixed with.
pub open spec fn seed_mix() -> u64 {
    0x9e3779b97f4a7c15
}

/// Minimal xorshift random number generator.
pub struct SimpleRng(u64);

impl View for SimpleRng {
    type V = u64;

    /// The generator's state.
    closed spec fn view(&self) -> u64 {
        self.0
    }
}

impl SimpleRng {
    /// A generator whose state is the seed mixed with a fixed constant.
    pub fn new(seed: u64) -> (r: Self)
        ensures
            r@ == seed ^ seed_mix(),
    {
        SimpleRng(seed ^ 0x9e3779b97f4a7c15)
    }

    /// Advance the state by one xorshift step and return the new state.
    pub fn next(&mut self) -> (v: u64)
        ensures
            final(self)@ == xorshift(old(self)@),
            v == final(self)@,
    {
        self.0 ^= self.0 << 13;
        self.0 ^= self.0 >> 7;
        self.0 ^= self.0 << 17;
        self.0
    }
}

/// A generator never falls into the all-zero state unless it starts there:
/// each xorshift step maps a nonzero state to a nonzero state.
pub proof fn lemma_xorshift_keeps_nonzero(s: u64)
    requires
        s != 0,
    ensures
        xorshift(s) != 0,
{
    let a = s ^ (s << 13u64);
    let b = a ^ (a >> 7u64);
    assert(s != 0 ==> s ^ (s << 13u64) != 0) by (bit_vector);
    assert(a != 0 ==> a ^ (a >> 7u64) != 0) by (bit_vector);
    assert(b != 0 ==> b ^ (b << 17u64) != 0) by (bit_vector);
}

/// Only the one seed equal to the mixing constant starts the generator in
/// the all-zero state.
pub proof fn lemma_seed_zero_state(seed: u64)
    ensures
        (seed ^ seed_mix() == 0) <==> seed == seed_mix(),
{
    assert((seed ^ 0x9e3779b97f4a7c15u64 == 0) <==> seed == 0x9e3779b97f4a7c15u64) by (bit_vector);
}

} // verus!

verus! {

/// The colour family of a right-click pulse ring.
#[derive(Debug, Clone, Copy, PartialEq, Eq, Structural)]
pub enum PulseHue {
    Blue,
    Violet,
    Gold,
}

impl SimpleRng {
    /// Draw a pulse colour: the next number modulo 3 picks blue, violet or
    /// gold.
    pub fn pulse_hue(&mut self) -> (h: PulseHue)
        ensures
            final(self)@ == xorshift(old(self)@),
            h == (if final(self)@ % 3 == 0 {
                PulseHue::Blue
            } else if final(self)@ % 3 == 1 {
                PulseHue::Violet
            } else {
                PulseHue::Gold
            }),
    {
        let r = self.next() % 3;
        if r == 0 {
            PulseHue::Blue
        } else if r == 1 {
            PulseHue::Violet
        } else {
            PulseHue::Gold
        }
    }
}

} // verus!
