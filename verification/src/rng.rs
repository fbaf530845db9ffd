//! A deterministic xorshift random stream.
//!
//! Every worker owns one stream, seeded from the base seed and its own
//! pixel and iteration indices, so a rendering is a pure function of the
//! scene and the seed: the state after each draw is pinned exactly.

use vstd::prelude::*;

verus! {

use crate::fixed::Fx;

/// The xorshift step: three shift-and-xor rounds on a 64-bit word.
pub open spec fn next_state_spec(s: u64) -> u64 {
    let a = s ^ (s << 13);
    let b = a ^ (a >> 7);
    b ^ (b << 17)
}

/// The unit-interval sample drawn from a state: sixteen of its middle
/// bits, giving a fixed-point value in `[0, 1)`.
pub open spec fn unit_of(s: u64) -> int {
    ((s >> 24) & 0xffff) as int
}

/// A non-zero word derived from an arbitrary seed; xorshift must never
/// start at zero, where it would stay forever.
pub open spec fn seed_mix_spec(seed: u64) -> u64 {
    if seed == 0 {
        0x9e3779b97f4a7c15u64
    } else {
        seed
    }
}

#[derive(Clone, Copy, Debug, PartialEq, Eq, Structural)]
pub struct Rng {
    pub state: u64,
}

impl Rng {
    pub fn new(seed: u64) -> (r: Rng)
        ensures
            r.state == seed_mix_spec(seed),
            r.state != 0,
    {
        if seed == 0 {
            Rng { state: 0x9e3779b97f4a7c15u64 }
        } else {
            Rng { state: seed }
        }
    }

    fn step(&mut self)
        ensures
            final(self).state == next_state_spec(old(self).state),
    {
        let mut s: u64 = self.state;
        s = s ^ (s << 13);
        s = s ^ (s >> 7);
        s = s ^ (s << 17);
        self.state = s;
    }

    /// Draw a fixed-point value in `[0, 1)`.
    pub fn next_unit(&mut self) -> (r: Fx)
        ensures
            final(self).state == next_state_spec(old(self).state),
            r@ == unit_of(final(self).state),
            0 <= r@ < crate::fixed::SCALE as int,
            r.wf(),
    {
        self.step();
        let s: u64 = self.state;
        let bits: u64 = (s >> 24) & 0xffff;
        proof {
            assert((s >> 24) & 0xffff <= 0xffff) by (bit_vector);
        }
        Fx::from_raw(bits as i64)
    }

    /// Draw an index below `n`, for picking one light among `n`.
    pub fn next_below(&mut self, n: u32) -> (r: u32)
        requires
            n > 0,
        ensures
            final(self).state == next_state_spec(old(self).state),
            r as int == final(self).state as int % n as int,
            r < n,
    {
        self.step();
        (self.state % (n as u64)) as u32
    }
}

} // verus!
