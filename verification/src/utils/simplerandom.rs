//! A small linear congruential random number generator.

use vstd::prelude::*;

verus! {

/// The state that follows `s`: `s * 1664525 + 1013904223`, wrapping.
pub open spec fn lcg_next(s: u32) -> u32 {
    s.wrapping_mul(1664525u32).wrapping_add(1013904223u32)
}

/// The seed made from a time in nanoseconds, a process id and an address:
/// `c = nanos ^ (pid << 17) ^ (addr << 31)`, then the two halves of `c`
/// xor-ed together.
pub open spec fn mixed_seed(nanos: u64, pid: u64, addr: u64) -> u32 {
    let c = nanos ^ (pid << 17u64) ^ (addr << 31u64);
    (c ^ (c >> 32u64)) as u32
}

/// The generator; its state is never zero when made by `new`.
pub struct SimpleRng {
    pub state: u32,
}

impl SimpleRng {
    /// A generator seeded with `seed`; a zero seed is replaced by `0x12345678`.
    pub fn new(seed: u32) -> (r: Self)
        ensures
            r.state == if seed == 0 {
                0x12345678u32
            } else {
                seed
            },
    {
        Self { state: if seed == 0 { 0x12345678 } else { seed } }
    }

    /// A generator seeded from a clock reading in nanoseconds, the process
    /// id and an address, as the caller found them.
    pub fn new_monotonic(nanos: u64, pid: u64, addr: u64) -> (r: Self)
        ensures
            r == SimpleRng::new_spec(mixed_seed(nanos, pid, addr)),
    {
        let c: u64 = nanos ^ (pid << 17u64) ^ (addr << 31u64);
        let seed = (c ^ (c >> 32u64)) as u32;
        Self::new(seed)
    }

    /// The generator that `new` makes from `seed`.
    pub open spec fn new_spec(seed: u32) -> SimpleRng {
        SimpleRng {
            state: if seed == 0 {
                0x12345678u32
            } else {
                seed
            },
        }
    }

    /// Advances the state and returns it.
    pub fn next_u32(&mut self) -> (r: u32)
        ensures
            r == lcg_next(old(self).state),
            final(self).state == r,
    {
        self.state = self.state.wrapping_mul(1664525).wrapping_add(1013904223);
        self.state
    }
}

} // verus!
