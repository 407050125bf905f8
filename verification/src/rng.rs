//! Deterministic pseudo-random generator used for image-based lighting.
//!
//! One xorshift64 state word per render invocation: the renderer re-seeds it
//! for every pixel of every frame from `(frame_id, row, column)`, so a frame
//! is reproducible given the same seed while noise varies over time.

use vstd::prelude::*;

verus! {

/// One step of the xorshift64 state transition.
pub open spec fn xorshift64_step(x: u64) -> u64 {
    let a = x ^ (x << 13u64);
    let b = a ^ (a >> 7u64);
    b ^ (b << 17u64)
}

/// The state a generator starts from for a given seed: the seed itself,
/// except that a zero seed (which xorshift64 would keep at zero forever)
/// is replaced by a fixed odd constant.
pub open spec fn seeded_state(seed: u64) -> u64 {
    if seed == 0 {
        0x9E37_79B9_7F4A_7C15u64
    } else {
        seed
    }
}

/// The seed the renderer derives for the pixel at `(x, y)` of frame
/// `frame_id`: the frame word shifted into the high half, xored with the
/// row and column.
pub open spec fn pixel_seed(frame_id: u64, x: i32, y: i32) -> u64 {
    (frame_id << 32u64) ^ ((y as u64) << 16u64) ^ (x as u64)
}

/// Small deterministic pseudo-random generator (xorshift64).
pub struct Rng {
    state: u64,
}

impl View for Rng {
    type V = u64;

    closed spec fn view(&self) -> u64 {
        self.state
    }
}

impl Rng {
    /// Start a generator from `seed`, mapping the degenerate zero seed to a
    /// fixed nonzero state.
    pub fn new(seed: u64) -> (r: Self)
        ensures
            r@ == seeded_state(seed),
    {
        let s: u64 = if seed == 0 { 0x9E37_79B9_7F4A_7C15 } else { seed };
        Self { state: s }
    }

    /// Advance the state one xorshift64 step and return its low 32 bits.
    pub fn next_u32(&mut self) -> (r: u32)
        ensures
            final(self)@ == xorshift64_step(old(self)@),
            r == xorshift64_step(old(self)@) as u32,
    {
        let mut x = self.state;
        x ^= x << 13;
        x ^= x >> 7;
        x ^= x << 17;
        self.state = x;
        x as u32
    }
}

/// The seed for the pixel at column `x`, row `y` of frame `frame_id`.
pub fn seed_for_pixel(frame_id: u64, x: i32, y: i32) -> (r: u64)
    ensures
        r == pixel_seed(frame_id, x, y),
{
    (frame_id << 32) ^ ((y as u64) << 16) ^ (x as u64)
}

} // verus!
