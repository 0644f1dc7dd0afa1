use vstd::prelude::*;

verus! {

/// Multiplier of the linear congruential step.
pub const RNG_MUL: u64 = 1_664_525;

/// Increment of the linear congruential step.
pub const RNG_INC: u64 = 1_013_904_223;

/// One step of the linear congruential generator behind probability gating.
/// The module has no entropy source, so each channel runs this deterministic
/// stream from a fixed seed.
pub open spec fn spec_rng_next(s: u32) -> u32 {
    (((s * RNG_MUL) + RNG_INC) % 0x1_0000_0000) as u32
}

/// The percentage drawn from an generator state, compared against a
/// channel's firing probability.
pub open spec fn spec_rng_draw(s: u32) -> int {
    (s as int / 0x1_0000) % 100
}

/// Advances a generator state by one step.
pub fn rng_next(s: u32) -> (r: u32)
    ensures
        r == spec_rng_next(s),
{
    let wide: u64 = (s as u64) * RNG_MUL + RNG_INC;
    (wide % 0x1_0000_0000) as u32
}

/// The draw of a state, between 0 and 99.
pub fn rng_draw(s: u32) -> (r: u32)
    ensures
        r == spec_rng_draw(s),
        r < 100,
{
    (s / 0x1_0000) % 100
}

} // verus!
