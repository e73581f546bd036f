//! The wyhash-style pseudo-random generator that drives path-tracing bounce
//! sampling. It is a pure function of the 64-bit state it is handed, so two
//! tasks seeded alike draw the same sequence.

use vstd::prelude::*;

verus! {

/// The increment added to the generator state before each draw.
pub const RAND_STATE_INC: u64 = 0x60bee2bee120fc15;

/// The two multipliers of the wyhash mixing rounds.
pub const RAND_MUL_A: u64 = 0xa3b195354a39b70d;
pub const RAND_MUL_B: u64 = 0x1b03738712fad5c9;

/// The high 64 bits of a 128-bit product folded onto the low 64 by xor.
pub open spec fn spec_u128_fold(v: u128) -> u64 {
    (((v >> 64) ^ (v & 0xffff_ffff_ffff_ffffu128)) as u64)
}

/// The state that one draw leaves behind.
pub open spec fn spec_rand_next_state(s: u64) -> u64 {
    s.wrapping_add(RAND_STATE_INC)
}

/// The value that one draw from state `s` returns: two multiply-fold rounds
/// over the advanced state.
pub open spec fn spec_fast_rand(s: u64) -> u64 {
    let s1 = spec_rand_next_state(s);
    let t1 = ((s1 as u128) * (RAND_MUL_A as u128)) as u128;
    let t2 = ((spec_u128_fold(t1) as u128) * (RAND_MUL_B as u128)) as u128;
    spec_u128_fold(t2)
}

/// Fold a 128-bit value to 64 bits by xor-ing its two halves.
pub fn u128_fold(v: u128) -> (r: u64)
    ensures
        r == spec_u128_fold(v),
{
    let hi: u128 = v >> 64;
    let lo: u128 = v & 0xffff_ffff_ffff_ffff;
    proof {
        assert((hi ^ lo) <= 0xffff_ffff_ffff_ffffu128 && ((hi ^ lo) as u64) == (((v >> 64) ^ (v
            & 0xffff_ffff_ffff_ffffu128)) as u64)) by (bit_vector)
            requires
                hi == v >> 64,
                lo == v & 0xffff_ffff_ffff_ffff,
        ;
    }
    (hi ^ lo) as u64
}

/// Advance the generator state and return the next pseudo-random value.
pub fn fast_rand(rnd_state: &mut u64) -> (r: u64)
    ensures
        *final(rnd_state) == spec_rand_next_state(*old(rnd_state)),
        r == spec_fast_rand(*old(rnd_state)),
{
    *rnd_state = rnd_state.wrapping_add(RAND_STATE_INC);
    let tmp: u128 = (*rnd_state as u128) * (RAND_MUL_A as u128);
    let folded: u64 = u128_fold(tmp);
    let tmp2: u128 = (folded as u128) * (RAND_MUL_B as u128);
    u128_fold(tmp2)
}

} // verus!
