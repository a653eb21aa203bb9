//! Word-level mixing primitives: the folded 128-bit multiply, rotations,
//! seed derivation and the final avalanche step.

use vstd::prelude::*;

use crate::constants::{
    secret, stripe_secret, SECRET_0, SECRET_1, SECRET_2, SECRET_3, STRIPE_SECRET_0,
    STRIPE_SECRET_1, STRIPE_SECRET_2, STRIPE_SECRET_3,
};

verus! {

/// `x * y` computed over the integers, split into its low and high 64-bit
/// halves, and the two halves XORed together.
pub open spec fn fold_mul(x: u64, y: u64) -> u64 {
    let p: int = x * y;
    ((p % 0x1_0000_0000_0000_0000) as u64) ^ ((p / 0x1_0000_0000_0000_0000) as u64)
}

/// Left rotation of a 64-bit word by `n` positions (taken modulo 64).
pub open spec fn rotl(x: u64, n: u32) -> u64 {
    let k: u32 = n % 64;
    if k == 0 {
        x
    } else {
        (x << k) | (x >> ((64 - k) as u32))
    }
}

/// Right rotation of a 64-bit word by `n` positions (taken modulo 64).
pub open spec fn rotr(x: u64, n: u32) -> u64 {
    let k: u32 = n % 64;
    if k == 0 {
        x
    } else {
        (x >> k) | (x << ((64 - k) as u32))
    }
}

/// The final mixing step applied to every digest. The branch finalizers of
/// the byte hash already end in a folded multiply, so this step is the
/// identity.
pub open spec fn spec_avalanche(x: u64) -> u64 {
    x
}

/// The accumulator derived from `seed` for mixing lane `lane`.
pub open spec fn spec_seed_lane(seed: u64, lane: int) -> u64 {
    fold_mul(rotl(seed, (lane * 17 + 7) as u32) ^ secret(lane), stripe_secret(lane))
}

/// Multiplies `x` and `y` as 128-bit values and folds the high half of the
/// product onto the low half.
pub fn folded_multiply(x: u64, y: u64) -> (r: u64)
    ensures
        r == fold_mul(x, y),
{
    proof {
        vstd::arithmetic::mul::lemma_mul_upper_bound(
            x as int,
            u64::MAX as int,
            y as int,
            u64::MAX as int,
        );
    }
    let product: u128 = (x as u128) * (y as u128);
    assert(product as u64 == (product % 0x1_0000_0000_0000_0000) as u64) by (bit_vector);
    assert((product >> 64) as u64 == (product / 0x1_0000_0000_0000_0000) as u64)
        by (bit_vector);
    (product as u64) ^ ((product >> 64) as u64)
}

/// Rotates `x` left by `n` bits.
pub fn rotate_left(x: u64, n: u32) -> (r: u64)
    ensures
        r == rotl(x, n),
{
    let k: u32 = n % 64;
    if k == 0 {
        x
    } else {
        (x << k) | (x >> (64 - k))
    }
}

/// Rotates `x` right by `n` bits.
pub fn rotate_right(x: u64, n: u32) -> (r: u64)
    ensures
        r == rotr(x, n),
{
    let k: u32 = n % 64;
    if k == 0 {
        x
    } else {
        (x >> k) | (x << (64 - k))
    }
}

/// Derives the accumulator of mixing lane `lane` from `seed`.
pub fn seed_lane(seed: u64, lane: usize) -> (r: u64)
    requires
        lane < 4,
    ensures
        r == spec_seed_lane(seed, lane as int),
{
    let (s, t) = if lane == 0 {
        (SECRET_0, STRIPE_SECRET_0)
    } else if lane == 1 {
        (SECRET_1, STRIPE_SECRET_1)
    } else if lane == 2 {
        (SECRET_2, STRIPE_SECRET_2)
    } else {
        (SECRET_3, STRIPE_SECRET_3)
    };
    let amount: u32 = (lane as u32) * 17 + 7;
    folded_multiply(rotate_left(seed, amount) ^ s, t)
}

/// The final mixing step applied to a digest (the identity).
pub fn avalanche(x: u64) -> (r: u64)
    ensures
        r == spec_avalanche(x),
        r == x,
{
    x
}

} // verus!
