//! One-shot hashing of byte strings.

use vstd::prelude::*;

use crate::backend::{hash_bytes_core, spec_hash_bytes};
use crate::math::{avalanche, seed_lane, spec_avalanche, spec_seed_lane};

verus! {

/// The digest of `bytes` under `seed`: the byte hash of `bytes` mixed into
/// the accumulator derived from `seed`, then avalanched.
pub open spec fn spec_axhash_seeded(bytes: Seq<u8>, seed: u64) -> u64 {
    spec_avalanche(spec_hash_bytes(bytes, spec_seed_lane(seed, 0)))
}

/// Hashes `bytes` with the default seed (`0`).
pub fn axhash(bytes: &[u8]) -> (r: u64)
    ensures
        r == spec_axhash_seeded(bytes@, 0),
{
    axhash_seeded(bytes, 0)
}

/// Hashes `bytes` with `seed`. The same `(bytes, seed)` pair always gives
/// the same digest.
pub fn axhash_seeded(bytes: &[u8], seed: u64) -> (r: u64)
    ensures
        r == spec_axhash_seeded(bytes@, seed),
{
    avalanche(hash_bytes_core(bytes, seed_lane(seed, 0)))
}

} // verus!
