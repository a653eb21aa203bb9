//! Mixing constants of the AxHash family.
//!
//! `SECRET_*` and `STRIPE_SECRET_*` are the two banks of odd 64-bit
//! constants that every mixing step folds into its operands. `LEN_MIX`
//! spreads the input length across the word before it is mixed in.

use vstd::prelude::*;

verus! {

pub const SECRET_0: u64 = 0xa076_1d64_78bd_642f;

pub const SECRET_1: u64 = 0xe703_7ed1_a0b4_28db;

pub const SECRET_2: u64 = 0x8ebc_6af0_9c88_c6e3;

pub const SECRET_3: u64 = 0x5899_65cc_7537_4cc3;

pub const STRIPE_SECRET_0: u64 = 0x2d35_8dcc_aa6c_78a5;

pub const STRIPE_SECRET_1: u64 = 0x8bb8_4b93_962e_acc9;

pub const STRIPE_SECRET_2: u64 = 0x4b33_a62e_d433_d4a3;

pub const STRIPE_SECRET_3: u64 = 0x4d5a_2da5_1de1_aa47;

/// Golden-ratio multiplier used to spread the input length.
pub const LEN_MIX: u64 = 0x9E37_79B9_7F4A_7C15;

/// The secret of bank `SECRET` at position `lane`.
pub open spec fn secret(lane: int) -> u64 {
    if lane == 0 {
        SECRET_0
    } else if lane == 1 {
        SECRET_1
    } else if lane == 2 {
        SECRET_2
    } else {
        SECRET_3
    }
}

/// The secret of bank `STRIPE_SECRET` at position `lane`.
pub open spec fn stripe_secret(lane: int) -> u64 {
    if lane == 0 {
        STRIPE_SECRET_0
    } else if lane == 1 {
        STRIPE_SECRET_1
    } else if lane == 2 {
        STRIPE_SECRET_2
    } else {
        STRIPE_SECRET_3
    }
}

} // verus!
