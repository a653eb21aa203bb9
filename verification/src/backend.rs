//! The byte-string hash: one branch per length class (1..=16, 17..=32,
//! 33..=64, 65..=128 and longer inputs), each reading little-endian words
//! from the input and folding them together with the mixing constants.

use vstd::prelude::*;

use crate::constants::{
    LEN_MIX, SECRET_0, SECRET_1, SECRET_2, SECRET_3, STRIPE_SECRET_0, STRIPE_SECRET_1,
    STRIPE_SECRET_2, STRIPE_SECRET_3,
};
use crate::math::{fold_mul, folded_multiply, rotate_left, rotate_right, rotl, rotr};

verus! {

// ---------------------------------------------------------------------------
// Reading little-endian words
// ---------------------------------------------------------------------------

/// The little-endian 64-bit word held by `b[i..i + 8]`.
pub open spec fn le_u64_at(b: Seq<u8>, i: int) -> u64 {
    (b[i] as u64) | ((b[i + 1] as u64) << 8u64) | ((b[i + 2] as u64) << 16u64) | ((b[i
        + 3] as u64) << 24u64) | ((b[i + 4] as u64) << 32u64) | ((b[i + 5] as u64) << 40u64)
        | ((b[i + 6] as u64) << 48u64) | ((b[i + 7] as u64) << 56u64)
}

/// The little-endian 32-bit word held by `b[i..i + 4]`, widened to 64 bits.
pub open spec fn le_u32_at(b: Seq<u8>, i: int) -> u64 {
    (b[i] as u64) | ((b[i + 1] as u64) << 8u64) | ((b[i + 2] as u64) << 16u64) | ((b[i
        + 3] as u64) << 24u64)
}

/// The number of input bytes, as a 64-bit word.
pub open spec fn len_word(b: Seq<u8>) -> u64 {
    b.len() as u64
}

/// `len * LEN_MIX` modulo 2^64.
pub open spec fn spec_len_mix(b: Seq<u8>) -> u64 {
    len_word(b).wrapping_mul(LEN_MIX)
}

/// Reads the little-endian 64-bit word at `bytes[off..off + 8]`.
pub fn r_u64(bytes: &[u8], off: usize) -> (r: u64)
    requires
        off + 8 <= bytes@.len(),
    ensures
        r == le_u64_at(bytes@, off as int),
{
    (bytes[off] as u64) | ((bytes[off + 1] as u64) << 8u64) | ((bytes[off + 2] as u64) << 16u64)
        | ((bytes[off + 3] as u64) << 24u64) | ((bytes[off + 4] as u64) << 32u64) | ((bytes[off
        + 5] as u64) << 40u64) | ((bytes[off + 6] as u64) << 48u64) | ((bytes[off + 7] as u64)
        << 56u64)
}

/// Reads the little-endian 32-bit word at `bytes[off..off + 4]`.
fn r_u32(bytes: &[u8], off: usize) -> (r: u64)
    requires
        off + 4 <= bytes@.len(),
    ensures
        r == le_u32_at(bytes@, off as int),
{
    (bytes[off] as u64) | ((bytes[off + 1] as u64) << 8u64) | ((bytes[off + 2] as u64) << 16u64)
        | ((bytes[off + 3] as u64) << 24u64)
}

/// The word built from an input of 1 to 7 bytes without reading past its
/// end: two overlapping 4-byte reads for 4 bytes or more, otherwise the
/// first, middle and last bytes masked to the input's width.
pub open spec fn spec_read_partial(b: Seq<u8>) -> u64 {
    let len: int = b.len() as int;
    if len >= 4 {
        le_u32_at(b, 0) | (le_u32_at(b, len - 4) << 32u64)
    } else {
        let raw = (b[0] as u64) | ((b[len / 2] as u64) << 8u64) | ((b[len - 1] as u64) << 16u64);
        raw & (((1u64 << ((len * 8) as u64)) - 1) as u64)
    }
}

/// Reads an input of 1 to 7 bytes into one word, reading only inside it.
pub fn read_partial_u64(bytes: &[u8]) -> (r: u64)
    requires
        1 <= bytes@.len() <= 7,
    ensures
        r == spec_read_partial(bytes@),
{
    let len = bytes.len();
    if len >= 4 {
        let a = r_u32(bytes, 0);
        let b = r_u32(bytes, len - 4);
        a | (b << 32u64)
    } else {
        assert((len >> 1) == len / 2) by (bit_vector);
        let c1 = bytes[0] as u64;
        let c2 = bytes[len >> 1] as u64;
        let c3 = bytes[len - 1] as u64;
        let raw = c1 | (c2 << 8u64) | (c3 << 16u64);
        let shift: u64 = (len as u64) * 8;
        assert(1u64 << shift >= 1) by (bit_vector)
            requires
                shift <= 24,
        ;
        let mask = (1u64 << shift) - 1;
        raw & mask
    }
}

// ---------------------------------------------------------------------------
// Length classes
// ---------------------------------------------------------------------------

/// Hash of an input of 1 to 16 bytes.
pub open spec fn spec_hash_bytes_short(b: Seq<u8>, acc: u64) -> u64 {
    let len = b.len();
    let len_mix = spec_len_mix(b);
    if len >= 8 {
        let lo = le_u64_at(b, 0);
        let hi = le_u64_at(b, len - 8);
        let m0 = fold_mul(lo ^ SECRET_0, hi ^ STRIPE_SECRET_0 ^ len_mix);
        fold_mul(m0 ^ acc, len_mix ^ SECRET_1)
    } else if len == 4 {
        let v = le_u32_at(b, 0);
        let lo = v | (v << 32u64);
        let hi = rotl(lo, 17) ^ 4u64 ^ SECRET_0;
        let m0 = fold_mul(lo ^ SECRET_1 ^ acc, hi ^ STRIPE_SECRET_1);
        fold_mul(m0, len_mix ^ STRIPE_SECRET_0)
    } else {
        let lo = spec_read_partial(b);
        let hi = rotl(lo, 17) ^ len_word(b) ^ SECRET_0;
        let m0 = fold_mul(lo ^ SECRET_1 ^ acc, hi ^ STRIPE_SECRET_1);
        fold_mul(m0, len_mix ^ STRIPE_SECRET_0)
    }
}

/// Hashes an input of 1 to 16 bytes.
pub fn hash_bytes_short(bytes: &[u8], acc: u64) -> (r: u64)
    requires
        1 <= bytes@.len() <= 16,
    ensures
        r == spec_hash_bytes_short(bytes@, acc),
{
    let len = bytes.len();
    let len_u64 = len as u64;
    let len_mix = len_u64.wrapping_mul(LEN_MIX);
    if len >= 8 {
        let lo = r_u64(bytes, 0);
        let hi = r_u64(bytes, len - 8);
        let m0 = folded_multiply(lo ^ SECRET_0, hi ^ STRIPE_SECRET_0 ^ len_mix);
        folded_multiply(m0 ^ acc, len_mix ^ SECRET_1)
    } else if len == 4 {
        let v = r_u32(bytes, 0);
        let lo = v | (v << 32u64);
        let hi = rotate_left(lo, 17) ^ 4u64 ^ SECRET_0;
        let m0 = folded_multiply(lo ^ SECRET_1 ^ acc, hi ^ STRIPE_SECRET_1);
        folded_multiply(m0, len_mix ^ STRIPE_SECRET_0)
    } else {
        let lo = read_partial_u64(bytes);
        let hi = rotate_left(lo, 17) ^ len_u64 ^ SECRET_0;
        let m0 = folded_multiply(lo ^ SECRET_1 ^ acc, hi ^ STRIPE_SECRET_1);
        folded_multiply(m0, len_mix ^ STRIPE_SECRET_0)
    }
}

/// Hash of an input of 17 to 32 bytes: its first and last 16 bytes.
pub open spec fn spec_hash_bytes_17_32(b: Seq<u8>, acc: u64) -> u64 {
    let len = b.len();
    let len_mix = spec_len_mix(b);
    let front = fold_mul(le_u64_at(b, 0) ^ SECRET_0, le_u64_at(b, 8) ^ STRIPE_SECRET_0);
    let back = fold_mul(
        le_u64_at(b, len - 16) ^ SECRET_1,
        le_u64_at(b, len - 8) ^ STRIPE_SECRET_1 ^ len_mix,
    );
    let mix = front ^ rotl(back, 17);
    fold_mul(mix ^ acc, len_mix ^ SECRET_2)
}

/// Hashes an input of 17 to 32 bytes.
pub fn hash_bytes_17_32(bytes: &[u8], acc: u64) -> (r: u64)
    requires
        17 <= bytes@.len() <= 32,
    ensures
        r == spec_hash_bytes_17_32(bytes@, acc),
{
    let len = bytes.len();
    let a = r_u64(bytes, 0);
    let b = r_u64(bytes, 8);
    let c = r_u64(bytes, len - 16);
    let d = r_u64(bytes, len - 8);
    let len_mix = (len as u64).wrapping_mul(LEN_MIX);
    let front = folded_multiply(a ^ SECRET_0, b ^ STRIPE_SECRET_0);
    let back = folded_multiply(c ^ SECRET_1, d ^ STRIPE_SECRET_1 ^ len_mix);
    let mix = front ^ rotate_left(back, 17);
    folded_multiply(mix ^ acc, len_mix ^ SECRET_2)
}

/// Hash of an input of 33 to 64 bytes: its first and last 32 bytes.
pub open spec fn spec_hash_bytes_33_64(b: Seq<u8>, acc: u64) -> u64 {
    let len = b.len();
    let len_mix = spec_len_mix(b);
    let f0 = fold_mul(le_u64_at(b, 0) ^ SECRET_0, le_u64_at(b, 8) ^ STRIPE_SECRET_0);
    let f1 = fold_mul(le_u64_at(b, 16) ^ SECRET_1, le_u64_at(b, 24) ^ STRIPE_SECRET_1);
    let front = f0 ^ rotl(f1, 17);
    let b0 = fold_mul(
        le_u64_at(b, len - 32) ^ SECRET_2,
        le_u64_at(b, len - 24) ^ STRIPE_SECRET_2 ^ len_mix,
    );
    let b1 = fold_mul(le_u64_at(b, len - 16) ^ SECRET_3, le_u64_at(b, len - 8) ^ STRIPE_SECRET_3);
    let back = b0 ^ rotl(b1, 21);
    let m = fold_mul(front ^ acc, back ^ STRIPE_SECRET_0);
    fold_mul(m ^ rotl(len_mix, 23), SECRET_1 ^ acc)
}

/// Hashes an input of 33 to 64 bytes.
pub fn hash_bytes_33_64(bytes: &[u8], acc: u64) -> (r: u64)
    requires
        33 <= bytes@.len() <= 64,
    ensures
        r == spec_hash_bytes_33_64(bytes@, acc),
{
    let len = bytes.len();
    let w0 = r_u64(bytes, 0);
    let w1 = r_u64(bytes, 8);
    let w2 = r_u64(bytes, 16);
    let w3 = r_u64(bytes, 24);
    let w4 = r_u64(bytes, len - 32);
    let w5 = r_u64(bytes, len - 24);
    let w6 = r_u64(bytes, len - 16);
    let w7 = r_u64(bytes, len - 8);
    let len_mix = (len as u64).wrapping_mul(LEN_MIX);
    let f0 = folded_multiply(w0 ^ SECRET_0, w1 ^ STRIPE_SECRET_0);
    let f1 = folded_multiply(w2 ^ SECRET_1, w3 ^ STRIPE_SECRET_1);
    let front = f0 ^ rotate_left(f1, 17);
    let b0 = folded_multiply(w4 ^ SECRET_2, w5 ^ STRIPE_SECRET_2 ^ len_mix);
    let b1 = folded_multiply(w6 ^ SECRET_3, w7 ^ STRIPE_SECRET_3);
    let back = b0 ^ rotate_left(b1, 21);
    let m = folded_multiply(front ^ acc, back ^ STRIPE_SECRET_0);
    folded_multiply(m ^ rotate_left(len_mix, 23), SECRET_1 ^ acc)
}

/// Hash of an input of 64 to 128 bytes (dispatched for 65 to 128): its
/// first and last 64 bytes.
pub open spec fn spec_hash_bytes_65_128(b: Seq<u8>, acc: u64) -> u64 {
    let len = b.len();
    let len_mix = spec_len_mix(b);
    let m0 = fold_mul(le_u64_at(b, 0) ^ SECRET_0, le_u64_at(b, 8) ^ STRIPE_SECRET_0 ^ acc);
    let m1 = fold_mul(le_u64_at(b, 16) ^ SECRET_1, le_u64_at(b, 24) ^ STRIPE_SECRET_1);
    let m2 = fold_mul(le_u64_at(b, 32) ^ SECRET_2, le_u64_at(b, 40) ^ STRIPE_SECRET_2);
    let m3 = fold_mul(le_u64_at(b, 48) ^ SECRET_3, le_u64_at(b, 56) ^ STRIPE_SECRET_3);
    let m4 = fold_mul(
        le_u64_at(b, len - 64) ^ SECRET_0,
        le_u64_at(b, len - 56) ^ STRIPE_SECRET_0 ^ len_mix,
    );
    let m5 = fold_mul(le_u64_at(b, len - 48) ^ SECRET_1, le_u64_at(b, len - 40) ^ STRIPE_SECRET_1);
    let m6 = fold_mul(le_u64_at(b, len - 32) ^ SECRET_2, le_u64_at(b, len - 24) ^ STRIPE_SECRET_2);
    let m7 = fold_mul(le_u64_at(b, len - 16) ^ SECRET_3, le_u64_at(b, len - 8) ^ STRIPE_SECRET_3);
    let s0 = m0 ^ rotl(m4, 17);
    let s1 = m1 ^ rotl(m5, 19);
    let s2 = m2 ^ rotl(m6, 23);
    let s3 = m3 ^ rotl(m7, 29);
    let x = fold_mul(s0 ^ STRIPE_SECRET_0, s1 ^ STRIPE_SECRET_1);
    let y = fold_mul(s2 ^ STRIPE_SECRET_2, s3 ^ STRIPE_SECRET_3);
    fold_mul(x ^ rotl(y, 17), acc ^ len_mix)
}

/// Hashes an input of 64 to 128 bytes.
pub fn hash_bytes_65_128(bytes: &[u8], acc: u64) -> (r: u64)
    requires
        64 <= bytes@.len() <= 128,
    ensures
        r == spec_hash_bytes_65_128(bytes@, acc),
{
    let len = bytes.len();
    let w0 = r_u64(bytes, 0);
    let w1 = r_u64(bytes, 8);
    let w2 = r_u64(bytes, 16);
    let w3 = r_u64(bytes, 24);
    let w4 = r_u64(bytes, 32);
    let w5 = r_u64(bytes, 40);
    let w6 = r_u64(bytes, 48);
    let w7 = r_u64(bytes, 56);
    let w8 = r_u64(bytes, len - 64);
    let w9 = r_u64(bytes, len - 56);
    let wa = r_u64(bytes, len - 48);
    let wb = r_u64(bytes, len - 40);
    let wc = r_u64(bytes, len - 32);
    let wd = r_u64(bytes, len - 24);
    let we = r_u64(bytes, len - 16);
    let wf = r_u64(bytes, len - 8);
    let m0 = folded_multiply(w0 ^ SECRET_0, w1 ^ STRIPE_SECRET_0 ^ acc);
    let m1 = folded_multiply(w2 ^ SECRET_1, w3 ^ STRIPE_SECRET_1);
    let m2 = folded_multiply(w4 ^ SECRET_2, w5 ^ STRIPE_SECRET_2);
    let m3 = folded_multiply(w6 ^ SECRET_3, w7 ^ STRIPE_SECRET_3);
    let len_mix = (len as u64).wrapping_mul(LEN_MIX);
    let m4 = folded_multiply(w8 ^ SECRET_0, w9 ^ STRIPE_SECRET_0 ^ len_mix);
    let m5 = folded_multiply(wa ^ SECRET_1, wb ^ STRIPE_SECRET_1);
    let m6 = folded_multiply(wc ^ SECRET_2, wd ^ STRIPE_SECRET_2);
    let m7 = folded_multiply(we ^ SECRET_3, wf ^ STRIPE_SECRET_3);
    let s0 = m0 ^ rotate_left(m4, 17);
    let s1 = m1 ^ rotate_left(m5, 19);
    let s2 = m2 ^ rotate_left(m6, 23);
    let s3 = m3 ^ rotate_left(m7, 29);
    let x = folded_multiply(s0 ^ STRIPE_SECRET_0, s1 ^ STRIPE_SECRET_1);
    let y = folded_multiply(s2 ^ STRIPE_SECRET_2, s3 ^ STRIPE_SECRET_3);
    folded_multiply(x ^ rotate_left(y, 17), acc ^ len_mix)
}

} // verus!

verus! {

// ---------------------------------------------------------------------------
// Inputs longer than 128 bytes
// ---------------------------------------------------------------------------

/// The four running lanes of the long-input hash.
#[derive(Clone, Copy, Debug, PartialEq, Eq)]
pub struct Lanes {
    pub s0: u64,
    pub s1: u64,
    pub s2: u64,
    pub s3: u64,
}

/// The lanes after mixing in the 128-byte block `b[off..off + 128]`.
#[verifier::opaque]
pub open spec fn spec_mix_block(st: Lanes, b: Seq<u8>, off: int) -> Lanes {
    let m0 = fold_mul(le_u64_at(b, off) ^ SECRET_0, le_u64_at(b, off + 8) ^ STRIPE_SECRET_0);
    let m1 = fold_mul(le_u64_at(b, off + 16) ^ SECRET_1, le_u64_at(b, off + 24) ^ STRIPE_SECRET_1);
    let m2 = fold_mul(le_u64_at(b, off + 32) ^ SECRET_2, le_u64_at(b, off + 40) ^ STRIPE_SECRET_2);
    let m3 = fold_mul(le_u64_at(b, off + 48) ^ SECRET_3, le_u64_at(b, off + 56) ^ STRIPE_SECRET_3);
    let m4 = fold_mul(le_u64_at(b, off + 64) ^ SECRET_0, le_u64_at(b, off + 72) ^ STRIPE_SECRET_0);
    let m5 = fold_mul(le_u64_at(b, off + 80) ^ SECRET_1, le_u64_at(b, off + 88) ^ STRIPE_SECRET_1);
    let m6 = fold_mul(le_u64_at(b, off + 96) ^ SECRET_2, le_u64_at(b, off + 104) ^ STRIPE_SECRET_2);
    let m7 = fold_mul(
        le_u64_at(b, off + 112) ^ SECRET_3,
        le_u64_at(b, off + 120) ^ STRIPE_SECRET_3,
    );
    Lanes {
        s0: rotl(st.s0, 19) ^ m0 ^ rotl(m4, 23),
        s1: rotl(st.s1, 19) ^ m1 ^ rotl(m5, 23),
        s2: rotl(st.s2, 19) ^ m2 ^ rotl(m6, 23),
        s3: rotl(st.s3, 19) ^ m3 ^ rotl(m7, 23),
    }
}

/// The lanes after mixing in the first `k` whole 128-byte blocks of `b`,
/// in order.
pub open spec fn spec_absorb_blocks(st: Lanes, b: Seq<u8>, k: nat) -> Lanes
    decreases k,
{
    if k == 0 {
        st
    } else {
        spec_mix_block(spec_absorb_blocks(st, b, (k - 1) as nat), b, (k - 1) * 128)
    }
}

/// The lanes the long-input hash starts from.
pub open spec fn spec_initial_lanes(acc: u64) -> Lanes {
    Lanes {
        s0: acc ^ SECRET_0,
        s1: rotl(acc, 17) ^ SECRET_1,
        s2: rotl(acc, 33) ^ SECRET_2,
        s3: rotl(acc, 49) ^ SECRET_3,
    }
}

/// Hash of an input of at least 128 bytes (dispatched for longer ones): every whole 128-byte block in
/// order, then the last 128 bytes once more, then a two-step fold of the
/// lanes with the length.
pub open spec fn spec_hash_bytes_long(b: Seq<u8>, acc: u64) -> u64 {
    let len = b.len();
    let blocks = spec_absorb_blocks(spec_initial_lanes(acc), b, len / 128);
    let st = spec_mix_block(blocks, b, len - 128);
    let x = fold_mul(st.s0 ^ STRIPE_SECRET_0, st.s1 ^ STRIPE_SECRET_1);
    let y = fold_mul(st.s2 ^ STRIPE_SECRET_2, st.s3 ^ STRIPE_SECRET_3);
    fold_mul(x ^ rotl(spec_len_mix(b), 17), y ^ rotl(acc, 9))
}

/// Mixes the 128-byte block `bytes[off..off + 128]` into the lanes.
pub fn mix_128_block(bytes: &[u8], off: usize, st: Lanes) -> (r: Lanes)
    requires
        off + 128 <= bytes@.len(),
    ensures
        r == spec_mix_block(st, bytes@, off as int),
{
    reveal(spec_mix_block);
    let _len = bytes.len();
    let w0 = r_u64(bytes, off);
    let w1 = r_u64(bytes, off + 8);
    let w2 = r_u64(bytes, off + 16);
    let w3 = r_u64(bytes, off + 24);
    let w4 = r_u64(bytes, off + 32);
    let w5 = r_u64(bytes, off + 40);
    let w6 = r_u64(bytes, off + 48);
    let w7 = r_u64(bytes, off + 56);
    let w8 = r_u64(bytes, off + 64);
    let w9 = r_u64(bytes, off + 72);
    let wa = r_u64(bytes, off + 80);
    let wb = r_u64(bytes, off + 88);
    let wc = r_u64(bytes, off + 96);
    let wd = r_u64(bytes, off + 104);
    let we = r_u64(bytes, off + 112);
    let wf = r_u64(bytes, off + 120);
    let m0 = folded_multiply(w0 ^ SECRET_0, w1 ^ STRIPE_SECRET_0);
    let m1 = folded_multiply(w2 ^ SECRET_1, w3 ^ STRIPE_SECRET_1);
    let m2 = folded_multiply(w4 ^ SECRET_2, w5 ^ STRIPE_SECRET_2);
    let m3 = folded_multiply(w6 ^ SECRET_3, w7 ^ STRIPE_SECRET_3);
    let m4 = folded_multiply(w8 ^ SECRET_0, w9 ^ STRIPE_SECRET_0);
    let m5 = folded_multiply(wa ^ SECRET_1, wb ^ STRIPE_SECRET_1);
    let m6 = folded_multiply(wc ^ SECRET_2, wd ^ STRIPE_SECRET_2);
    let m7 = folded_multiply(we ^ SECRET_3, wf ^ STRIPE_SECRET_3);
    Lanes {
        s0: rotate_left(st.s0, 19) ^ m0 ^ rotate_left(m4, 23),
        s1: rotate_left(st.s1, 19) ^ m1 ^ rotate_left(m5, 23),
        s2: rotate_left(st.s2, 19) ^ m2 ^ rotate_left(m6, 23),
        s3: rotate_left(st.s3, 19) ^ m3 ^ rotate_left(m7, 23),
    }
}

/// Hashes an input of at least 128 bytes (dispatched for longer ones).
pub fn hash_bytes_long(bytes: &[u8], acc: u64) -> (r: u64)
    requires
        bytes@.len() >= 128,
    ensures
        r == spec_hash_bytes_long(bytes@, acc),
{
    let len = bytes.len();
    let init = Lanes {
        s0: acc ^ SECRET_0,
        s1: rotate_left(acc, 17) ^ SECRET_1,
        s2: rotate_left(acc, 33) ^ SECRET_2,
        s3: rotate_left(acc, 49) ^ SECRET_3,
    };
    let mut st = init;
    let mut offset: usize = 0;
    let ghost mut k: nat = 0;
    while len - offset >= 128
        invariant
            len == bytes@.len(),
            offset <= len,
            offset == k * 128,
            st == spec_absorb_blocks(init, bytes@, k),
        decreases len - offset,
    {
        st = mix_128_block(bytes, offset, st);
        offset = offset + 128;
        proof {
            k = k + 1;
            assert(spec_absorb_blocks(init, bytes@, k) == spec_mix_block(
                spec_absorb_blocks(init, bytes@, (k - 1) as nat),
                bytes@,
                (k - 1) * 128,
            ));
        }
    }
    assert(k == len / 128);
    st = mix_128_block(bytes, len - 128, st);
    let x = folded_multiply(st.s0 ^ STRIPE_SECRET_0, st.s1 ^ STRIPE_SECRET_1);
    let y = folded_multiply(st.s2 ^ STRIPE_SECRET_2, st.s3 ^ STRIPE_SECRET_3);
    let len_mix = (len as u64).wrapping_mul(LEN_MIX);
    folded_multiply(x ^ rotate_left(len_mix, 17), y ^ rotate_left(acc, 9))
}

// ---------------------------------------------------------------------------
// Dispatch on length
// ---------------------------------------------------------------------------

/// The hash of `b` mixed into the accumulator `acc`. The empty input leaves
/// the accumulator unchanged; longer inputs rotate the accumulator right by
/// the input length before mixing.
pub open spec fn spec_hash_bytes(b: Seq<u8>, acc: u64) -> u64 {
    let len = b.len();
    if len == 0 {
        acc
    } else if len <= 16 {
        spec_hash_bytes_short(b, acc)
    } else if len <= 32 {
        spec_hash_bytes_17_32(b, rotr(acc, len as u32))
    } else if len <= 64 {
        spec_hash_bytes_33_64(b, rotr(acc, len as u32))
    } else if len <= 128 {
        spec_hash_bytes_65_128(b, rotr(acc, len as u32))
    } else {
        spec_hash_bytes_long(b, rotr(acc, len as u32))
    }
}

/// Mixes `bytes` into the accumulator `acc`.
pub fn hash_bytes_core(bytes: &[u8], acc: u64) -> (r: u64)
    ensures
        r == spec_hash_bytes(bytes@, acc),
        bytes@.len() == 0 ==> r == acc,
{
    let len = bytes.len();
    if len == 0 {
        return acc;
    }
    if len <= 16 {
        hash_bytes_short(bytes, acc)
    } else {
        let rotated = rotate_right(acc, #[verifier::truncate] (len as u32));
        if len <= 32 {
            hash_bytes_17_32(bytes, rotated)
        } else if len <= 64 {
            hash_bytes_33_64(bytes, rotated)
        } else if len <= 128 {
            hash_bytes_65_128(bytes, rotated)
        } else {
            hash_bytes_long(bytes, rotated)
        }
    }
}

} // verus!
