//! The hot loops of the profiling helper: tiny keys hashed one-shot through
//! their `Hash` impl, and a 32-byte key streamed in five unequal chunks.

use core::hash::Hash;

use vstd::prelude::*;

use crate::hasher::{AxHasher, HashOp, HasherState};

verus! {

/// Multiplier of the key-pattern generator.
pub const PATTERN_MUL: u64 = 0x9E37_79B9_7F4A_7C15;

/// Increment of the key-pattern generator.
pub const PATTERN_ADD: u64 = 0xD1B5_4A32_1C27_3F91;

/// Calls `std::hint::black_box`, which returns its argument unchanged and
/// only keeps the optimiser from reasoning about it.
#[verifier::external_body]
fn black_box_u64(x: u64) -> (r: u64)
    ensures
        r == x,
{
    std::hint::black_box(x)
}

/// What the standard library's `Hash` impl for a byte array feeds a hasher,
/// as a sequence of hasher operations, for the array holding `bytes`.
pub uninterp spec fn array_hash_ops(bytes: Seq<u8>) -> Seq<HashOp>;

/// Calls `<[u8; N] as core::hash::Hash>::hash` with `h` as the state. The
/// impl reaches the hasher only through `core::hash::Hasher` methods, each
/// of which `AxHasher` carries out as one `HashOp`, and what it feeds is a
/// function of the array's bytes alone; that sequence is named
/// `array_hash_ops` and is not spelt out here.
#[verifier::external_body]
fn hash_bytes_array_into<const N: usize>(k: &[u8; N], h: &mut AxHasher)
    ensures
        final(h)@ == old(h)@.apply_all(array_hash_ops(k@)),
{
    k.hash(h)
}

/// The digest a hasher with the default seed gives after a byte array
/// holding `bytes` has been fed to it through its `Hash` impl.
pub open spec fn spec_tiny_digest(bytes: Seq<u8>) -> u64 {
    HasherState::seeded(0).apply_all(array_hash_ops(bytes)).digest()
}

/// Hashes a 4-byte key through its `Hash` impl with the default seed.
pub fn hash_tiny_4(k4: &[u8; 4]) -> (r: u64)
    ensures
        r == spec_tiny_digest(k4@),
{
    let mut hasher = AxHasher::new();
    hash_bytes_array_into(k4, &mut hasher);
    hasher.finish()
}

/// Hashes an 8-byte key through its `Hash` impl with the default seed.
pub fn hash_tiny_8(k8: &[u8; 8]) -> (r: u64)
    ensures
        r == spec_tiny_digest(k8@),
{
    let mut hasher = AxHasher::new();
    hash_bytes_array_into(k8, &mut hasher);
    hasher.finish()
}

/// Hashes a 16-byte key through its `Hash` impl with the default seed.
pub fn hash_tiny_16(k16: &[u8; 16]) -> (r: u64)
    ensures
        r == spec_tiny_digest(k16@),
{
    let mut hasher = AxHasher::new();
    hash_bytes_array_into(k16, &mut hasher);
    hasher.finish()
}

/// The four little-endian bytes of `x`.
pub open spec fn spec_le_bytes_u32(x: u32) -> Seq<u8> {
    seq![x as u8, (x >> 8u32) as u8, (x >> 16u32) as u8, (x >> 24u32) as u8]
}

/// The eight little-endian bytes of `x`.
pub open spec fn spec_le_bytes_u64(x: u64) -> Seq<u8> {
    seq![
        x as u8,
        (x >> 8u64) as u8,
        (x >> 16u64) as u8,
        (x >> 24u64) as u8,
        (x >> 32u64) as u8,
        (x >> 40u64) as u8,
        (x >> 48u64) as u8,
        (x >> 56u64) as u8,
    ]
}

/// The little-endian bytes of `x`, as `u32::to_le_bytes` gives them.
pub fn le_bytes_u32(x: u32) -> (r: [u8; 4])
    ensures
        r@ == spec_le_bytes_u32(x),
{
    let r = [x as u8, (x >> 8u32) as u8, (x >> 16u32) as u8, (x >> 24u32) as u8];
    assert(r@ =~= spec_le_bytes_u32(x));
    r
}

/// The little-endian bytes of `x`, as `u64::to_le_bytes` gives them.
pub fn le_bytes_u64(x: u64) -> (r: [u8; 8])
    ensures
        r@ == spec_le_bytes_u64(x),
{
    let r = [
        x as u8,
        (x >> 8u64) as u8,
        (x >> 16u64) as u8,
        (x >> 24u64) as u8,
        (x >> 32u64) as u8,
        (x >> 40u64) as u8,
        (x >> 48u64) as u8,
        (x >> 56u64) as u8,
    ];
    assert(r@ =~= spec_le_bytes_u64(x));
    r
}

/// The 4-byte key of iteration `i`: the low 32 bits of `i`, little-endian.
pub open spec fn tiny_key_4(i: u64) -> Seq<u8> {
    spec_le_bytes_u32(i as u32)
}

/// The 8-byte key of iteration `i`: `i` times the pattern multiplier
/// (wrapping), little-endian.
pub open spec fn tiny_key_8(i: u64) -> Seq<u8> {
    spec_le_bytes_u64(i.wrapping_mul(PATTERN_MUL))
}

/// The 16-byte key of iteration `i`: the 8-byte key, the 4-byte key, then
/// the bytes 0, 1, 2, 3.
pub open spec fn tiny_key_16(i: u64) -> Seq<u8> {
    tiny_key_8(i) + tiny_key_4(i) + seq![0u8, 1u8, 2u8, 3u8]
}

/// The XOR of the digests of the tiny keys of the first `n` iterations,
/// taken in the order 4-byte, 8-byte, 16-byte key.
pub open spec fn spec_tiny_key_latency(n: nat) -> u64
    decreases n,
{
    if n == 0 {
        0
    } else {
        let i = (n - 1) as nat;
        let k = i as u64;
        spec_tiny_key_latency(i) ^ spec_tiny_digest(tiny_key_4(k)) ^ spec_tiny_digest(
            tiny_key_8(k),
        ) ^ spec_tiny_digest(tiny_key_16(k))
    }
}

/// Hashes the tiny keys of `0..iterations` one-shot and XORs the digests.
pub fn run_tiny_key_latency(iterations: u64) -> (r: u64)
    ensures
        r == spec_tiny_key_latency(iterations as nat),
{
    let mut acc = 0u64;
    let mut i = 0u64;
    while i < iterations
        invariant
            i <= iterations,
            acc == spec_tiny_key_latency(i as nat),
        decreases iterations - i,
    {
        let k4 = le_bytes_u32(i as u32);
        let k8 = le_bytes_u64(i.wrapping_mul(PATTERN_MUL));
        let k16: [u8; 16] = [
            k8[0], k8[1], k8[2], k8[3], k8[4], k8[5], k8[6], k8[7], k4[0], k4[1], k4[2], k4[3], 0,
            1, 2, 3,
        ];
        assert(k16@ =~= tiny_key_16(i));
        acc = acc ^ hash_tiny_4(&k4);
        acc = acc ^ hash_tiny_8(&k8);
        acc = acc ^ hash_tiny_16(&k16);
        i = i + 1;
    }
    black_box_u64(acc)
}

/// The digest of a 32-byte key written as the chunks `[0, 4)`, `[4, 8)`,
/// `[8, 16)`, `[16, 24)` and `[24, 32)` to a hasher with the default seed.
pub open spec fn spec_stream_32_chunks(b: Seq<u8>) -> u64 {
    HasherState::seeded(0).written(b.subrange(0, 4)).written(b.subrange(4, 8)).written(
        b.subrange(8, 16),
    ).written(b.subrange(16, 24)).written(b.subrange(24, 32)).digest()
}

/// Streams a 32-byte key in five unequal chunks and finishes.
pub fn hash_stream_32_chunks(bytes: &[u8; 32]) -> (r: u64)
    ensures
        r == spec_stream_32_chunks(bytes@),
{
    let s = bytes.as_slice();
    let mut hasher = AxHasher::new();
    hasher.write(vstd::slice::slice_subrange(s, 0, 4));
    hasher.write(vstd::slice::slice_subrange(s, 4, 8));
    hasher.write(vstd::slice::slice_subrange(s, 8, 16));
    hasher.write(vstd::slice::slice_subrange(s, 16, 24));
    hasher.write(vstd::slice::slice_subrange(s, 24, 32));
    hasher.finish()
}

/// The `n`-th state of the key-pattern generator started at `seed`.
pub open spec fn pattern_state(seed: u64, n: nat) -> u64
    decreases n,
{
    if n == 0 {
        seed
    } else {
        pattern_state(seed, (n - 1) as nat).wrapping_mul(PATTERN_MUL).wrapping_add(PATTERN_ADD)
    }
}

/// A 32-byte key whose byte `i` is the low byte of the generator's state
/// after `i + 1` steps from `seed`.
pub fn pattern_bytes32(seed: u64) -> (r: [u8; 32])
    ensures
        forall|i: int| 0 <= i < 32 ==> r@[i] == pattern_state(seed, (i + 1) as nat) as u8,
{
    let mut out = [0u8; 32];
    let mut v = seed;
    let mut i: usize = 0;
    while i < 32
        invariant
            i <= 32,
            v == pattern_state(seed, i as nat),
            forall|j: int| 0 <= j < i ==> out@[j] == pattern_state(seed, (j + 1) as nat) as u8,
        decreases 32 - i,
    {
        v = v.wrapping_mul(PATTERN_MUL).wrapping_add(PATTERN_ADD);
        out[i] = v as u8;
        i = i + 1;
    }
    out
}

/// The XOR of the streamed digests of the first `n` pattern keys.
pub open spec fn spec_tiny_key_streaming(n: nat) -> u64
    decreases n,
{
    if n == 0 {
        0
    } else {
        let i = (n - 1) as nat;
        let key = Seq::new(32, |j: int| pattern_state(i as u64, (j + 1) as nat) as u8);
        spec_tiny_key_streaming(i) ^ spec_stream_32_chunks(key)
    }
}

/// Streams the pattern keys for `0..iterations` and XORs their digests.
pub fn run_tiny_key_streaming(iterations: u64) -> (r: u64)
    ensures
        r == spec_tiny_key_streaming(iterations as nat),
{
    let mut acc = 0u64;
    let mut i = 0u64;
    while i < iterations
        invariant
            i <= iterations,
            acc == spec_tiny_key_streaming(i as nat),
        decreases iterations - i,
    {
        let bytes = pattern_bytes32(i);
        let ghost key = Seq::new(32, |j: int| pattern_state(i, (j + 1) as nat) as u8);
        assert(bytes@ =~= key);
        acc = acc ^ hash_stream_32_chunks(&bytes);
        i = i + 1;
    }
    black_box_u64(acc)
}

} // verus!
