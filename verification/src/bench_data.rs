//! Inputs and reference entry points of the comparison benchmarks: the data
//! sets they hash, the SplitMix64 generator they draw keys from, and the
//! AxHash calls they time.

use vstd::prelude::*;

use crate::api::{axhash_seeded, spec_axhash_seeded};
use crate::hasher::{AxHasher, HasherState};

verus! {

/// The seed every benchmarked hasher is keyed with.
pub const BENCH_SEED: u64 = 0xDEAD_BEEF_CAFE_BABE;

/// Bytes of the streaming benchmark's input.
pub const STREAM_TOTAL_BYTES: usize = 4096;

/// Bytes of the concurrent benchmark's payload.
pub const CONCURRENT_DATA_LEN: usize = 256;

/// The SplitMix64 finalizer of `x + 0x9e3779b97f4a7c15`.
pub open spec fn spec_splitmix(x: u64) -> u64 {
    let a = x.wrapping_add(0x9e3779b97f4a7c15);
    let b = (a ^ (a >> 30u64)).wrapping_mul(0xbf58476d1ce4e5b9);
    let c = (b ^ (b >> 27u64)).wrapping_mul(0x94d049bb133111eb);
    c ^ (c >> 31u64)
}

/// One SplitMix64 output for the state `x`.
pub fn splitmix(x: u64) -> (r: u64)
    ensures
        r == spec_splitmix(x),
{
    let a = x.wrapping_add(0x9e3779b97f4a7c15);
    let b = (a ^ (a >> 30u64)).wrapping_mul(0xbf58476d1ce4e5b9);
    let c = (b ^ (b >> 27u64)).wrapping_mul(0x94d049bb133111eb);
    c ^ (c >> 31u64)
}

/// The SplitMix64 generator.
pub struct SplitMix(pub u64);

impl SplitMix {
    /// Advances the state by the golden-ratio increment and returns the
    /// SplitMix64 output of the old state.
    pub fn next(&mut self) -> (r: u64)
        ensures
            final(self).0 == old(self).0.wrapping_add(0x9e3779b97f4a7c15),
            r == spec_splitmix(old(self).0),
    {
        let r = splitmix(self.0);
        self.0 = self.0.wrapping_add(0x9e3779b97f4a7c15);
        r
    }
}

/// `len` bytes counting up from 0 (modulo 256): the latency benchmark's
/// keys.
pub fn latency_data(len: usize) -> (r: Vec<u8>)
    ensures
        r@ == Seq::new(len as nat, |i: int| i as u8),
{
    let mut v: Vec<u8> = Vec::new();
    let mut i: usize = 0;
    while i < len
        invariant
            i <= len,
            v@ == Seq::new(i as nat, |j: int| j as u8),
        decreases len - i,
    {
        v.push(i as u8);
        i = i + 1;
    }
    v
}

/// Byte `i` of the throughput benchmark's input.
pub open spec fn throughput_byte(i: usize) -> u8 {
    (i.wrapping_mul(0x9e37) ^ (i >> 5usize)) as u8
}

/// The throughput benchmark's `len`-byte input.
pub fn throughput_data(len: usize) -> (r: Vec<u8>)
    ensures
        r@ == Seq::new(len as nat, |i: int| throughput_byte(i as usize)),
{
    let mut v: Vec<u8> = Vec::new();
    let mut i: usize = 0;
    while i < len
        invariant
            i <= len,
            v@ == Seq::new(i as nat, |j: int| throughput_byte(j as usize)),
        decreases len - i,
    {
        v.push((i.wrapping_mul(0x9e37) ^ (i >> 5usize)) as u8);
        i = i + 1;
    }
    v
}

/// The streaming benchmark's 4096-byte input: byte `i` is `i ^ (i >> 3)`.
pub fn streaming_data() -> (r: Vec<u8>)
    ensures
        r@ == Seq::new(
            STREAM_TOTAL_BYTES as nat,
            |i: int| ((i as usize) ^ ((i as usize) >> 3usize)) as u8,
        ),
{
    let mut v: Vec<u8> = Vec::new();
    let mut i: usize = 0;
    while i < STREAM_TOTAL_BYTES
        invariant
            i <= STREAM_TOTAL_BYTES,
            v@ == Seq::new(i as nat, |j: int| ((j as usize) ^ ((j as usize) >> 3usize)) as u8),
        decreases STREAM_TOTAL_BYTES - i,
    {
        v.push((i ^ (i >> 3usize)) as u8);
        i = i + 1;
    }
    v
}

/// The concurrent benchmark's 256-byte payload: byte `i` is `i ^ 0xAB`.
pub fn concurrent_data() -> (r: Vec<u8>)
    ensures
        r@ == Seq::new(CONCURRENT_DATA_LEN as nat, |i: int| ((i as usize) ^ 0xABusize) as u8),
{
    let mut v: Vec<u8> = Vec::new();
    let mut i: usize = 0;
    while i < CONCURRENT_DATA_LEN
        invariant
            i <= CONCURRENT_DATA_LEN,
            v@ == Seq::new(i as nat, |j: int| ((j as usize) ^ 0xABusize) as u8),
        decreases CONCURRENT_DATA_LEN - i,
    {
        v.push((i ^ 0xABusize) as u8);
        i = i + 1;
    }
    v
}

/// The benchmarked one-shot AxHash call.
pub fn ax_hash(data: &[u8]) -> (r: u64)
    ensures
        r == spec_axhash_seeded(data@, BENCH_SEED),
{
    axhash_seeded(data, BENCH_SEED)
}

/// The benchmarked streaming AxHash call: `data` written in chunks of
/// `chunk` bytes to a hasher for the benchmark seed.
pub fn ax_stream(data: &[u8], chunk: usize) -> (r: u64)
    requires
        chunk > 0,
    ensures
        r == HasherState::seeded(BENCH_SEED).written_chunks(data@, chunk as nat).digest(),
{
    let mut h = AxHasher::new_with_seed(BENCH_SEED);
    h.write_chunked(data, chunk);
    h.finish()
}

} // verus!
