//! The streaming hasher and its builder.
//!
//! An `AxHasher` holds an accumulator and a 128-bit "sponge" that buffers
//! small integers (`u8`, `u16` and their signed forms) until it is full or
//! another kind of write arrives. Wider integers and byte strings flush the
//! sponge and are folded straight into the accumulator.

use vstd::prelude::*;

use crate::backend::{hash_bytes_core, spec_hash_bytes};
use crate::constants::{SECRET_0, SECRET_1};
use crate::math::{avalanche, fold_mul, folded_multiply, spec_avalanche};

verus! {

/// The abstract state of an `AxHasher`.
pub struct HasherState {
    /// The running accumulator.
    pub acc: u64,
    /// Buffered small integers, packed little-endian from bit 0.
    pub sponge: u128,
    /// How many bits of `sponge` are occupied.
    pub sponge_bits: u8,
}

/// One call on a hasher, as a value: the `write_*` methods of
/// `core::hash::Hasher` reduce to these.
pub ghost enum HashOp {
    Bytes(Seq<u8>),
    U8(u8),
    U16(u16),
    U32(u32),
    U64(u64),
    U128(u128),
}

impl HasherState {
    /// The sponge occupies a whole number of bytes, at most 128 bits, and no
    /// bit above the occupied ones is set.
    pub open spec fn wf(self) -> bool {
        &&& self.sponge_bits <= 128
        &&& self.sponge_bits % 8 == 0
        &&& (self.sponge_bits < 128 ==> self.sponge >> self.sponge_bits == 0)
    }

    /// A fresh hasher for `seed`.
    pub open spec fn seeded(seed: u64) -> HasherState {
        HasherState { acc: seed ^ SECRET_0, sponge: 0, sponge_bits: 0 }
    }

    /// The accumulator with the sponge's content folded in, as a 128-bit
    /// word split into its low and high halves.
    pub open spec fn absorb_sponge(self) -> u64 {
        fold_mul((self.sponge as u64) ^ self.acc, ((self.sponge >> 64u128) as u64) ^ SECRET_1)
    }

    /// The state after flushing the sponge: unchanged when it is empty,
    /// otherwise the sponge is folded into the accumulator and emptied.
    pub open spec fn flushed(self) -> HasherState {
        if self.sponge_bits == 0 {
            self
        } else {
            HasherState { acc: self.absorb_sponge(), sponge: 0, sponge_bits: 0 }
        }
    }

    /// The state after buffering the `bits`-bit value `v` in the sponge,
    /// flushing first when it would not fit.
    pub open spec fn pushed(self, v: u128, bits: u8) -> HasherState {
        let t = if self.sponge_bits + bits > 128 {
            self.flushed()
        } else {
            self
        };
        HasherState {
            acc: t.acc,
            sponge: t.sponge | (v << t.sponge_bits),
            sponge_bits: (t.sponge_bits + bits) as u8,
        }
    }

    /// The state after folding a 64-bit word into the flushed accumulator.
    pub open spec fn mixed_word(self, w: u64) -> HasherState {
        let t = self.flushed();
        HasherState { acc: fold_mul(t.acc ^ w, SECRET_1), ..t }
    }

    /// The state after folding a 128-bit word into the flushed accumulator.
    pub open spec fn mixed_u128(self, v: u128) -> HasherState {
        let t = self.flushed();
        HasherState {
            acc: fold_mul((v as u64) ^ t.acc, ((v >> 64u128) as u64) ^ SECRET_1),
            ..t
        }
    }

    /// The state after writing a byte string: the empty string changes
    /// nothing; any other is hashed into the flushed accumulator.
    pub open spec fn written(self, b: Seq<u8>) -> HasherState {
        if b.len() == 0 {
            self
        } else {
            let t = self.flushed();
            HasherState { acc: spec_hash_bytes(b, t.acc), ..t }
        }
    }

    /// The state after writing `b` as consecutive chunks of `chunk` bytes
    /// (the last one shorter when `chunk` does not divide the length), one
    /// byte-string write per chunk; the empty string is no write at all.
    pub open spec fn written_chunks(self, b: Seq<u8>, chunk: nat) -> HasherState
        decreases b.len(),
    {
        if b.len() == 0 || chunk == 0 {
            self
        } else if b.len() <= chunk {
            self.written(b)
        } else {
            self.written(b.take(chunk as int)).written_chunks(b.skip(chunk as int), chunk)
        }
    }

    /// The digest `finish` reports: the accumulator of the flushed state,
    /// after the final avalanche.
    pub open spec fn digest(self) -> u64 {
        spec_avalanche(self.flushed().acc)
    }

    /// The state after one operation.
    pub open spec fn apply(self, op: HashOp) -> HasherState {
        match op {
            HashOp::Bytes(b) => self.written(b),
            HashOp::U8(i) => self.pushed(i as u128, 8),
            HashOp::U16(i) => self.pushed(i as u128, 16),
            HashOp::U32(i) => self.mixed_word(i as u64),
            HashOp::U64(i) => self.mixed_word(i),
            HashOp::U128(i) => self.mixed_u128(i),
        }
    }

    /// The state after a sequence of operations, applied in order.
    pub open spec fn apply_all(self, ops: Seq<HashOp>) -> HasherState
        decreases ops.len(),
    {
        if ops.len() == 0 {
            self
        } else {
            self.apply_all(ops.drop_last()).apply(ops.last())
        }
    }
}

/// A streaming hasher implementing `core::hash::Hasher`.
///
/// Small integers are buffered in a sponge; everything else flushes the
/// sponge and is folded into the accumulator at once. The hasher can be
/// reused by constructing a new instance.
#[derive(Debug)]
pub struct AxHasher {
    acc: u64,
    sponge: u128,
    sponge_bits: u8,
}

impl View for AxHasher {
    type V = HasherState;

    closed spec fn view(&self) -> HasherState {
        HasherState { acc: self.acc, sponge: self.sponge, sponge_bits: self.sponge_bits }
    }
}

proof fn lemma_pack_fits(s: u128, v: u128, k: u128, b: u128)
    by (bit_vector)
    requires
        k + b < 128,
        b < 128,
        s >> k == 0,
        v >> b == 0,
    ensures
        (s | (v << k)) >> (k + b) == 0,
{
}

impl AxHasher {
    #[verifier::type_invariant]
    spec fn inv(self) -> bool {
        self@.wf()
    }

    /// A hasher with the default seed (`0`).
    pub fn new() -> (r: Self)
        ensures
            r@ == HasherState::seeded(0),
    {
        Self::new_with_seed(0)
    }

    /// A hasher for `seed`. Different seeds give independent hash families.
    pub fn new_with_seed(seed: u64) -> (r: Self)
        ensures
            r@ == HasherState::seeded(seed),
    {
        assert(0u128 >> 0u8 == 0u128) by (bit_vector);
        Self { acc: seed ^ SECRET_0, sponge: 0, sponge_bits: 0 }
    }

    /// The running accumulator.
    pub fn acc(&self) -> (r: u64)
        ensures
            r == self@.acc,
    {
        self.acc
    }

    /// The buffered small integers.
    pub fn sponge(&self) -> (r: u128)
        ensures
            r == self@.sponge,
    {
        self.sponge
    }

    /// How many bits of the sponge are occupied.
    pub fn sponge_bits(&self) -> (r: u8)
        ensures
            r == self@.sponge_bits,
    {
        self.sponge_bits
    }

    /// Folds the sponge into the accumulator, if it holds anything.
    pub fn flush_sponge(&mut self)
        ensures
            final(self)@ == old(self)@.flushed(),
    {
        if self.sponge_bits == 0 {
            return;
        }
        let lo = self.sponge as u64;
        let hi = (self.sponge >> 64u128) as u64;
        let acc = folded_multiply(lo ^ self.acc, hi ^ SECRET_1);
        assert(0u128 >> 0u8 == 0u128) by (bit_vector);
        *self = AxHasher { acc, sponge: 0, sponge_bits: 0 };
    }

    /// Buffers the `bits`-bit value `value` in the sponge.
    fn push_num(&mut self, value: u128, bits: u8)
        requires
            bits == 8 || bits == 16 || bits == 32 || bits == 64,
            value >> bits == 0,
        ensures
            final(self)@ == old(self)@.pushed(value, bits),
    {
        proof {
            use_type_invariant(&*self);
        }
        if self.sponge_bits as u16 + bits as u16 > 128 {
            self.flush_sponge();
        }
        proof {
            use_type_invariant(&*self);
        }
        let k = self.sponge_bits;
        let s = self.sponge;
        proof {
            if (k + bits) < 128 {
                lemma_pack_fits(s, value, k as u128, bits as u128);
                assert(((s | (value << k)) >> ((k + bits) as u8)) == 0) by (bit_vector)
                    requires
                        (s | (value << (k as u128))) >> ((k as u128) + (bits as u128)) == 0,
                        k + bits < 128,
                ;
            }
        }
        *self = AxHasher { acc: self.acc, sponge: s | (value << k), sponge_bits: k + bits };
    }

    /// The digest of everything written so far. Does not change the hasher.
    pub fn finish(&self) -> (r: u64)
        ensures
            r == self@.digest(),
    {
        let final_acc = if self.sponge_bits == 0 {
            self.acc
        } else {
            let lo = self.sponge as u64;
            let hi = (self.sponge >> 64u128) as u64;
            folded_multiply(lo ^ self.acc, hi ^ SECRET_1)
        };
        avalanche(final_acc)
    }

    /// Writes a byte string: the empty string is a no-op; any other flushes
    /// the sponge, then is hashed into the accumulator.
    pub fn write(&mut self, bytes: &[u8])
        ensures
            final(self)@ == old(self)@.written(bytes@),
            bytes@.len() == 0 ==> final(self)@ == old(self)@,
    {
        if bytes.len() == 0 {
            return;
        }
        self.flush_sponge();
        proof {
            use_type_invariant(&*self);
        }
        self.acc = hash_bytes_core(bytes, self.acc);
    }

    /// Writes `data` as consecutive chunks of `chunk` bytes, one `write` per
    /// chunk.
    pub fn write_chunked(&mut self, data: &[u8], chunk: usize)
        requires
            chunk > 0,
        ensures
            final(self)@ == old(self)@.written_chunks(data@, chunk as nat),
    {
        let ghost start = self@;
        let mut rest = data;
        while rest.len() > 0
            invariant
                chunk > 0,
                start.written_chunks(data@, chunk as nat) == self@.written_chunks(
                    rest@,
                    chunk as nat,
                ),
            decreases rest@.len(),
        {
            let n = if rest.len() < chunk {
                rest.len()
            } else {
                chunk
            };
            let (head, tail) = rest.split_at(n);
            proof {
                assert(head@ == rest@.take(n as int));
                assert(tail@ == rest@.skip(n as int));
                if rest@.len() <= chunk {
                    assert(tail@.len() == 0);
                    assert(head@ == rest@);
                }
            }
            self.write(head);
            rest = tail;
        }
    }

    /// Buffers a `u8` in the sponge.
    pub fn write_u8(&mut self, i: u8)
        ensures
            final(self)@ == old(self)@.pushed(i as u128, 8),
    {
        let v = i as u128;
        assert(v >> 8u8 == 0) by (bit_vector)
            requires
                v == i as u128,
        ;
        self.push_num(v, 8);
    }

    /// Buffers a `u16` in the sponge.
    pub fn write_u16(&mut self, i: u16)
        ensures
            final(self)@ == old(self)@.pushed(i as u128, 16),
    {
        let v = i as u128;
        assert(v >> 16u8 == 0) by (bit_vector)
            requires
                v == i as u128,
        ;
        self.push_num(v, 16);
    }

    /// Flushes the sponge and folds a `u32` into the accumulator.
    pub fn write_u32(&mut self, i: u32)
        ensures
            final(self)@ == old(self)@.mixed_word(i as u64),
    {
        self.flush_sponge();
        proof {
            use_type_invariant(&*self);
        }
        self.acc = folded_multiply(self.acc ^ i as u64, SECRET_1);
    }

    /// Flushes the sponge and folds a `u64` into the accumulator.
    pub fn write_u64(&mut self, i: u64)
        ensures
            final(self)@ == old(self)@.mixed_word(i),
    {
        self.flush_sponge();
        proof {
            use_type_invariant(&*self);
        }
        self.acc = folded_multiply(self.acc ^ i, SECRET_1);
    }

    /// Flushes the sponge and folds a `u128` into the accumulator.
    pub fn write_u128(&mut self, i: u128)
        ensures
            final(self)@ == old(self)@.mixed_u128(i),
    {
        self.flush_sponge();
        proof {
            use_type_invariant(&*self);
        }
        let lo = i as u64;
        let hi = (i >> 64u128) as u64;
        self.acc = folded_multiply(lo ^ self.acc, hi ^ SECRET_1);
    }

    /// Writes a `usize` as the word of the platform's width (`u32` on 32-bit
    /// targets, `u64` on 64-bit ones); both fold the same 64-bit value.
    pub fn write_usize(&mut self, i: usize)
        ensures
            final(self)@ == old(self)@.mixed_word(i as u64),
    {
        if usize::BITS == 32 {
            self.write_u32(i as u32);
        } else {
            self.write_u64(i as u64);
        }
    }

    /// Writes an `i8` as the `u8` with the same bits.
    pub fn write_i8(&mut self, i: i8)
        ensures
            final(self)@ == old(self)@.pushed((i as u8) as u128, 8),
    {
        self.write_u8(i as u8);
    }

    /// Writes an `i16` as the `u16` with the same bits.
    pub fn write_i16(&mut self, i: i16)
        ensures
            final(self)@ == old(self)@.pushed((i as u16) as u128, 16),
    {
        self.write_u16(i as u16);
    }

    /// Writes an `i32` as the `u32` with the same bits.
    pub fn write_i32(&mut self, i: i32)
        ensures
            final(self)@ == old(self)@.mixed_word((i as u32) as u64),
    {
        self.write_u32(i as u32);
    }

    /// Writes an `i64` as the `u64` with the same bits.
    pub fn write_i64(&mut self, i: i64)
        ensures
            final(self)@ == old(self)@.mixed_word(i as u64),
    {
        self.write_u64(i as u64);
    }

    /// Writes an `i128` as the `u128` with the same bits.
    pub fn write_i128(&mut self, i: i128)
        ensures
            final(self)@ == old(self)@.mixed_u128(i as u128),
    {
        self.write_u128(i as u128);
    }

    /// Writes an `isize` as the `usize` with the same bits.
    pub fn write_isize(&mut self, i: isize)
        ensures
            final(self)@ == old(self)@.mixed_word((i as usize) as u64),
    {
        self.write_usize(i as usize);
    }
}

impl Clone for AxHasher {
    /// A hasher in the same state.
    fn clone(&self) -> (r: Self)
        ensures
            r@ == self@,
    {
        proof {
            use_type_invariant(self);
        }
        AxHasher { acc: self.acc, sponge: self.sponge, sponge_bits: self.sponge_bits }
    }
}

impl Default for AxHasher {
    /// The same hasher as `AxHasher::new`.
    fn default() -> (r: Self)
        ensures
            r@ == HasherState::seeded(0),
    {
        Self::new()
    }
}

impl core::hash::Hasher for AxHasher {
    fn finish(&self) -> (r: u64)
        ensures
            r == self@.digest(),
    {
        AxHasher::finish(self)
    }

    fn write(&mut self, bytes: &[u8])
        ensures
            final(self)@ == old(self)@.written(bytes@),
    {
        AxHasher::write(self, bytes)
    }

    fn write_u8(&mut self, i: u8)
        ensures
            final(self)@ == old(self)@.pushed(i as u128, 8),
    {
        AxHasher::write_u8(self, i)
    }

    fn write_u16(&mut self, i: u16)
        ensures
            final(self)@ == old(self)@.pushed(i as u128, 16),
    {
        AxHasher::write_u16(self, i)
    }

    fn write_u32(&mut self, i: u32)
        ensures
            final(self)@ == old(self)@.mixed_word(i as u64),
    {
        AxHasher::write_u32(self, i)
    }

    fn write_u64(&mut self, i: u64)
        ensures
            final(self)@ == old(self)@.mixed_word(i),
    {
        AxHasher::write_u64(self, i)
    }

    fn write_u128(&mut self, i: u128)
        ensures
            final(self)@ == old(self)@.mixed_u128(i),
    {
        AxHasher::write_u128(self, i)
    }

    fn write_usize(&mut self, i: usize)
        ensures
            final(self)@ == old(self)@.mixed_word(i as u64),
    {
        AxHasher::write_usize(self, i)
    }

    fn write_i8(&mut self, i: i8)
        ensures
            final(self)@ == old(self)@.pushed((i as u8) as u128, 8),
    {
        AxHasher::write_i8(self, i)
    }

    fn write_i16(&mut self, i: i16)
        ensures
            final(self)@ == old(self)@.pushed((i as u16) as u128, 16),
    {
        AxHasher::write_i16(self, i)
    }

    fn write_i32(&mut self, i: i32)
        ensures
            final(self)@ == old(self)@.mixed_word((i as u32) as u64),
    {
        AxHasher::write_i32(self, i)
    }

    fn write_i64(&mut self, i: i64)
        ensures
            final(self)@ == old(self)@.mixed_word(i as u64),
    {
        AxHasher::write_i64(self, i)
    }

    fn write_i128(&mut self, i: i128)
        ensures
            final(self)@ == old(self)@.mixed_u128(i as u128),
    {
        AxHasher::write_i128(self, i)
    }

    fn write_isize(&mut self, i: isize)
        ensures
            final(self)@ == old(self)@.mixed_word((i as usize) as u64),
    {
        AxHasher::write_isize(self, i)
    }
}

/// A builder of `AxHasher`s that all start from the same prepared seed; the
/// `BuildHasher` of `HashMap` and `HashSet`.
#[derive(Clone, Copy, Debug)]
pub struct AxBuildHasher {
    prepared_seed: u64,
}

impl View for AxBuildHasher {
    type V = u64;

    /// The accumulator every built hasher starts from.
    closed spec fn view(&self) -> u64 {
        self.prepared_seed
    }
}

/// Why a randomly seeded builder could not be made.
#[derive(Clone, Copy, Debug, PartialEq, Eq)]
pub enum SeedError {
    /// The system's random number source failed.
    Unavailable,
}

#[verifier::external_type_specification]
#[verifier::external_body]
pub struct ExRandomSourceError(getrandom::Error);

/// Calls `getrandom::u64`, which asks the system's random number source for
/// a `u64`. Nothing is claimed of the value or of when it fails.
#[verifier::external_body]
fn random_u64() -> (r: Result<u64, getrandom::Error>) {
    getrandom::u64()
}

impl AxBuildHasher {
    /// The builder for the default seed (`0`).
    pub fn new() -> (r: Self)
        ensures
            r@ == 0u64 ^ SECRET_0,
    {
        Self::with_seed(0)
    }

    /// The builder whose hashers equal `AxHasher::new_with_seed(seed)`.
    pub fn with_seed(seed: u64) -> (r: Self)
        ensures
            r@ == seed ^ SECRET_0,
    {
        Self { prepared_seed: seed ^ SECRET_0 }
    }

    /// The seed every built hasher starts its accumulator from.
    pub fn prepared_seed(&self) -> (r: u64)
        ensures
            r == self@,
    {
        self.prepared_seed
    }

    /// The builder for a seed that came from a random source, or the
    /// source's failure.
    pub fn from_random_seed(seed: Result<u64, SeedError>) -> (r: Result<Self, SeedError>)
        ensures
            match seed {
                Ok(s) => r matches Ok(b) && b@ == s ^ SECRET_0,
                Err(e) => r == Err::<Self, SeedError>(e),
            },
    {
        match seed {
            Ok(s) => Ok(Self::with_seed(s)),
            Err(e) => Err(e),
        }
    }

    /// A builder seeded from the system's random number source.
    /// Which seed is drawn, and whether the source fails, is up to the
    /// source; `from_random_seed` states what is built from either outcome.
    pub fn random() -> (r: Result<Self, SeedError>) {
        let seed = match random_u64() {
            Ok(s) => Ok(s),
            Err(_) => Err(SeedError::Unavailable),
        };
        Self::from_random_seed(seed)
    }

    /// A hasher starting from the prepared seed with an empty sponge.
    pub fn build_hasher(&self) -> (r: AxHasher)
        ensures
            r@ == (HasherState { acc: self@, sponge: 0, sponge_bits: 0 }),
    {
        assert(0u128 >> 0u8 == 0u128) by (bit_vector);
        AxHasher { acc: self.prepared_seed, sponge: 0, sponge_bits: 0 }
    }
}

impl Default for AxBuildHasher {
    /// The same builder as `AxBuildHasher::new`.
    fn default() -> (r: Self)
        ensures
            r@ == 0u64 ^ SECRET_0,
    {
        Self::new()
    }
}

impl core::hash::BuildHasher for AxBuildHasher {
    type Hasher = AxHasher;

    fn build_hasher(&self) -> (r: AxHasher)
        ensures
            r@ == (HasherState { acc: self@, sponge: 0, sponge_bits: 0 }),
    {
        AxBuildHasher::build_hasher(self)
    }
}

} // verus!
