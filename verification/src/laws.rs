//! Properties that relate several operations of the hasher, and what the
//! seed derivation and the long-input byte hash do with their inputs.

use vstd::prelude::*;

use crate::constants::{
    SECRET_0, SECRET_1, STRIPE_SECRET_0, STRIPE_SECRET_1, STRIPE_SECRET_2, STRIPE_SECRET_3,
};
use crate::backend::{
    le_u64_at, spec_absorb_blocks, spec_hash_bytes, spec_hash_bytes_long, spec_initial_lanes,
    spec_len_mix, spec_mix_block, Lanes,
};
use crate::hasher::{HashOp, HasherState};
use crate::constants::{secret, stripe_secret};
use crate::math::{fold_mul, rotl, rotr, spec_seed_lane};

verus! {

#[verifier::rlimit(40)]
proof fn lemma_pack_two(x: u128, a: u128, b: u128, k: u128, w: u128)
    by (bit_vector)
    requires
        k + 2 * w <= 128,
        w == 8 || w == 16,
        a >> w == 0,
        b >> w == 0,
    ensures
        (x | (a << k)) | (b << (k + w)) == x | ((a | (b << w)) << k),
        (a | (b << w)) >> (2 * w) == 0,
{
}

/// Flushing is idempotent and does not change the digest.
pub proof fn law_flush_keeps_digest(s: HasherState)
    ensures
        s.flushed().flushed() == s.flushed(),
        s.flushed().digest() == s.digest(),
{
}

/// Every hasher operation keeps the state well formed.
pub proof fn law_operations_keep_wf(s: HasherState, op: HashOp)
    requires
        s.wf(),
    ensures
        s.apply(op).wf(),
{
    assert(0u128 >> 0u8 == 0u128) by (bit_vector);
    let t = s.flushed();
    assert(t.wf());
    match op {
        HashOp::U8(i) => {
            let v = i as u128;
            assert(v >> 8u128 == 0) by (bit_vector)
                requires
                    v == i as u128,
            ;
            lemma_push_keeps_wf(s, v, 8);
        },
        HashOp::U16(i) => {
            let v = i as u128;
            assert(v >> 16u128 == 0) by (bit_vector)
                requires
                    v == i as u128,
            ;
            lemma_push_keeps_wf(s, v, 16);
        },
        _ => {},
    }
}

proof fn lemma_push_keeps_wf(s: HasherState, v: u128, bits: u8)
    requires
        s.wf(),
        bits == 8 || bits == 16 || bits == 32 || bits == 64,
        v >> (bits as u128) == 0,
    ensures
        s.pushed(v, bits).wf(),
{
    assert(0u128 >> 0u8 == 0u128) by (bit_vector);
    let t = if s.sponge_bits + bits > 128 {
        s.flushed()
    } else {
        s
    };
    assert(t.wf());
    let k = t.sponge_bits;
    let x = t.sponge;
    if k + bits < 128 {
        assert(((x | (v << k)) >> ((k + bits) as u8)) == 0) by (bit_vector)
            requires
                k + bits < 128,
                bits == 8 || bits == 16 || bits == 32 || bits == 64,
                x >> k == 0,
                v >> (bits as u128) == 0,
        ;
    }
}

/// Buffering a `bits`-bit value packs it above the sponge's occupied bits
/// and leaves the accumulator alone when it fits; when it does not fit, the
/// sponge is folded into the accumulator first and the value alone fills
/// the new sponge. Either way the state stays well formed.
pub proof fn law_push_packs_or_flushes(s: HasherState, v: u128, bits: u8)
    requires
        s.wf(),
        bits == 8 || bits == 16 || bits == 32 || bits == 64,
        v >> (bits as u128) == 0,
    ensures
        s.sponge_bits + bits <= 128 ==> {
            &&& s.pushed(v, bits).acc == s.acc
            &&& s.pushed(v, bits).sponge == s.sponge | (v << s.sponge_bits)
            &&& s.pushed(v, bits).sponge_bits == s.sponge_bits + bits
        },
        s.sponge_bits + bits > 128 ==> {
            &&& s.pushed(v, bits).acc == s.flushed().acc
            &&& s.pushed(v, bits).sponge == v
            &&& s.pushed(v, bits).sponge_bits == bits
        },
        s.pushed(v, bits).wf(),
{
    lemma_push_keeps_wf(s, v, bits);
    assert(0u128 | (v << 0u8) == v) by (bit_vector);
}

/// Every sequence of hasher operations keeps the state well formed.
pub proof fn law_operation_sequences_keep_wf(s: HasherState, ops: Seq<HashOp>)
    requires
        s.wf(),
    ensures
        s.apply_all(ops).wf(),
    decreases ops.len(),
{
    if ops.len() > 0 {
        law_operation_sequences_keep_wf(s, ops.drop_last());
        law_operations_keep_wf(s.apply_all(ops.drop_last()), ops.last());
    }
}

/// Writing the empty byte string changes nothing: neither the state nor,
/// therefore, the digest.
pub proof fn law_empty_write_is_a_no_op(s: HasherState)
    ensures
        s.written(Seq::empty()) == s,
        s.written(Seq::empty()).digest() == s.digest(),
{
}

/// Two `u8` writes buffer the same sponge as one `u16` write of the two
/// bytes in little-endian order, when the sponge has room for both.
pub proof fn law_two_u8_writes_are_one_u16_write(s: HasherState, a: u8, b: u8)
    requires
        s.wf(),
        s.sponge_bits + 16 <= 128,
    ensures
        s.pushed(a as u128, 8).pushed(b as u128, 8) == s.pushed(
            ((a as u16) | ((b as u16) << 8u16)) as u128,
            16,
        ),
{
    let x = s.sponge;
    let k = s.sponge_bits as u128;
    let av = a as u128;
    let bv = b as u128;
    assert(av >> 8u128 == 0 && bv >> 8u128 == 0) by (bit_vector)
        requires
            av == a as u128,
            bv == b as u128,
    ;
    lemma_pack_two(x, av, bv, k, 8);
    assert(((a as u16) | ((b as u16) << 8u16)) as u128 == av | (bv << 8u128)) by (bit_vector)
        requires
            av == a as u128,
            bv == b as u128,
    ;
    let kb: u8 = s.sponge_bits;
    assert((x | (av << kb)) | (bv << ((kb + 8) as u8)) == x | ((av | (bv << 8u128)) << kb))
        by (bit_vector)
        requires
            (x | (av << k)) | (bv << (k + 8)) == x | ((av | (bv << 8u128)) << k),
            k == kb as u128,
            kb + 16 <= 128,
    ;
}

/// On a hasher whose sponge is empty, two `u16` writes followed by `finish`
/// give the same digest as one `u32` write of the two halves in
/// little-endian order followed by `finish`.
pub proof fn law_two_u16_writes_digest_as_one_u32_write(s: HasherState, a: u16, b: u16)
    requires
        s.wf(),
        s.sponge_bits == 0,
    ensures
        s.pushed(a as u128, 16).pushed(b as u128, 16).digest() == s.mixed_word(
            ((a as u32) | ((b as u32) << 16u32)) as u64,
        ).digest(),
{
    let x0 = s.sponge;
    assert(x0 >> 0u8 == 0 ==> x0 == 0) by (bit_vector);
    let av = a as u128;
    let bv = b as u128;
    let w: u64 = ((a as u32) | ((b as u32) << 16u32)) as u64;
    let p = s.pushed(av, 16).pushed(bv, 16);
    assert(p.sponge == (0u128 | (av << 0u8)) | (bv << 16u8));
    assert(p.sponge_bits == 32);
    assert(((0u128 | (av << 0u8)) | (bv << 16u8)) as u64 == w && (((0u128 | (av << 0u8)) | (bv
        << 16u8)) >> 64u128) as u64 == 0) by (bit_vector)
        requires
            av == a as u128,
            bv == b as u128,
            w == ((a as u32) | ((b as u32) << 16u32)) as u64,
    ;
    let acc = s.acc;
    assert(w ^ acc == acc ^ w && 0u64 ^ SECRET_1 == SECRET_1) by (bit_vector);
    assert(p.digest() == fold_mul(w ^ acc, 0u64 ^ SECRET_1));
}

/// A hasher built by `AxBuildHasher::with_seed(seed)` (prepared seed
/// `seed ^ SECRET_0`) is in the same state as `AxHasher::new_with_seed(seed)`;
/// `AxBuildHasher::new()` and `AxHasher::new()` are the seed-`0` cases.
pub proof fn law_built_hasher_is_seeded_hasher(seed: u64)
    ensures
        (HasherState { acc: seed ^ SECRET_0, sponge: 0, sponge_bits: 0 }) == HasherState::seeded(
            seed,
        ),
        HasherState::seeded(0) == (HasherState { acc: SECRET_0, sponge: 0, sponge_bits: 0 }),
{
    assert(0u64 ^ SECRET_0 == SECRET_0) by (bit_vector);
}

/// `write_u32(i)` and `write_u64(i as u64)` lead to the same state.
pub proof fn law_u32_write_is_widened_u64_write(s: HasherState, i: u32)
    ensures
        s.apply(HashOp::U32(i)) == s.apply(HashOp::U64(i as u64)),
{
}

/// Writing a byte string in chunks at least as long as the string is one
/// ordinary write of it; the empty string is no write at all.
pub proof fn law_one_chunk_is_one_write(s: HasherState, b: Seq<u8>, chunk: nat)
    requires
        chunk > 0,
        b.len() <= chunk,
    ensures
        b.len() > 0 ==> s.written_chunks(b, chunk) == s.written(b),
        b.len() == 0 ==> s.written_chunks(b, chunk) == s,
{
}

/// Writing `a ++ b` in chunks of `chunk` bytes, where `a` is a whole number
/// of chunks, is writing `a` in chunks and then `b` in chunks.
pub proof fn law_chunked_writes_split_at_chunk_boundaries(
    s: HasherState,
    a: Seq<u8>,
    b: Seq<u8>,
    chunk: nat,
)
    requires
        chunk > 0,
        a.len() % chunk == 0,
    ensures
        s.written_chunks(a + b, chunk) == s.written_chunks(a, chunk).written_chunks(b, chunk),
    decreases a.len(),
{
    if a.len() == 0 {
        assert(a + b =~= b);
    } else {
        assert(a.len() >= chunk) by {
            vstd::arithmetic::div_mod::lemma_mod_self_0(chunk as int);
            if a.len() < chunk {
                vstd::arithmetic::div_mod::lemma_small_mod(a.len(), chunk);
            }
        }
        let rest = a.skip(chunk as int);
        assert((a + b).take(chunk as int) =~= a.take(chunk as int));
        assert((a + b).skip(chunk as int) =~= rest + b);
        assert(rest.len() % chunk == 0) by {
            vstd::arithmetic::div_mod::lemma_mod_sub_multiples_vanish(a.len() as int, chunk as int);
        }
        let t = s.written(a.take(chunk as int));
        law_chunked_writes_split_at_chunk_boundaries(t, rest, b, chunk);
        if a.len() == chunk {
            assert(rest.len() == 0);
            assert(a.take(chunk as int) =~= a);
        }
    }
}

/// Applying `ops1 ++ ops2` is applying `ops1`, then `ops2` to the result.
pub proof fn law_operation_sequences_compose(s: HasherState, ops1: Seq<HashOp>, ops2: Seq<HashOp>)
    ensures
        s.apply_all(ops1 + ops2) == s.apply_all(ops1).apply_all(ops2),
    decreases ops2.len(),
{
    if ops2.len() == 0 {
        assert(ops1 + ops2 =~= ops1);
    } else {
        assert((ops1 + ops2).drop_last() =~= ops1 + ops2.drop_last());
        assert((ops1 + ops2).last() == ops2.last());
        law_operation_sequences_compose(s, ops1, ops2.drop_last());
    }
}

/// Folding the sponge into the accumulator uses all 128 sponge bits: a
/// non-empty sponge is split into its low and high 64-bit halves, the low
/// half is XORed into the accumulator and the high half into `SECRET_1`,
/// and the two are folded together; the sponge is then empty. The digest
/// is the accumulator so obtained (the accumulator itself when the sponge
/// is empty).
pub proof fn law_flush_folds_the_whole_sponge(s: HasherState)
    requires
        s.wf(),
    ensures
        s.sponge_bits > 0 ==> s.flushed().acc == fold_mul(
            ((s.sponge % 0x1_0000_0000_0000_0000) as u64) ^ s.acc,
            ((s.sponge / 0x1_0000_0000_0000_0000) as u64) ^ SECRET_1,
        ),
        s.sponge_bits > 0 ==> s.digest() == fold_mul(
            ((s.sponge % 0x1_0000_0000_0000_0000) as u64) ^ s.acc,
            ((s.sponge / 0x1_0000_0000_0000_0000) as u64) ^ SECRET_1,
        ),
        s.sponge_bits == 0 ==> s.digest() == s.acc,
        s.flushed().sponge_bits == 0,
        s.flushed().sponge == 0,
{
    let x = s.sponge;
    assert(x as u64 == (x % 0x1_0000_0000_0000_0000) as u64) by (bit_vector);
    assert((x >> 64u128) as u64 == (x / 0x1_0000_0000_0000_0000) as u64) by (bit_vector);
    if s.sponge_bits == 0 {
        assert(x >> 0u8 == x) by (bit_vector);
    }
}

/// Writing a non-empty byte string first flushes the sponge and then hashes
/// the bytes into the flushed accumulator, leaving the sponge empty; so a
/// write after an explicit flush is the same write.
pub proof fn law_write_flushes_then_hashes(s: HasherState, b: Seq<u8>)
    requires
        s.wf(),
        b.len() > 0,
    ensures
        s.written(b).acc == spec_hash_bytes(b, s.flushed().acc),
        s.written(b).sponge_bits == 0,
        s.written(b).sponge == 0,
        s.written(b) == s.flushed().written(b),
{
    law_flush_folds_the_whole_sponge(s);
    law_flush_keeps_digest(s);
}

/// Writing a 64-bit word (and so a `u32`, `usize` or signed word) first
/// flushes the sponge and then folds the word into the flushed accumulator
/// with `SECRET_1`, leaving the sponge empty; a 128-bit word folds its low
/// half into the flushed accumulator and its high half into `SECRET_1`.
pub proof fn law_word_writes_flush_then_fold(s: HasherState, w: u64, v: u128)
    requires
        s.wf(),
    ensures
        s.mixed_word(w).acc == fold_mul(s.flushed().acc ^ w, SECRET_1),
        s.mixed_word(w).sponge_bits == 0,
        s.mixed_word(w).sponge == 0,
        s.mixed_word(w) == s.flushed().mixed_word(w),
        s.mixed_u128(v).acc == fold_mul(
            ((v % 0x1_0000_0000_0000_0000) as u64) ^ s.flushed().acc,
            ((v / 0x1_0000_0000_0000_0000) as u64) ^ SECRET_1,
        ),
        s.mixed_u128(v).sponge_bits == 0,
        s.mixed_u128(v) == s.flushed().mixed_u128(v),
{
    law_flush_folds_the_whole_sponge(s);
    law_flush_keeps_digest(s);
    assert(v as u64 == (v % 0x1_0000_0000_0000_0000) as u64) by (bit_vector);
    assert((v >> 64u128) as u64 == (v / 0x1_0000_0000_0000_0000) as u64) by (bit_vector);
}

/// The word a seed contributes to a lane keeps every bit of the seed: it is
/// the seed rotated left by `17 * lane + 7`, so rotating it back right by
/// the same amount gives the seed again, and the lane's accumulator is that
/// word XORed with the lane's secret and folded with its stripe secret.
/// Seeds that differ anywhere, their top bits included, give different
/// words.
pub proof fn law_seed_word_keeps_every_seed_bit(seed: u64, lane: int)
    requires
        0 <= lane < 4,
    ensures
        exists|w: u64|
            #![trigger rotr(w, (lane * 17 + 7) as u32)]
            rotr(w, (lane * 17 + 7) as u32) == seed && spec_seed_lane(seed, lane) == fold_mul(
                w ^ secret(lane),
                stripe_secret(lane),
            ),
{
    let a: u32 = (lane * 17 + 7) as u32;
    let w = rotl(seed, a);
    assert(a % 64 != 0);
    let k: u32 = a % 64;
    assert(1 <= k < 64);
    assert(((((seed << k) | (seed >> ((64 - k) as u32))) >> k) | (((seed << k) | (seed >> ((64
        - k) as u32))) << ((64 - k) as u32))) == seed) by (bit_vector)
        requires
            1 <= k < 64,
    ;
    assert(rotr(w, a) == seed);
}

/// The whole 128-byte blocks of `b`, in order: block `i` is
/// `b[128 * i .. 128 * i + 128]`.
pub open spec fn whole_blocks(b: Seq<u8>) -> Seq<Seq<u8>> {
    Seq::new(b.len() / 128, |i: int| b.subrange(128 * i, 128 * i + 128))
}

/// The lanes after mixing each 128-byte block of `blocks` in turn, each
/// taken on its own.
pub open spec fn mix_each_block(st: Lanes, blocks: Seq<Seq<u8>>) -> Lanes
    decreases blocks.len(),
{
    if blocks.len() == 0 {
        st
    } else {
        spec_mix_block(mix_each_block(st, blocks.drop_last()), blocks.last(), 0)
    }
}

/// The long-input digest of lanes `st` for an input `b` hashed with `acc`:
/// the lanes folded in pairs, then with the length and the accumulator.
pub open spec fn long_lanes_digest(st: Lanes, b: Seq<u8>, acc: u64) -> u64 {
    let x = fold_mul(st.s0 ^ STRIPE_SECRET_0, st.s1 ^ STRIPE_SECRET_1);
    let y = fold_mul(st.s2 ^ STRIPE_SECRET_2, st.s3 ^ STRIPE_SECRET_3);
    fold_mul(x ^ rotl(spec_len_mix(b), 17), y ^ rotl(acc, 9))
}

/// Mixing the block at `off` of `b` is mixing the 128 bytes found there.
proof fn lemma_mix_block_reads_its_block(st: Lanes, b: Seq<u8>, off: int)
    requires
        0 <= off,
        off + 128 <= b.len(),
    ensures
        spec_mix_block(st, b, off) == spec_mix_block(st, b.subrange(off, off + 128), 0),
{
    reveal(spec_mix_block);
    let c = b.subrange(off, off + 128);
    assert forall|j: int| 0 <= j < 128 implies #[trigger] c[j] == b[off + j] by {}
    assert forall|j: int| 0 <= j < 128 && j % 8 == 0 implies #[trigger] le_u64_at(c, j)
        == le_u64_at(b, off + j) by {
        assert(c[j] == b[off + j]);
        assert(c[j + 1] == b[off + j + 1]);
        assert(c[j + 2] == b[off + j + 2]);
        assert(c[j + 3] == b[off + j + 3]);
        assert(c[j + 4] == b[off + j + 4]);
        assert(c[j + 5] == b[off + j + 5]);
        assert(c[j + 6] == b[off + j + 6]);
        assert(c[j + 7] == b[off + j + 7]);
    }
    assert(le_u64_at(c, 0) == le_u64_at(b, off));
    assert(le_u64_at(c, 8) == le_u64_at(b, off + 8));
    assert(le_u64_at(c, 16) == le_u64_at(b, off + 16));
    assert(le_u64_at(c, 24) == le_u64_at(b, off + 24));
    assert(le_u64_at(c, 32) == le_u64_at(b, off + 32));
    assert(le_u64_at(c, 40) == le_u64_at(b, off + 40));
    assert(le_u64_at(c, 48) == le_u64_at(b, off + 48));
    assert(le_u64_at(c, 56) == le_u64_at(b, off + 56));
    assert(le_u64_at(c, 64) == le_u64_at(b, off + 64));
    assert(le_u64_at(c, 72) == le_u64_at(b, off + 72));
    assert(le_u64_at(c, 80) == le_u64_at(b, off + 80));
    assert(le_u64_at(c, 88) == le_u64_at(b, off + 88));
    assert(le_u64_at(c, 96) == le_u64_at(b, off + 96));
    assert(le_u64_at(c, 104) == le_u64_at(b, off + 104));
    assert(le_u64_at(c, 112) == le_u64_at(b, off + 112));
    assert(le_u64_at(c, 120) == le_u64_at(b, off + 120));
}

/// Absorbing the first `k` blocks of `b` is mixing its first `k` whole
/// blocks, each on its own, in order.
proof fn lemma_absorb_is_each_block(st: Lanes, b: Seq<u8>, k: nat)
    requires
        k <= b.len() / 128,
    ensures
        spec_absorb_blocks(st, b, k) == mix_each_block(st, whole_blocks(b).take(k as int)),
    decreases k,
{
    if k > 0 {
        let km1 = (k - 1) as nat;
        let off: int = km1 as int * 128;
        lemma_absorb_is_each_block(st, b, km1);
        let blocks = whole_blocks(b).take(k as int);
        assert(blocks.drop_last() =~= whole_blocks(b).take(km1 as int));
        assert(off + 128 <= b.len()) by (nonlinear_arith)
            requires
                km1 < b.len() / 128,
                off == km1 * 128,
        ;
        assert(blocks.last() == b.subrange(off, off + 128));
        lemma_mix_block_reads_its_block(spec_absorb_blocks(st, b, km1), b, off);
    }
}

/// The long-input hash reads every byte: for an input of at least 128
/// bytes it mixes each of the `len / 128` whole 128-byte blocks in order,
/// then the last 128 bytes, into the lanes started from `acc`, and folds
/// the result with the length and `acc`.
pub proof fn law_long_hash_absorbs_every_block(b: Seq<u8>, acc: u64)
    requires
        b.len() >= 128,
    ensures
        spec_hash_bytes_long(b, acc) == long_lanes_digest(
            mix_each_block(
                spec_initial_lanes(acc),
                whole_blocks(b).push(b.subrange(b.len() - 128, b.len() as int)),
            ),
            b,
            acc,
        ),
{
    let n = b.len() / 128;
    lemma_absorb_is_each_block(spec_initial_lanes(acc), b, n);
    assert(whole_blocks(b).take(n as int) =~= whole_blocks(b));
    let all = whole_blocks(b).push(b.subrange(b.len() - 128, b.len() as int));
    assert(all.drop_last() =~= whole_blocks(b));
    lemma_mix_block_reads_its_block(
        spec_absorb_blocks(spec_initial_lanes(acc), b, n),
        b,
        b.len() - 128,
    );
}

} // verus!
