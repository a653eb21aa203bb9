use axhash::bench_data::{
    ax_hash, ax_stream, concurrent_data, latency_data, splitmix, streaming_data, throughput_data,
    SplitMix, BENCH_SEED,
};
use axhash::c_api::{
    batch_len, fail_u64, hash_batch_seeded, hash_input_seeded, is_invalid_input, write_action,
    AxHashRuntimeBackend, WriteAction, MAX_BATCH,
};
use axhash::profile::{
    hash_stream_32_chunks, hash_tiny_16, hash_tiny_4, hash_tiny_8, le_bytes_u32, le_bytes_u64,
    pattern_bytes32, run_tiny_key_latency, run_tiny_key_streaming,
};
use axhash::stream::{Hasher, BUF_SIZE};
use axhash::{axhash_seeded, AxHasher, RuntimeBackend};
use core::hash::Hash;

fn std_hash<T: Hash>(value: &T) -> u64 {
    let mut h = AxHasher::new();
    value.hash(&mut h);
    h.finish()
}

#[test]
fn splitmix_reference_outputs() {
    assert_eq!(splitmix(0), 0xe220_a839_7b1d_cdaf);
    let mut g = SplitMix(0);
    assert_eq!(g.next(), 0xe220_a839_7b1d_cdaf);
    assert_eq!(g.next(), 0x6e78_9e6a_a1b9_65f4);
    assert_eq!(g.0, 0x9e37_79b9_7f4a_7c15u64.wrapping_mul(2));
}

#[test]
fn benchmark_data_sets() {
    assert_eq!(latency_data(5), vec![0, 1, 2, 3, 4]);
    assert_eq!(latency_data(300)[257], 1);
    let t = throughput_data(45);
    assert_eq!(&t[40..45], &[153, 206, 7, 60, 117]);
    let s = streaming_data();
    assert_eq!(s.len(), 4096);
    assert_eq!(s[9], (9 ^ (9 >> 3)) as u8);
    let c = concurrent_data();
    assert_eq!(c.len(), 256);
    assert_eq!(c[0], 0xAB);
    assert_eq!(c[0xAB], 0);
}

#[test]
fn benchmark_entry_points_match_the_library() {
    let data = throughput_data(1000);
    assert_eq!(ax_hash(&data), axhash_seeded(&data, BENCH_SEED));
    let mut manual = AxHasher::new_with_seed(BENCH_SEED);
    for c in data.chunks(64) {
        manual.write(c);
    }
    assert_eq!(ax_stream(&data, 64), manual.finish());
    let mut whole = AxHasher::new_with_seed(BENCH_SEED);
    whole.write(&data);
    assert_eq!(ax_stream(&data, 4096), whole.finish());
    assert_ne!(ax_stream(&data, 64), ax_stream(&data, 4096));
    assert_eq!(ax_stream(&[], 8), AxHasher::new_with_seed(BENCH_SEED).finish());
}

#[test]
fn profiler_helpers() {
    let key = pattern_bytes32(0);
    assert_eq!(&key[0..3], &[0x91, 0x76, 0x3f]);
    let mut manual = AxHasher::new();
    manual.write(&key[0..4]);
    manual.write(&key[4..8]);
    manual.write(&key[8..16]);
    manual.write(&key[16..24]);
    manual.write(&key[24..32]);
    assert_eq!(hash_stream_32_chunks(&key), manual.finish());
    let expected = hash_stream_32_chunks(&pattern_bytes32(0))
        ^ hash_stream_32_chunks(&pattern_bytes32(1))
        ^ hash_stream_32_chunks(&pattern_bytes32(2));
    assert_eq!(run_tiny_key_streaming(3), expected);
    assert_eq!(run_tiny_key_streaming(0), 0);
    assert_eq!(hash_tiny_4(&[1, 2, 3, 4]), std_hash(&[1u8, 2, 3, 4]));
    assert_eq!(hash_tiny_8(&[7; 8]), std_hash(&[7u8; 8]));
    assert_eq!(hash_tiny_16(&[9; 16]), std_hash(&[9u8; 16]));
    assert_ne!(hash_tiny_4(&[1, 2, 3, 4]), hash_tiny_4(&[1, 2, 3, 5]));
    assert_ne!(hash_tiny_4(&[1, 2, 3, 4]), AxHasher::new().finish());
}

#[test]
fn incremental_hasher_chunks_its_input() {
    let h = Hasher::new(None);
    assert_eq!(h.digest(), AxHasher::new().finish());
    let mut a = Hasher::new(Some(0x1234_5678));
    a.update(b"part-1");
    a.update(b"part-2");
    let mut b = AxHasher::new_with_seed(0x1234_5678);
    b.write(b"part-1");
    b.write(b"part-2");
    assert_eq!(a.digest(), b.finish());
    let digest = a.digest();
    a.reset(0);
    a.update(b"part-1");
    a.update(b"part-2");
    assert_ne!(digest, a.digest());

    let big = throughput_data(BUF_SIZE + 10);
    let mut c = Hasher::new(Some(5));
    c.update(&big);
    let mut d = AxHasher::new_with_seed(5);
    d.write(&big[..BUF_SIZE]);
    d.write(&big[BUF_SIZE..]);
    assert_eq!(c.digest(), d.finish());
}

#[test]
fn c_interface_rules() {
    assert!(is_invalid_input(true, 3));
    assert!(!is_invalid_input(true, 0));
    assert!(!is_invalid_input(false, 3));
    assert_eq!(fail_u64(), 0);
    assert_eq!(hash_input_seeded(None, 9), 0);
    assert_eq!(hash_input_seeded(Some(&[]), 9), axhash_seeded(&[], 9));
    assert_eq!(hash_input_seeded(Some(b"abc"), 9), axhash_seeded(b"abc", 9));
    assert_eq!(batch_len(3), 3);
    assert_eq!(batch_len(MAX_BATCH + 3), MAX_BATCH);

    let jobs: Vec<Option<&[u8]>> = vec![Some(b"one"), None, Some(&[]), Some(b"four")];
    let out = hash_batch_seeded(&jobs, 77);
    assert_eq!(
        out,
        vec![
            axhash_seeded(b"one", 77),
            0,
            axhash_seeded(&[], 77),
            axhash_seeded(b"four", 77)
        ]
    );
    let many: Vec<Option<&[u8]>> = vec![None; MAX_BATCH + 5];
    assert_eq!(hash_batch_seeded(&many, 1).len(), MAX_BATCH);

    assert_eq!(write_action(false, true, 4), WriteAction::Reject);
    assert_eq!(write_action(true, false, 0), WriteAction::Skip);
    assert_eq!(write_action(true, false, 4), WriteAction::Reject);
    assert_eq!(write_action(false, false, 4), WriteAction::Write);

    assert_eq!(AxHashRuntimeBackend::from(RuntimeBackend::Scalar), AxHashRuntimeBackend::Scalar);
    assert_eq!(AxHashRuntimeBackend::from(RuntimeBackend::X86_64AesAvx2).code(), 2);
    assert_eq!(AxHashRuntimeBackend::Aarch64AesNeon.code(), 1);
    assert_eq!(AxHashRuntimeBackend::Scalar.code(), 0);
}

#[test]
fn incremental_updates_split_at_chunk_boundaries() {
    let data = throughput_data(2 * BUF_SIZE + 100);
    let mut whole = Hasher::new(Some(3));
    whole.update(&data);
    let mut parts = Hasher::new(Some(3));
    parts.update(&data[..BUF_SIZE]);
    parts.update(&data[BUF_SIZE..]);
    assert_eq!(whole.digest(), parts.digest());
    let mut uneven = Hasher::new(Some(3));
    uneven.update(&data[..100]);
    uneven.update(&data[100..]);
    assert_ne!(whole.digest(), uneven.digest());
}

#[test]
fn tiny_key_latency_loop() {
    assert_eq!(le_bytes_u32(0x0403_0201), 0x0403_0201u32.to_le_bytes());
    assert_eq!(le_bytes_u64(0x0807_0605_0403_0201), 0x0807_0605_0403_0201u64.to_le_bytes());
    assert_eq!(run_tiny_key_latency(0), 0);
    let mut expected = 0u64;
    for i in 0..3u64 {
        let k4 = (i as u32).to_le_bytes();
        let k8 = i.wrapping_mul(0x9E37_79B9_7F4A_7C15).to_le_bytes();
        let k16 = [
            k8[0], k8[1], k8[2], k8[3], k8[4], k8[5], k8[6], k8[7], k4[0], k4[1], k4[2], k4[3], 0,
            1, 2, 3,
        ];
        expected ^= std_hash(&k4);
        expected ^= std_hash(&k8);
        expected ^= std_hash(&k16);
    }
    assert_eq!(run_tiny_key_latency(3), expected);
}
