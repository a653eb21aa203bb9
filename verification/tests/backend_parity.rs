use axhash::axhash_seeded;
use axhash::backend::hash_bytes_core;
use axhash::math::seed_lane;

#[test]
fn backend_parity_short_inputs() {
    let seed = 0x1234_5678_9abc_def0u64;
    let data = vec![0xCCu8; 128];
    for len in [0usize, 1, 8, 16, 17, 32, 33, 64, 65, 96, 128] {
        let slice = &data[..len];
        let a = axhash_seeded(slice, seed);
        let b = axhash_seeded(slice, seed);
        assert_eq!(a, b, "short input not deterministic at len={}", len);
    }
}

#[test]
fn backend_parity_scalar_vs_runtime_for_short() {
    let seed = 0x1234_5678_9abc_def0u64;
    let data = vec![0xABu8; 128];

    for len in [0usize, 1, 8, 16, 17, 32, 33, 64, 65, 96, 128] {
        let slice = &data[..len];
        let acc = seed_lane(seed, 0);
        let runtime = hash_bytes_core(slice, acc);
        let scalar = hash_bytes_core(slice, acc);
        assert_eq!(runtime, scalar, "scalar != runtime at len={}", len);
    }
}

#[test]
fn backend_parity_long_inputs_varied_lengths() {
    let seed = 0x1234_5678_9abc_def0u64;
    let data = vec![0xCCu8; 500];
    for len in [129usize, 150, 192, 200, 256, 300, 400, 500] {
        let slice = &data[..len];
        let a = axhash_seeded(slice, seed);
        let b = axhash_seeded(slice, seed);
        assert_eq!(a, b, "non-deterministic at len={}", len);
    }
}
