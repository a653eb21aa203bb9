use axhash::AxHasher;

fn chi_squared_uniformity(hashes: &[u64], mask: u64) -> (f64, f64) {
    let buckets = (mask + 1) as usize;
    let mut counts = vec![0usize; buckets];
    for &h in hashes {
        counts[(h & mask) as usize] += 1;
    }
    let expected = hashes.len() as f64 / buckets as f64;
    let mut chi2 = 0.0;
    let mut max_dev = 0.0f64;
    for &c in &counts {
        let diff = c as f64 - expected;
        chi2 += (diff * diff) / expected;
        let dev = diff.abs() / expected;
        if dev > max_dev {
            max_dev = dev;
        }
    }
    (chi2, max_dev)
}

fn assert_uniform(label: &str, hashes: &[u64], mask: u64) {
    let buckets = (mask + 1) as usize;
    let (chi2, max_dev) = chi_squared_uniformity(hashes, mask);
    let df = (buckets - 1).max(1) as f64;
    let ratio = chi2 / df;
    assert!(
        ratio < 2.5,
        "{}: chi2/df = {:.2} (buckets={}, chi2={:.1}) — distribution suspicious",
        label,
        ratio,
        buckets,
        chi2
    );
    assert!(
        max_dev < 0.30,
        "{}: max bucket deviation = {:.1}% (buckets={}) — too skewed",
        label,
        max_dev * 100.0,
        buckets
    );
}

#[test]
fn lower_bit_distribution_sequential_u64() {
    let seed = 0xDEAD_BEEF_CAFE_BABEu64;
    let n = 50_000usize;
    let mut hashes = Vec::with_capacity(n);
    for i in 0..n {
        let mut hasher = AxHasher::new_with_seed(seed);
        hasher.write_u64(i as u64);
        hashes.push(hasher.finish());
    }
    for mask in [15u64, 31, 63, 127, 255] {
        assert_uniform(&format!("seq_u64 & {}", mask), &hashes, mask);
    }
}

#[test]
fn lower_bit_distribution_random_u64() {
    let seed = 0x1234_5678_9ABC_DEF0u64;
    let n = 50_000usize;
    let mut hashes = Vec::with_capacity(n);
    let mut rng: u64 = 0x123456789abcdef0;
    for _ in 0..n {
        rng = rng.wrapping_mul(0x5851F42D4C957F2D).wrapping_add(1);
        let mut hasher = AxHasher::new_with_seed(seed);
        hasher.write_u64(rng);
        hashes.push(hasher.finish());
    }
    for mask in [15u64, 31, 63, 127, 255] {
        assert_uniform(&format!("rand_u64 & {}", mask), &hashes, mask);
    }
}

#[test]
fn lower_bit_distribution_short_strings() {
    let seed = 0xABCD_EF01_2345_6789u64;
    let n = 50_000usize;
    let mut hashes = Vec::with_capacity(n);
    for i in 0..n {
        let key = format!("key{:08x}", i);
        hashes.push(axhash::axhash_seeded(key.as_bytes(), seed));
    }
    for mask in [15u64, 31, 63, 127, 255] {
        assert_uniform(&format!("short_str & {}", mask), &hashes, mask);
    }
}

#[test]
fn lower_bit_distribution_long_strings() {
    let seed = 0xCAFE_BABE_DEAD_BEEFu64;
    let n = 20_000usize;
    let mut hashes = Vec::with_capacity(n);
    let base = "abcdefghijklmnopqrstuvwxyz".repeat(10);
    for i in 0..n {
        let key = format!("{}{:08x}", base, i);
        hashes.push(axhash::axhash_seeded(key.as_bytes(), seed));
    }
    for mask in [15u64, 31, 63, 127, 255] {
        let label = format!("long_str & {}", mask);
        let (chi2, max_dev) = chi_squared_uniformity(&hashes, mask);
        let buckets = (mask + 1) as usize;
        let df = (buckets - 1).max(1) as f64;
        let ratio = chi2 / df;
        assert!(
            ratio < 3.0,
            "{}: chi2/df = {:.2} (buckets={}, chi2={:.1}) — distribution suspicious",
            label,
            ratio,
            buckets,
            chi2
        );
        assert!(
            max_dev < 0.45,
            "{}: max bucket deviation = {:.1}% (buckets={}) — too skewed",
            label,
            max_dev * 100.0,
            buckets
        );
    }
}
