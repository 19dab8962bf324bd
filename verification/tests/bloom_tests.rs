use bloomfilter::filter::BloomFilter;

#[test]
fn test_bloomfilter() {
    let mut bloom_filter = BloomFilter::new(10, 3);
    bloom_filter.add(&15u32);
    assert_eq!(bloom_filter.may_contain(&15u32), true);
}

#[test]
fn fresh_filter_reports_absent() {
    let bloom_filter = BloomFilter::new(10, 3);
    assert_eq!(bloom_filter.may_contain(&15u32), false);
}

#[test]
fn fresh_filter_reports_absent_for_every_value() {
    let small = BloomFilter::new(1, 1);
    let medium = BloomFilter::new(64, 5);
    let large = BloomFilter::new(4096, 13);
    let mut v: u32 = 0;
    while v < 200 {
        assert!(!small.may_contain(&v));
        assert!(!medium.may_contain(&v));
        assert!(!large.may_contain(&v));
        v += 1;
    }
    assert!(!large.may_contain(&u32::MAX));
    assert!(!large.may_contain(&u64::MAX));
}

#[test]
fn no_false_negatives_with_interleaved_inserts() {
    let mut filter = BloomFilter::new(256, 4);
    let mut v: u32 = 0;
    while v < 50 {
        filter.add(&v);
        v += 1;
    }
    let mut w: u32 = 0;
    while w < 50 {
        assert!(filter.may_contain(&w));
        w += 1;
    }
}

#[test]
fn query_stays_true_after_more_inserts() {
    let mut filter = BloomFilter::new(128, 3);
    filter.add(&42u32);
    assert!(filter.may_contain(&42u32));
    let mut v: u32 = 1000;
    while v < 1100 {
        filter.add(&v);
        assert!(filter.may_contain(&42u32));
        v += 1;
    }
}

#[test]
fn identical_histories_answer_alike() {
    let mut first = BloomFilter::new(97, 5);
    let mut second = BloomFilter::new(97, 5);
    let mut v: u32 = 0;
    while v < 40 {
        first.add(&(v * 7 + 1));
        second.add(&(v * 7 + 1));
        v += 1;
    }
    let mut q: u32 = 0;
    while q < 500 {
        assert_eq!(first.may_contain(&q), second.may_contain(&q));
        q += 1;
    }
}

#[test]
fn false_positive_rate_near_theory() {
    let m: usize = 1000;
    let k: u32 = 4;
    let n: u32 = 100;
    let mut filter = BloomFilter::new(m, k);
    let mut v: u32 = 0;
    while v < n {
        filter.add(&v);
        v += 1;
    }
    let mut false_positives: usize = 0;
    let samples: u32 = 1000;
    let mut q: u32 = 10_000;
    while q < 10_000 + samples {
        if filter.may_contain(&q) {
            false_positives += 1;
        }
        q += 1;
    }
    let rate: f64 = false_positives as f64 / samples as f64;
    let exponent: f64 = -((k as f64) * (n as f64)) / (m as f64);
    let theory: f64 = (1.0 - exponent.exp()).powi(k as i32);
    assert!((rate - theory).abs() < 0.04, "rate {} vs theory {}", rate, theory);
}

#[test]
fn u64_values_are_supported() {
    let mut filter = BloomFilter::new(512, 6);
    filter.add(&0xdead_beef_dead_beefu64);
    filter.add(&7u64);
    assert!(filter.may_contain(&0xdead_beef_dead_beefu64));
    assert!(filter.may_contain(&7u64));
    let fresh = BloomFilter::new(512, 6);
    assert!(!fresh.may_contain(&7u64));
}

#[test]
fn zero_probe_count_always_reports_present() {
    let mut filter = BloomFilter::new(5, 0);
    assert!(filter.may_contain(&3u32));
    filter.add(&9u32);
    assert!(filter.may_contain(&1234u32));
}

#[test]
fn single_bit_array_collides_everything() {
    let mut filter = BloomFilter::new(1, 2);
    assert!(!filter.may_contain(&2u32));
    filter.add(&1u32);
    assert!(filter.may_contain(&2u32));
}

#[test]
fn offsets_wrap_at_the_upper_bound() {
    let mut filter = BloomFilter::new(64, 8);
    filter.add(&u32::MAX);
    filter.add(&u64::MAX);
    assert!(filter.may_contain(&u32::MAX));
    assert!(filter.may_contain(&u64::MAX));
}
