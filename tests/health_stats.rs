use chaos_magnet::health::{
    check_health_apt, check_health_rct, passes_health_checks, APT_CUTOFF_PERCENT, RCT_CUTOFF,
};
use chaos_magnet::stats::{byte_histogram, has_zero_min_entropy, max_byte_count, min_entropy_exceeds};

fn distinct_bytes(n: usize) -> Vec<u8> {
    (0..n).map(|i| (i % 256) as u8).collect()
}

#[test]
fn rct_run_of_cutoff_fails() {
    let mut data = distinct_bytes(40);
    for b in data.iter_mut().skip(5).take(10) {
        *b = 0xAA;
    }
    assert!(!check_health_rct(&data, RCT_CUTOFF));
}

#[test]
fn rct_run_just_below_cutoff_passes() {
    let mut data = distinct_bytes(40);
    for b in data.iter_mut().skip(5).take(9) {
        *b = 0xAA;
    }
    assert!(check_health_rct(&data, RCT_CUTOFF));
}

#[test]
fn rct_empty_passes() {
    assert!(check_health_rct(&[], RCT_CUTOFF));
}

#[test]
fn rct_run_at_end_fails() {
    let mut data = distinct_bytes(30);
    data.extend_from_slice(&[7u8; 10]);
    assert!(!check_health_rct(&data, RCT_CUTOFF));
    assert!(check_health_rct(&data, 11));
}

#[test]
fn rct_cutoff_zero_rejects_any_nonempty_sample() {
    assert!(!check_health_rct(&[1, 2, 3], 0));
    assert!(check_health_rct(&[], 0));
}

#[test]
fn apt_short_buffers_fail_closed() {
    for n in 0..10 {
        let data = distinct_bytes(n);
        assert!(!check_health_apt(&data, APT_CUTOFF_PERCENT));
        assert!(!check_health_apt(&data, 100));
    }
}

#[test]
fn apt_threshold_is_strict() {
    // 4 of 10 bytes share a value: exactly 40 percent fails.
    let data = [1u8, 1, 1, 1, 2, 3, 4, 5, 6, 7];
    assert!(!check_health_apt(&data, 40));
    // 3 of 10 passes.
    let data = [1u8, 1, 1, 2, 2, 3, 4, 5, 6, 7];
    assert!(check_health_apt(&data, 40));
}

#[test]
fn health_checks_combine_both_tests() {
    assert!(passes_health_checks(&distinct_bytes(200)));
    assert!(!passes_health_checks(&[0u8; 200]));
    assert!(!passes_health_checks(&distinct_bytes(9)));
    // No long run, but one value fills half of the sample.
    let data: Vec<u8> = (0..100).map(|i| if i % 2 == 0 { 9 } else { i as u8 }).collect();
    assert!(check_health_rct(&data, RCT_CUTOFF));
    assert!(!passes_health_checks(&data));
}

#[test]
fn histogram_counts_each_value() {
    let h = byte_histogram(&[3, 3, 7, 255, 3]);
    assert_eq!(h.len(), 256);
    assert_eq!(h[3], 3);
    assert_eq!(h[7], 1);
    assert_eq!(h[255], 1);
    assert_eq!(h.iter().sum::<usize>(), 5);
    let all = byte_histogram(&distinct_bytes(256));
    assert!(all.iter().all(|&c| c == 1));
}

#[test]
fn max_count_finds_most_frequent() {
    assert_eq!(max_byte_count(&[]), 0);
    assert_eq!(max_byte_count(&[5, 6, 5, 6, 6]), 3);
    assert_eq!(max_byte_count(&distinct_bytes(256)), 1);
}

#[test]
fn single_value_buffer_has_zero_min_entropy() {
    assert!(has_zero_min_entropy(&[0x42; 64]));
    assert!(has_zero_min_entropy(&[]));
    assert!(!has_zero_min_entropy(&[1, 2]));
}

#[test]
fn min_entropy_gate() {
    // 200 distinct bytes: min-entropy log2(200) ~ 7.64 bits > 6.5.
    assert!(min_entropy_exceeds(&distinct_bytes(200), 13));
    // Peak 3 of 200: min-entropy ~ 6.06 bits.
    let data: Vec<u8> = (0..200).map(|i| (i % 67) as u8).collect();
    assert_eq!(max_byte_count(&data), 3);
    assert!(!min_entropy_exceeds(&data, 13));
    assert!(min_entropy_exceeds(&data, 12));
    // Peak 2 of 200: min-entropy ~ 6.64 bits.
    let data: Vec<u8> = (0..200).map(|i| (i % 100) as u8).collect();
    assert!(min_entropy_exceeds(&data, 13));
    assert!(!min_entropy_exceeds(&data, 14));
    // Zero min-entropy never passes, not even a zero threshold.
    assert!(!min_entropy_exceeds(&[9u8; 20], 0));
    assert!(!min_entropy_exceeds(&[], 0));
    assert!(min_entropy_exceeds(&[1, 2], 0));
    // A threshold beyond any representable sample.
    assert!(!min_entropy_exceeds(&distinct_bytes(256), 200));
}
