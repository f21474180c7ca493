use chaos_magnet::producers::FrameChain;
use chaos_magnet::extraction::{ExtractionPool, EXTRACTION_THRESHOLD};
use chaos_magnet::history::BoundedHistory;
use chaos_magnet::mixing::{replay, MixingPool};
use sha2::Digest;

fn sha256_of(parts: &[&[u8]]) -> [u8; 32] {
    let mut h = sha2::Sha256::new();
    for p in parts {
        h.update(p);
    }
    h.finalize().into()
}

fn sha3_of(parts: &[&[u8]]) -> [u8; 32] {
    let mut h = sha3::Sha3_256::new();
    for p in parts {
        h.update(p);
    }
    h.finalize().into()
}

#[test]
fn threshold_feed_yields_one_extraction() {
    let mut pool = ExtractionPool::new();
    let data: Vec<u8> = (0..200u32).map(|i| i as u8).collect();
    let out = pool.add_raw_bytes(&data, 77).expect("extraction fires at the threshold");
    assert_eq!(out, sha256_of(&[&data, &0u64.to_le_bytes()]));
    assert_eq!(pool.extractions_count(), 1);
    assert_eq!(pool.accumulated_bytes(), 0);
    assert_eq!(pool.total_raw_consumed(), 200);
    assert_eq!(pool.total_extracted_bytes(), 32);
    assert_eq!(pool.last_extraction(), 77);
}

#[test]
fn below_threshold_only_buffers() {
    let mut pool = ExtractionPool::new();
    assert!(pool.add_raw_bytes(&[1u8; 120], 1).is_none());
    assert!(pool.add_raw_bytes(&[2u8; 79], 2).is_none());
    assert_eq!(pool.accumulated_bytes(), 199);
    assert_eq!(pool.extractions_count(), 0);
    let out = pool.add_raw_bytes(&[3u8; 1], 3).expect("the 200th byte fires");
    let mut all = vec![1u8; 120];
    all.extend_from_slice(&[2u8; 79]);
    all.push(3);
    assert_eq!(all.len(), EXTRACTION_THRESHOLD);
    assert_eq!(out, sha256_of(&[&all, &0u64.to_le_bytes()]));
}

#[test]
fn oversized_sample_is_extracted_whole() {
    let mut pool = ExtractionPool::new();
    let data = vec![0x5Au8; 1024];
    let out = pool.add_raw_bytes(&data, 0).expect("fires");
    assert_eq!(out, sha256_of(&[&data, &0u64.to_le_bytes()]));
    assert_eq!(pool.total_raw_consumed(), 1024);
    assert_eq!(pool.accumulated_bytes(), 0);
}

#[test]
fn same_buffer_at_different_counters_differs() {
    let mut pool = ExtractionPool::new();
    let data = vec![0x11u8; 200];
    let first = pool.add_raw_bytes(&data, 1).unwrap();
    let second = pool.add_raw_bytes(&data, 2).unwrap();
    assert_ne!(first, second);
    assert_eq!(second, sha256_of(&[&data, &1u64.to_le_bytes()]));
    assert_eq!(pool.extractions_count(), 2);
    assert_eq!(pool.total_extracted_bytes(), 64);
}

#[test]
fn mixing_is_a_sha3_chain() {
    let mut pool = MixingPool::new();
    assert_eq!(pool.state(), [0u8; 32]);
    pool.mix("TRNG", &[1, 2, 3]);
    let expected = sha3_of(&[&[0u8; 32], b"TRNG", &[1, 2, 3]]);
    assert_eq!(pool.state(), expected);
}

#[test]
fn replay_is_deterministic_and_order_dependent() {
    let a = ("AUDIO".to_string(), vec![1u8; 32]);
    let b = ("VIDEO".to_string(), vec![2u8; 32]);
    let forward = vec![a.clone(), b.clone()];
    let swapped = vec![b.clone(), a.clone()];
    let start = [9u8; 32];
    let r1 = replay(start, &forward);
    let r2 = replay(start, &forward);
    assert_eq!(r1.state(), r2.state());
    assert_ne!(r1.state(), replay(start, &swapped).state());
    let mut manual = MixingPool::from_state(start);
    manual.mix("AUDIO", &[1u8; 32]);
    manual.mix("VIDEO", &[2u8; 32]);
    assert_eq!(manual.state(), r1.state());
    assert_eq!(replay(start, &Vec::new()).state(), start);
}

#[test]
fn history_evicts_oldest() {
    let mut h: BoundedHistory<u8> = BoundedHistory::new(3);
    h.push(1);
    h.push(2);
    assert_eq!(h.to_vec(), vec![1, 2]);
    h.extend_from_slice(&[3, 4, 5]);
    assert_eq!(h.to_vec(), vec![3, 4, 5]);
    assert_eq!(h.len(), 3);
    assert_eq!(h.capacity(), 3);
    assert_eq!(h.back(), Some(&5));
    let full: BoundedHistory<u64> = BoundedHistory::filled(4, 0);
    assert_eq!(full.to_vec(), vec![0, 0, 0, 0]);
    let empty: BoundedHistory<u64> = BoundedHistory::new(2);
    assert_eq!(empty.back(), None);
}

#[test]
fn frame_chain_samples_and_masks() {
    let frame: Vec<u8> = (0..15u8).map(|i| 0xF0 | i).collect();
    let mut chain = FrameChain::new();
    let first = chain.next_sample(&frame, 0x0102030405060708);
    let mut expected = vec![0x00u8, 0x07, 0x0E];
    expected.extend_from_slice(&0x0102030405060708u64.to_le_bytes());
    assert_eq!(first, expected);
    let mask = sha3_of(&[&first]);
    let second = chain.next_sample(&frame, 0x0102030405060708);
    let masked: Vec<u8> = expected.iter().enumerate().map(|(i, b)| b ^ mask[i]).collect();
    assert_eq!(second, masked);
    let empty = FrameChain::new().next_sample(&[], 1);
    assert_eq!(empty, 1u64.to_le_bytes().to_vec());
}

#[test]
fn explicit_extract_digests_partial_buffer() {
    let mut pool = ExtractionPool::new();
    assert!(pool.add_raw_bytes(&[4u8; 50], 1).is_none());
    let out = pool.extract(8);
    assert_eq!(out, sha256_of(&[&[4u8; 50], &0u64.to_le_bytes()]));
    assert_eq!(pool.extractions_count(), 1);
    assert_eq!(pool.total_raw_consumed(), 50);
    assert_eq!(pool.accumulated_bytes(), 0);
    assert_eq!(pool.last_extraction(), 8);
}

#[test]
fn counter_bytes_are_little_endian() {
    use_le_bytes_check(0);
    use_le_bytes_check(1);
    use_le_bytes_check(0x0102_0304_0506_0708);
    use_le_bytes_check(u64::MAX);
}

fn use_le_bytes_check(n: u64) {
    assert_eq!(chaos_magnet::extraction::u64_le_bytes(n), n.to_le_bytes().to_vec());
}
