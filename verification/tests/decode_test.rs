use simple_sensors::frame::{checksum_byte, decode_frame_bytes, parse_byte};
use simple_sensors::threshold::determine_tick_threshold;

/// Pulse durations for a frame carrying the four payload bytes and
/// their checksum, with a per-pulse jitter pattern of up to one tick in
/// either direction.
fn jittered_frame(bytes: [u8; 4], short_base: u64, long_base: u64) -> Vec<u64> {
    let checksum = checksum_byte_of(bytes);
    let mut ticks: Vec<u64> = Vec::new();
    let all = [bytes[0], bytes[1], bytes[2], bytes[3], checksum];
    let jitter: [i64; 5] = [-1, 0, 1, 1, -1];
    for (i, byte) in all.iter().enumerate() {
        for k in 0..8 {
            let bit = (byte >> (7 - k)) & 1 == 1;
            let base = if bit { long_base } else { short_base };
            let t = (base as i64 + jitter[(i + k) % 5]) as u64;
            ticks.push(t);
        }
    }
    ticks
}

fn checksum_byte_of(bytes: [u8; 4]) -> u8 {
    (bytes[0] as u16 + bytes[1] as u16 + bytes[2] as u16 + bytes[3] as u16) as u8
}

#[test]
fn all_zero_frame_decodes_to_zero() {
    // Every pulse short: payload all zero, checksum zero, accepted.
    let ticks: Vec<u64> = vec![7; 40];
    let (bytes, parity, threshold) = decode_frame_bytes(&ticks);
    assert_eq!(bytes, [0, 0, 0, 0]);
    assert_eq!(parity, 0);
    assert_eq!(parity, checksum_byte(bytes[0], bytes[1], bytes[2], bytes[3]));
    assert!(threshold >= 7);
}

#[test]
fn jittered_frame_round_trips() {
    let payload: [u8; 4] = [0x5A, 0x33, 0x0F, 0x81];
    let ticks = jittered_frame(payload, 10, 50);
    let (bytes, parity, _) = decode_frame_bytes(&ticks);
    assert_eq!(bytes, payload);
    assert_eq!(parity, checksum_byte_of(payload));
}

#[test]
fn jittered_frame_round_trips_sparse_ones() {
    let payload: [u8; 4] = [0x00, 0x00, 0x00, 0x01];
    let ticks = jittered_frame(payload, 30, 200);
    let (bytes, parity, _) = decode_frame_bytes(&ticks);
    assert_eq!(bytes, payload);
    assert_eq!(parity, checksum_byte_of(payload));
}

#[test]
fn flipped_bit_breaks_checksum() {
    // Corrupt one payload bit without updating the checksum byte: the
    // parity comparison must fail, for every bit of every payload byte.
    let payload: [u8; 4] = [0x42, 0x07, 0x19, 0xA0];
    for byte_index in 0..4 {
        for k in 0..8u8 {
            let mut corrupted = payload;
            corrupted[byte_index] ^= 1 << k;
            let ticks = jittered_frame(corrupted, 10, 50);
            // Re-stamp the stale checksum of the uncorrupted payload.
            let mut with_old_checksum = ticks.clone();
            let old_checksum = checksum_byte_of(payload);
            for bit in 0..8 {
                let set = (old_checksum >> (7 - bit)) & 1 == 1;
                with_old_checksum[32 + bit] = if set { 50 } else { 10 };
            }
            let (bytes, parity, _) = decode_frame_bytes(&with_old_checksum);
            assert_eq!(bytes, corrupted);
            assert_ne!(parity, checksum_byte(bytes[0], bytes[1], bytes[2], bytes[3]));
        }
    }
}

#[test]
fn threshold_of_single_cluster_is_midpoint() {
    let ticks: Vec<u64> = vec![10, 10, 10, 10, 10, 10, 10, 10, 10, 10];
    assert_eq!(determine_tick_threshold(&ticks), 10);
}

#[test]
fn threshold_splits_two_clusters() {
    let mut ticks: Vec<u64> = Vec::new();
    for i in 0..40u64 {
        ticks.push(if i % 4 == 0 { 50 } else { 10 });
    }
    let threshold = determine_tick_threshold(&ticks);
    assert!(threshold >= 10 && threshold < 49, "threshold = {}", threshold);
}

#[test]
fn parse_byte_reads_most_significant_bit_first() {
    let ticks: Vec<u64> = vec![9, 2, 2, 2, 9, 2, 2, 9];
    assert_eq!(parse_byte(&ticks, 0, 5), 0b1000_1001);
}
