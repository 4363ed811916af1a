//! Frame assembly and checksum validation.
//!
//! A byte is assembled from eight consecutive pulse durations, most
//! significant bit first, by comparing each duration against the shared
//! per-read threshold. A frame carries four payload bytes followed by a
//! checksum byte: the low eight bits of the sum of the payload bytes.

use vstd::prelude::*;

use crate::threshold::determine_tick_threshold;
use crate::threshold::lemma_threshold_separates;
use crate::threshold::spec_threshold;

verus! {

/// The additive integrity byte of the frame format: the low eight bits
/// of the sum of the four payload bytes.
pub open spec fn spec_checksum(b0: u8, b1: u8, b2: u8, b3: u8) -> int {
    (b0 + b1 + b2 + b3) % 256
}

/// Computes the checksum byte for four payload bytes.
pub fn checksum_byte(b0: u8, b1: u8, b2: u8, b3: u8) -> (r: u8)
    ensures
        r == spec_checksum(b0, b1, b2, b3),
{
    let sum: u16 = b0 as u16 + b1 as u16 + b2 as u16 + b3 as u16;
    (sum % 256) as u8
}

/// Value of the `n` leading bits of the byte whose pulses start at
/// `start`, most significant bit first: a pulse longer than the
/// threshold reads as a one bit.
pub open spec fn byte_bits(s: Seq<u64>, thr: int, start: int, n: int) -> int
    decreases n,
{
    if n <= 0 {
        0
    } else {
        2 * byte_bits(s, thr, start, n - 1) + if s[start + n - 1] > thr {
            1int
        } else {
            0int
        }
    }
}

/// The byte encoded by the eight pulses starting at `start`.
pub open spec fn spec_parse_byte(s: Seq<u64>, thr: int, start: int) -> int {
    byte_bits(s, thr, start, 8)
}

/// The partial byte value always fits in the processed bit count.
proof fn lemma_byte_bits_bound(s: Seq<u64>, thr: int, start: int, n: int)
    requires
        0 <= n <= 8,
    ensures
        0 <= byte_bits(s, thr, start, n) < 256,
        n < 8 ==> byte_bits(s, thr, start, n) < 128,
    decreases n,
{
    if n > 0 {
        lemma_byte_bits_bound_aux(s, thr, start, n);
    }
}

/// `byte_bits` over `n` bits is below two to the `n`.
proof fn lemma_byte_bits_bound_aux(s: Seq<u64>, thr: int, start: int, n: int)
    requires
        0 <= n <= 8,
    ensures
        0 <= byte_bits(s, thr, start, n),
        n <= 0 ==> byte_bits(s, thr, start, n) < 1,
        n == 1 ==> byte_bits(s, thr, start, n) < 2,
        n == 2 ==> byte_bits(s, thr, start, n) < 4,
        n == 3 ==> byte_bits(s, thr, start, n) < 8,
        n == 4 ==> byte_bits(s, thr, start, n) < 16,
        n == 5 ==> byte_bits(s, thr, start, n) < 32,
        n == 6 ==> byte_bits(s, thr, start, n) < 64,
        n == 7 ==> byte_bits(s, thr, start, n) < 128,
        n == 8 ==> byte_bits(s, thr, start, n) < 256,
    decreases n,
{
    if n > 0 {
        lemma_byte_bits_bound_aux(s, thr, start, n - 1);
    }
}

/// Assembles one byte from eight consecutive pulse durations, most
/// significant bit first, using the shared threshold.
pub fn parse_byte(bit_ticks: &Vec<u64>, start: usize, threshold: u64) -> (r: u8)
    requires
        start + 8 <= bit_ticks@.len(),
    ensures
        r == spec_parse_byte(bit_ticks@, threshold as int, start as int),
{
    let n = bit_ticks.len();
    let mut byte: u16 = 0;
    let mut i: usize = 0;
    while i < 8
        invariant
            0 <= i <= 8,
            n == bit_ticks@.len(),
            start + 8 <= n,
            byte == byte_bits(bit_ticks@, threshold as int, start as int, i as int),
            byte < 256,
        decreases 8 - i,
    {
        proof {
            lemma_byte_bits_bound(bit_ticks@, threshold as int, start as int, i as int);
        }
        let bit: u16 = if bit_ticks[start + i] > threshold {
            1
        } else {
            0
        };
        byte = byte * 2 + bit;
        i = i + 1;
        proof {
            lemma_byte_bits_bound(bit_ticks@, threshold as int, start as int, i as int);
        }
    }
    byte as u8
}

/// The five bytes of a frame, decoded against the frame's own adaptive
/// threshold: four payload bytes and the received checksum byte.
pub open spec fn spec_frame_bytes(ticks: Seq<u64>) -> (int, int, int, int, int) {
    let thr = spec_threshold(ticks);
    (
        spec_parse_byte(ticks, thr, 0),
        spec_parse_byte(ticks, thr, 8),
        spec_parse_byte(ticks, thr, 16),
        spec_parse_byte(ticks, thr, 24),
        spec_parse_byte(ticks, thr, 32),
    )
}

/// Whether the received checksum byte matches the payload bytes.
pub open spec fn spec_frame_checksum_ok(ticks: Seq<u64>) -> bool {
    let b = spec_frame_bytes(ticks);
    b.4 == (b.0 + b.1 + b.2 + b.3) % 256
}

/// Decodes a forty-pulse frame into its five bytes. The caller is left
/// to validate the checksum so that the two sensor variants can apply
/// their own acceptance rules.
pub fn decode_frame_bytes(bit_ticks: &Vec<u64>) -> (r: ([u8; 4], u8, u64))
    requires
        bit_ticks@.len() == 40,
    ensures
        ({
            let b = spec_frame_bytes(bit_ticks@);
            &&& r.0@[0] == b.0
            &&& r.0@[1] == b.1
            &&& r.0@[2] == b.2
            &&& r.0@[3] == b.3
            &&& r.1 == b.4
            &&& r.2 == spec_threshold(bit_ticks@)
        }),
{
    let threshold = determine_tick_threshold(bit_ticks);
    let b0 = parse_byte(bit_ticks, 0, threshold);
    let b1 = parse_byte(bit_ticks, 8, threshold);
    let b2 = parse_byte(bit_ticks, 16, threshold);
    let b3 = parse_byte(bit_ticks, 24, threshold);
    let parity = parse_byte(bit_ticks, 32, threshold);
    let bytes = [b0, b1, b2, b3];
    (bytes, parity, threshold)
}

/// Bit `k` of a byte as it travels in a frame, most significant bit
/// first.
pub open spec fn msb_bit(byte: u8, k: int) -> bool {
    (byte >> ((7 - k) as u8)) & 1 == 1
}

/// The `j`-th of the forty bits of a frame that carries the payload
/// bytes `b0` to `b3` followed by their checksum byte.
pub open spec fn frame_bit(b0: u8, b1: u8, b2: u8, b3: u8, j: int) -> bool {
    if j < 8 {
        msb_bit(b0, j)
    } else if j < 16 {
        msb_bit(b1, j - 8)
    } else if j < 24 {
        msb_bit(b2, j - 16)
    } else if j < 32 {
        msb_bit(b3, j - 24)
    } else {
        msb_bit((spec_checksum(b0, b1, b2, b3)) as u8, j - 32)
    }
}

/// Eight pulses that classify exactly like a byte's bits parse back to
/// that byte.
proof fn lemma_parse_byte_inverts(s: Seq<u64>, thr: int, start: int, byte: u8)
    requires
        0 <= start,
        start + 8 <= s.len(),
        forall|k: int| 0 <= k < 8 ==> ((#[trigger] s[start + k] > thr) == msb_bit(byte, k)),
    ensures
        spec_parse_byte(s, thr, start) == byte,
{
    let v0: u8 = if msb_bit(byte, 0) {
        1
    } else {
        0
    };
    let v1: u8 = if msb_bit(byte, 1) {
        1
    } else {
        0
    };
    let v2: u8 = if msb_bit(byte, 2) {
        1
    } else {
        0
    };
    let v3: u8 = if msb_bit(byte, 3) {
        1
    } else {
        0
    };
    let v4: u8 = if msb_bit(byte, 4) {
        1
    } else {
        0
    };
    let v5: u8 = if msb_bit(byte, 5) {
        1
    } else {
        0
    };
    let v6: u8 = if msb_bit(byte, 6) {
        1
    } else {
        0
    };
    let v7: u8 = if msb_bit(byte, 7) {
        1
    } else {
        0
    };
    assert(byte == 128 * v0 + 64 * v1 + 32 * v2 + 16 * v3 + 8 * v4 + 4 * v5 + 2 * v6 + v7)
        by (bit_vector)
        requires
            v0 == (if (byte >> 7u8) & 1 == 1 {
                1u8
            } else {
                0u8
            }),
            v1 == (if (byte >> 6u8) & 1 == 1 {
                1u8
            } else {
                0u8
            }),
            v2 == (if (byte >> 5u8) & 1 == 1 {
                1u8
            } else {
                0u8
            }),
            v3 == (if (byte >> 4u8) & 1 == 1 {
                1u8
            } else {
                0u8
            }),
            v4 == (if (byte >> 3u8) & 1 == 1 {
                1u8
            } else {
                0u8
            }),
            v5 == (if (byte >> 2u8) & 1 == 1 {
                1u8
            } else {
                0u8
            }),
            v6 == (if (byte >> 1u8) & 1 == 1 {
                1u8
            } else {
                0u8
            }),
            v7 == (if (byte >> 0u8) & 1 == 1 {
                1u8
            } else {
                0u8
            }),
    ;
    assert(byte_bits(s, thr, start, 8) == 128 * v0 + 64 * v1 + 32 * v2 + 16 * v3 + 8 * v4 + 4 * v5
        + 2 * v6 + v7) by {
        reveal_with_fuel(byte_bits, 9);
        assert((s[start + 0] > thr) == msb_bit(byte, 0));
        assert((s[start + 1] > thr) == msb_bit(byte, 1));
        assert((s[start + 2] > thr) == msb_bit(byte, 2));
        assert((s[start + 3] > thr) == msb_bit(byte, 3));
        assert((s[start + 4] > thr) == msb_bit(byte, 4));
        assert((s[start + 5] > thr) == msb_bit(byte, 5));
        assert((s[start + 6] > thr) == msb_bit(byte, 6));
        assert((s[start + 7] > thr) == msb_bit(byte, 7));
    }
}

/// The round trip that makes the adaptive decode trustworthy: encode
/// four payload bytes and their checksum as short and long pulses, one
/// cluster within a tick of the short base and one within a tick of the
/// long base, with the two bases at least twenty-two ticks apart and
/// both bit values present somewhere in the frame; then the frame
/// decodes to exactly those payload bytes and its checksum validates.
///
/// A frame that uses only one bit value is excluded: its pulses form a
/// single cluster, and under per-pulse jitter the midpoint fallback can
/// split that cluster and misread it.
pub proof fn lemma_frame_round_trip(b0: u8, b1: u8, b2: u8, b3: u8, ticks: Seq<u64>, a: u64, b: u64)
    requires
        ticks.len() == 40,
        1 <= a,
        a + 22 <= b,
        b < u64::MAX,
        forall|j: int|
            0 <= j < 40 ==> if frame_bit(b0, b1, b2, b3, j) {
                b - 1 <= #[trigger] ticks[j] <= b + 1
            } else {
                a - 1 <= ticks[j] <= a + 1
            },
        exists|j: int| 0 <= j < 40 && frame_bit(b0, b1, b2, b3, j),
        exists|j: int| 0 <= j < 40 && !frame_bit(b0, b1, b2, b3, j),
    ensures
        spec_frame_bytes(ticks) == (b0 as int, b1 as int, b2 as int, b3 as int, spec_checksum(
            b0,
            b1,
            b2,
            b3,
        )),
        spec_frame_checksum_ok(ticks),
{
    let wl = choose|j: int| 0 <= j < 40 && frame_bit(b0, b1, b2, b3, j);
    let ws = choose|j: int| 0 <= j < 40 && !frame_bit(b0, b1, b2, b3, j);
    assert(ticks[wl] >= b - 1);
    assert(ticks[ws] <= a + 1);
    lemma_threshold_separates(ticks, a, b);
    let thr = spec_threshold(ticks);
    assert forall|j: int| 0 <= j < 40 implies ((#[trigger] ticks[j] > thr) == frame_bit(
        b0,
        b1,
        b2,
        b3,
        j,
    )) by {
        if frame_bit(b0, b1, b2, b3, j) {
            assert(ticks[j] >= b - 1 > thr);
        } else {
            assert(ticks[j] <= a + 1 <= thr);
        }
    }
    let cs = (spec_checksum(b0, b1, b2, b3)) as u8;
    lemma_parse_byte_inverts(ticks, thr, 0, b0);
    lemma_parse_byte_inverts(ticks, thr, 8, b1);
    lemma_parse_byte_inverts(ticks, thr, 16, b2);
    lemma_parse_byte_inverts(ticks, thr, 24, b3);
    lemma_parse_byte_inverts(ticks, thr, 32, cs);
}

/// Flipping bit `k` of a byte, counting from the least significant bit.
pub open spec fn flip_bit(b: u8, k: u8) -> u8 {
    b ^ (1u8 << k)
}

/// Corrupting a single bit of any payload byte while keeping the old
/// checksum byte always breaks checksum validation: the sum changes by a
/// power of two below 256, which the low eight bits cannot miss. A frame
/// corrupted this way is therefore always rejected as bad data.
pub proof fn lemma_bit_flip_breaks_checksum(b0: u8, b1: u8, b2: u8, b3: u8, k: u8)
    requires
        k < 8,
    ensures
        spec_checksum(flip_bit(b0, k), b1, b2, b3) != spec_checksum(b0, b1, b2, b3),
        spec_checksum(b0, flip_bit(b1, k), b2, b3) != spec_checksum(b0, b1, b2, b3),
        spec_checksum(b0, b1, flip_bit(b2, k), b3) != spec_checksum(b0, b1, b2, b3),
        spec_checksum(b0, b1, b2, flip_bit(b3, k)) != spec_checksum(b0, b1, b2, b3),
        flip_bit(b0, k) != b0,
{
    assert(((b0 ^ (1u8 << k)) + b1 + b2 + b3) % 256 != (b0 + b1 + b2 + b3) % 256
        && (b0 + (b1 ^ (1u8 << k)) + b2 + b3) % 256 != (b0 + b1 + b2 + b3) % 256
        && (b0 + b1 + (b2 ^ (1u8 << k)) + b3) % 256 != (b0 + b1 + b2 + b3) % 256
        && (b0 + b1 + b2 + (b3 ^ (1u8 << k))) % 256 != (b0 + b1 + b2 + b3) % 256
        && (b0 ^ (1u8 << k)) != b0) by (bit_vector)
        requires
            k < 8,
    ;
}

} // verus!
