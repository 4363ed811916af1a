//! Protocol logic for the one-wire digital thermometer.
//!
//! The addressable-bus variant uses fixed timing slots rather than
//! adaptive thresholds: a reset pulse followed by a presence pulse, ROM
//! and function command bytes written least significant bit first, and
//! a nine-byte scratchpad whose last byte is a CRC over the first
//! eight. The CRC is the standard bit-serial eight-bit cyclic check of
//! this device family (polynomial bits at eight, five and four, initial
//! value zero, each byte processed least significant bit first).
//!
//! Everything that decides or computes lives here and is verified: slot
//! timing plans, bit order, presence detection, CRC, scratchpad
//! validation and the signed fixed-point temperature decode. A front
//! end performs the actual pin work and hands the sampled bytes back.

use vstd::prelude::*;

verus! {

/// What can go wrong while talking to the bus. The wrapped kinds
/// propagate hardware failures and are always fatal; only the CRC
/// check produces an error in the verified logic itself, the rest
/// complete the protocol's error taxonomy for front ends that drive
/// real hardware.
#[derive(Debug, PartialEq, Eq, Structural, Clone, Copy)]
pub enum Error {
    /// The injected delay capability failed.
    WrappedDelay,
    /// A line role switch was rejected by the hardware.
    WrappedIo,
    /// Sampling the line failed.
    WrappedInput,
    /// Driving the line failed.
    WrappedOutput,
    /// No presence pulse was observed after a reset.
    NoSensorsFound,
    /// The scratchpad did not match its CRC byte.
    BadData,
}

/// The reset pulse holds the line low at least this long, in
/// microseconds.
pub const RESET_TIME_US: u16 = 480;

/// Offset of the first presence-pulse sample after the reset is
/// released, in microseconds.
pub const FIRST_PRESENCE_PULSE_DELAY_US: u8 = 30;

/// Offset between the first and the second presence-pulse sample, in
/// microseconds.
pub const SECOND_PRESENCE_PULSE_DELAY_US: u8 = 30;

/// Remaining wait after the presence samples, in microseconds.
pub const POST_PRESENCE_PULSE_DELAY_US: u16 = RESET_TIME_US - FIRST_PRESENCE_PULSE_DELAY_US as u16
    - SECOND_PRESENCE_PULSE_DELAY_US as u16;

/// Recovery time between read/write slots, in microseconds.
pub const READ_WRITE_RECOVERY_TIME_US: u8 = 1;

/// Minimum length of any read or write slot, in microseconds.
pub const MIN_READ_WRITE_DURATION_US: u8 = 60;

/// How long a write-one slot pulls the line low, in microseconds.
pub const WRITE_1_DURATION_US: u8 = 1;

/// How long a write-zero slot pulls the line low, in microseconds.
pub const WRITE_0_DURATION_US: u8 = 60;

/// How long a read slot pulls the line low before releasing it, in
/// microseconds.
pub const READ_REQUEST_DURATION_US: u8 = 1;

/// Wait between releasing the line and sampling it in a read slot, in
/// microseconds.
pub const READ_SAMPLE_DELAY_US: u8 = 15 - READ_REQUEST_DURATION_US;

/// Wait after the sample that pads the read slot to its minimum length,
/// in microseconds.
pub const READ_POST_SAMPLE_DELAY_US: u8 = MIN_READ_WRITE_DURATION_US - READ_SAMPLE_DELAY_US;

/// How long a write slot holds the line low for the given bit: one
/// microsecond for a one, the full slot for a zero.
pub fn write_slot_low_us(bit: bool) -> (r: u8)
    ensures
        r == if bit {
            WRITE_1_DURATION_US as int
        } else {
            WRITE_0_DURATION_US as int
        },
{
    if bit {
        WRITE_1_DURATION_US
    } else {
        WRITE_0_DURATION_US
    }
}

/// How long a write slot keeps the line released after the pulse: a
/// write-one slot must still span the minimum slot length.
pub fn write_slot_post_us(bit: bool) -> (r: u8)
    ensures
        r == if bit {
            MIN_READ_WRITE_DURATION_US - WRITE_1_DURATION_US
        } else {
            0int
        },
{
    if bit {
        MIN_READ_WRITE_DURATION_US - WRITE_1_DURATION_US
    } else {
        0
    }
}

/// A presence pulse counts as seen when the line read low at either
/// sampling offset.
pub fn presence_detected(first_sample_low: bool, second_sample_low: bool) -> (r: bool)
    ensures
        r == (first_sample_low || second_sample_low),
{
    first_sample_low || second_sample_low
}

/// Bit `k` of a byte, counting from the least significant bit: the
/// order in which bits travel over the bus.
pub open spec fn bit_of_byte(byte: u8, k: int) -> bool {
    (byte >> (k as u8)) & 1 == 1
}

/// Value of the low `n` bits of a byte assembled least significant bit
/// first.
pub open spec fn lsb_value(bits: Seq<bool>, n: int) -> int
    decreases n,
{
    if n <= 0 {
        0
    } else {
        lsb_value(bits, n - 1) + (if bits[n - 1] {
            1int
        } else {
            0int
        }) * pow2(n - 1)
    }
}

/// Two to the `n`.
pub open spec fn pow2(n: int) -> int
    decreases n,
{
    if n <= 0 {
        1
    } else {
        2 * pow2(n - 1)
    }
}

/// The bit to send at position `k` when writing `byte` to the bus.
pub fn send_bit(byte: u8, k: u8) -> (r: bool)
    requires
        k < 8,
    ensures
        r == bit_of_byte(byte, k as int),
{
    (byte >> k) & 1 == 1
}

/// Assembles the byte read from eight bus slots, least significant bit
/// first.
pub fn byte_from_lsb_bits(bits: &[bool; 8]) -> (r: u8)
    ensures
        r == lsb_value(bits@, 8),
        forall|k: int| 0 <= k < 8 ==> bit_of_byte(r, k) == bits[k],
{
    let mut byte: u16 = 0;
    let mut k: usize = 0;
    while k < 8
        invariant
            0 <= k <= 8,
            byte == lsb_value(bits@, k as int),
            byte < 256,
        decreases 8 - k,
    {
        proof {
            lemma_lsb_value_bound(bits@, k as int);
            lemma_lsb_value_bound(bits@, k as int + 1);
        }
        if bits[k] {
            byte = byte + pow2_exec(k as u8);
        }
        k = k + 1;
    }
    let r = byte as u8;
    proof {
        lemma_lsb_bits_roundtrip(bits@, r);
    }
    r
}

/// The low `n` bits are always below two to the `n`.
proof fn lemma_lsb_value_bound(bits: Seq<bool>, n: int)
    requires
        0 <= n <= 8,
    ensures
        0 <= lsb_value(bits, n) < pow2(n),
        pow2(n) <= 256,
    decreases n,
{
    assert(pow2(0) == 1 && pow2(1) == 2 && pow2(2) == 4 && pow2(3) == 8 && pow2(4) == 16 && pow2(5)
        == 32 && pow2(6) == 64 && pow2(7) == 128 && pow2(8) == 256) by {
        reveal_with_fuel(pow2, 9);
    }
    if n > 0 {
        lemma_lsb_value_bound(bits, n - 1);
    }
}

/// A byte assembled least significant bit first reads back bit by bit.
proof fn lemma_lsb_bits_roundtrip(bits: Seq<bool>, r: u8)
    requires
        bits.len() == 8,
        r == lsb_value(bits, 8),
    ensures
        forall|k: int| 0 <= k < 8 ==> bit_of_byte(r, k) == bits[k],
{
    let b0: u8 = if bits[0] {
        1
    } else {
        0
    };
    let b1: u8 = if bits[1] {
        1
    } else {
        0
    };
    let b2: u8 = if bits[2] {
        1
    } else {
        0
    };
    let b3: u8 = if bits[3] {
        1
    } else {
        0
    };
    let b4: u8 = if bits[4] {
        1
    } else {
        0
    };
    let b5: u8 = if bits[5] {
        1
    } else {
        0
    };
    let b6: u8 = if bits[6] {
        1
    } else {
        0
    };
    let b7: u8 = if bits[7] {
        1
    } else {
        0
    };
    assert(lsb_value(bits, 8) == b0 + 2 * b1 + 4 * b2 + 8 * b3 + 16 * b4 + 32 * b5 + 64 * b6 + 128
        * b7) by {
        reveal_with_fuel(lsb_value, 9);
        reveal_with_fuel(pow2, 9);
    }
    assert forall|k: int| 0 <= k < 8 implies bit_of_byte(r, k) == bits[k] by {
        assert(forall|kk: u8|
            kk < 8 ==> (r >> kk) & 1 == (if kk == 0 {
                b0
            } else if kk == 1 {
                b1
            } else if kk == 2 {
                b2
            } else if kk == 3 {
                b3
            } else if kk == 4 {
                b4
            } else if kk == 5 {
                b5
            } else if kk == 6 {
                b6
            } else {
                b7
            })) by (bit_vector)
            requires
                r == b0 + 2 * b1 + 4 * b2 + 8 * b3 + 16 * b4 + 32 * b5 + 64 * b6 + 128 * b7,
                b0 <= 1 && b1 <= 1 && b2 <= 1 && b3 <= 1 && b4 <= 1 && b5 <= 1 && b6 <= 1 && b7
                    <= 1,
        ;
    }
}

/// Two to the `k`, for a byte's bit positions.
fn pow2_exec(k: u8) -> (r: u16)
    requires
        k < 8,
    ensures
        r == pow2(k as int),
{
    proof {
        reveal_with_fuel(pow2, 9);
    }
    match k {
        0 => 1,
        1 => 2,
        2 => 4,
        3 => 8,
        4 => 16,
        5 => 32,
        6 => 64,
        _ => 128,
    }
}

/// One step of the bit-serial CRC: the incoming bit is mixed with the
/// low bit of the pending value, the value shifts right, and the
/// polynomial's bits (at positions seven, three and two after the
/// shift) are folded in when the mix was one.
pub open spec fn spec_shift_crc_bit(crc: u8, bit: bool) -> u8 {
    (crc >> 1u8) ^ (if ((crc & 1) == 1) != bit {
        0x8Cu8
    } else {
        0u8
    })
}

/// The pending CRC after folding in the low `n` bits of `byte`, least
/// significant bit first.
pub open spec fn crc_of_byte(crc: u8, byte: u8, n: int) -> u8
    decreases n,
{
    if n <= 0 {
        crc
    } else {
        spec_shift_crc_bit(crc_of_byte(crc, byte, n - 1), bit_of_byte(byte, n - 1))
    }
}

/// The pending CRC after folding in the first `n` bytes of `s`,
/// starting from zero.
pub open spec fn crc_of_bytes(s: Seq<u8>, n: int) -> u8
    decreases n,
{
    if n <= 0 {
        0
    } else {
        crc_of_byte(crc_of_bytes(s, n - 1), s[n - 1], 8)
    }
}

/// The CRC byte of a whole message.
pub open spec fn spec_crc(s: Seq<u8>) -> u8 {
    crc_of_bytes(s, s.len() as int)
}

/// Shifts the pending CRC by a single bit.
///
/// Folding in the first fifty-six bits read from the scratchpad,
/// starting from zero, yields the expected CRC byte; folding in the CRC
/// byte as well yields zero.
pub fn shift_crc_bit(crc: u8, bit: bool) -> (r: u8)
    ensures
        r == spec_shift_crc_bit(crc, bit),
{
    let mix = ((crc & 1) == 1) != bit;
    let shifted = crc >> 1u8;
    assert(shifted ^ 0u8 == shifted) by (bit_vector);
    if mix {
        shifted ^ 0x8C
    } else {
        shifted
    }
}

/// Computes the CRC over the first `up_to` bytes of `data`.
#[verifier::loop_isolation(false)]
pub fn compute_crc(data: &[u8], up_to: usize) -> (r: u8)
    requires
        up_to <= data@.len(),
    ensures
        r == crc_of_bytes(data@, up_to as int),
{
    let mut crc: u8 = 0;
    let mut i: usize = 0;
    while i < up_to
        invariant
            0 <= i <= up_to,
            crc == crc_of_bytes(data@, i as int),
        decreases up_to - i,
    {
        let byte = data[i];
        let mut k: u8 = 0;
        while k < 8
            invariant
                0 <= k <= 8,
                crc == crc_of_byte(crc_of_bytes(data@, i as int), byte, k as int),
            decreases 8 - k,
        {
            let bit = (byte >> k) & 1 == 1;
            crc = shift_crc_bit(crc, bit);
            k = k + 1;
        }
        i = i + 1;
    }
    crc
}

/// Administrative commands for operating the shared data line.
///
/// These retrieve information about the devices on the line or address
/// one of them before a function command (see [`FunctionCommand`]).
#[derive(Debug, PartialEq, Eq, Structural, Clone, Copy)]
pub enum RomCommand {
    /// Searches for all devices on the line. Cannot be followed by a
    /// function command.
    Search,
    /// Reads the peripheral device's sixty-four-bit ROM code. Only
    /// possible when there is a single device on the line.
    Read,
    /// Selects a specific peripheral device by its ROM code; only the
    /// selected device answers the subsequent function command.
    Match,
    /// Addresses all devices simultaneously. With a single device on
    /// the line this can replace `Match` for every function command.
    Skip,
    /// Identical to `Search`, except that only devices whose alarm flag
    /// is set respond. Cannot be followed by a function command.
    AlarmSearch,
}

impl RomCommand {
    /// The command's byte on the wire.
    pub open spec fn spec_code(self) -> u8 {
        match self {
            RomCommand::Search => 0xF0,
            RomCommand::Read => 0x33,
            RomCommand::Match => 0x55,
            RomCommand::Skip => 0xCC,
            RomCommand::AlarmSearch => 0xEC,
        }
    }

    /// The command's byte on the wire.
    pub fn code(self) -> (r: u8)
        ensures
            r == self.spec_code(),
    {
        match self {
            RomCommand::Search => 0xF0,
            RomCommand::Read => 0x33,
            RomCommand::Match => 0x55,
            RomCommand::Skip => 0xCC,
            RomCommand::AlarmSearch => 0xEC,
        }
    }
}

/// Requests that the addressed sensor perform an operation. Sent after
/// a `Read`, `Match` or `Skip` [`RomCommand`].
#[derive(Debug, PartialEq, Eq, Structural, Clone, Copy)]
pub enum FunctionCommand {
    /// Stores the current temperature in the scratchpad's two-byte
    /// temperature register. The conversion takes the resolution-
    /// dependent time of [`ResolutionMode::get_conversion_time_us`].
    ConvertTemperature,
    /// Writes the alarm thresholds and the configuration byte, three
    /// bytes starting at scratchpad byte two.
    WriteScratchpad,
    /// Reads the nine scratchpad bytes: temperature low and high,
    /// alarm thresholds, configuration, three reserved bytes, CRC.
    ReadScratchpad,
    /// Copies the alarm thresholds and configuration from the
    /// scratchpad to non-volatile storage.
    CopyScratchpad,
    /// Copies the alarm thresholds and configuration from non-volatile
    /// storage back into the scratchpad.
    RecallEeprom,
    /// Asks whether any device on the line relies on parasitic power.
    ReadPowerSupply,
}

impl FunctionCommand {
    /// The command's byte on the wire.
    pub open spec fn spec_code(self) -> u8 {
        match self {
            FunctionCommand::ConvertTemperature => 0x44,
            FunctionCommand::WriteScratchpad => 0x4E,
            FunctionCommand::ReadScratchpad => 0xBE,
            FunctionCommand::CopyScratchpad => 0x48,
            FunctionCommand::RecallEeprom => 0xB8,
            FunctionCommand::ReadPowerSupply => 0xB4,
        }
    }

    /// The command's byte on the wire.
    pub fn code(self) -> (r: u8)
        ensures
            r == self.spec_code(),
    {
        match self {
            FunctionCommand::ConvertTemperature => 0x44,
            FunctionCommand::WriteScratchpad => 0x4E,
            FunctionCommand::ReadScratchpad => 0xBE,
            FunctionCommand::CopyScratchpad => 0x48,
            FunctionCommand::RecallEeprom => 0xB8,
            FunctionCommand::ReadPowerSupply => 0xB4,
        }
    }
}

/// The measurement resolution the sensor converts at.
#[derive(Debug, PartialEq, Eq, Structural, Clone, Copy)]
pub enum ResolutionMode {
    /// Nine-bit resolution reads the temperature in halves of a degree.
    NineBit,
    /// Ten-bit resolution reads the temperature in quarters of a
    /// degree.
    TenBit,
    /// Eleven-bit resolution reads the temperature in eighths of a
    /// degree.
    ElevenBit,
    /// Twelve-bit resolution reads the temperature in sixteenths of a
    /// degree.
    TwelveBit,
}

impl ResolutionMode {
    /// The mode's two configuration bits.
    pub open spec fn spec_bits(self) -> u8 {
        match self {
            ResolutionMode::NineBit => 0,
            ResolutionMode::TenBit => 1,
            ResolutionMode::ElevenBit => 2,
            ResolutionMode::TwelveBit => 3,
        }
    }

    /// How long a conversion takes at this resolution, in microseconds.
    pub fn get_conversion_time_us(self) -> (r: u64)
        ensures
            r == match self {
                ResolutionMode::NineBit => 93_750int,
                ResolutionMode::TenBit => 187_500int,
                ResolutionMode::ElevenBit => 375_000int,
                ResolutionMode::TwelveBit => 750_000int,
            },
    {
        match self {
            ResolutionMode::NineBit => 93_750,
            ResolutionMode::TenBit => 187_500,
            ResolutionMode::ElevenBit => 375_000,
            ResolutionMode::TwelveBit => 750_000,
        }
    }

    /// The configuration byte selecting this resolution: the two mode
    /// bits above five reserved one bits.
    pub fn get_configuration_byte(self) -> (r: u8)
        ensures
            r == self.spec_bits() * 32 + 0b1111,
    {
        let bits: u8 = match self {
            ResolutionMode::NineBit => 0,
            ResolutionMode::TenBit => 1,
            ResolutionMode::ElevenBit => 2,
            ResolutionMode::TwelveBit => 3,
        };
        bits * 32 + 0b1111
    }
}

/// The identity of one device on the shared line: a family code, a
/// forty-eight-bit serial number and a trailing CRC byte.
pub struct DeviceId(pub [u8; 8]);

impl DeviceId {
    /// The CRC byte the device reported.
    pub fn crc(&self) -> (r: u8)
        ensures
            r == self.0[7],
    {
        self.0[7]
    }

    /// The device's serial number: the six bytes between the family
    /// code and the CRC, least significant byte first.
    pub fn serial(&self) -> (r: u64)
        ensures
            r == self.0[1] + self.0[2] * 0x100 + self.0[3] * 0x1_0000 + self.0[4] * 0x100_0000
                + self.0[5] * 0x1_0000_0000 + self.0[6] * 0x100_0000_0000,
    {
        self.0[1] as u64 + self.0[2] as u64 * 0x100 + self.0[3] as u64 * 0x1_0000
            + self.0[4] as u64 * 0x100_0000 + self.0[5] as u64 * 0x1_0000_0000
            + self.0[6] as u64 * 0x100_0000_0000
    }

    /// The device's family code.
    pub fn family_code(&self) -> (r: u8)
        ensures
            r == self.0[0],
    {
        self.0[0]
    }

    /// The CRC the identity should carry: the bit-serial CRC over its
    /// first seven bytes. A genuine identity has `calculated_crc`
    /// equal to `crc`.
    pub fn calculated_crc(&self) -> (r: u8)
        ensures
            r == crc_of_bytes(self.0@, 7),
    {
        let r = compute_crc(self.0.as_slice(), 7);
        proof {
            lemma_crc_prefix(self.0@.subrange(0, 7), self.0@, 7);
        }
        r
    }
}

/// The CRC over the first `n` bytes only looks at those bytes.
proof fn lemma_crc_prefix(a: Seq<u8>, b: Seq<u8>, n: int)
    requires
        0 <= n <= a.len(),
        n <= b.len(),
        forall|i: int| 0 <= i < n ==> a[i] == b[i],
    ensures
        crc_of_bytes(a, n) == crc_of_bytes(b, n),
    decreases n,
{
    if n > 0 {
        lemma_crc_prefix(a, b, n - 1);
    }
}

/// The sixteenths of a degree encoded by the two-byte two's-complement
/// temperature register.
pub open spec fn spec_raw_temperature(low_sig: u8, high_sig: u8) -> int {
    if high_sig >= 0x80 {
        high_sig * 0x100 + low_sig - 0x1_0000
    } else {
        high_sig * 0x100 + low_sig
    }
}

/// A temperature reading: a signed integer part and a signed decimal
/// part in sixteenths of a degree, sixteen times the integer part plus
/// the decimal part giving the register value exactly. A reading below
/// zero keeps its integer part rounded towards zero, so a value between
/// minus one and zero has integer part zero and a negative decimal
/// part.
#[derive(Debug, PartialEq, Eq, Structural, Clone, Copy)]
pub struct Temperature {
    decimal: i8,
    integer: i16,
}

impl Temperature {
    /// The integer part, in degrees.
    pub closed spec fn spec_integer(self) -> int {
        self.integer as int
    }

    /// The decimal part, in sixteenths of a degree.
    pub closed spec fn spec_decimal(self) -> int {
        self.decimal as int
    }

    /// The parts stay within what a register can encode, and share
    /// their sign.
    pub open spec fn wf(self) -> bool {
        &&& -2048 <= self.spec_integer() <= 2047
        &&& -16 <= self.spec_decimal() <= 15
        &&& self.spec_integer() > 0 ==> self.spec_decimal() >= 0
        &&& self.spec_integer() < 0 ==> self.spec_decimal() <= 0
    }

    /// Decodes the two temperature register bytes. The decimal part of
    /// a reading at or below zero lies in the sixteenths from minus
    /// sixteen to minus one, so that a negative value whose integer
    /// part is zero still reads as negative.
    pub fn from_bytes(low_sig: u8, high_sig: u8) -> (r: Temperature)
        ensures
            r.wf(),
            r.spec_integer() * 16 + r.spec_decimal() == spec_raw_temperature(low_sig, high_sig),
            high_sig < 0x80 ==> 0 <= r.spec_decimal() <= 15,
            high_sig >= 0x80 ==> -16 <= r.spec_decimal() <= -1,
    {
        let low_nibble: i32 = (low_sig % 16) as i32;
        if high_sig > 127 {
            let raw: i32 = (high_sig as i32) * 0x100 + (low_sig as i32) - 0x1_0000;
            let decimal: i32 = low_nibble - 16;
            let integer: i32 = (raw - decimal) / 16;
            assert(raw - decimal == 16 * integer) by (nonlinear_arith)
                requires
                    integer == (raw - decimal) / 16,
                    raw % 16 == decimal % 16,
                    -0x1_0000 <= raw < 0,
                    -16 <= decimal <= -1,
            ;
            Temperature { decimal: decimal as i8, integer: integer as i16 }
        } else {
            let raw: i32 = (high_sig as i32) * 0x100 + (low_sig as i32);
            let integer: i32 = raw / 16;
            Temperature { decimal: low_nibble as i8, integer: integer as i16 }
        }
    }

    /// The integer part of the temperature measurement, in degrees.
    pub fn integer_part(&self) -> (r: i16)
        ensures
            r == self.spec_integer(),
    {
        self.integer
    }

    /// The decimal part of the temperature measurement, in sixteenths
    /// of a degree. The usable resolution depends on the
    /// [`ResolutionMode`] the conversion ran at.
    pub fn decimal_part(&self) -> (r: i8)
        ensures
            r == self.spec_decimal(),
    {
        self.decimal
    }

    /// The nearest integer of the measurement, computed without
    /// floating point: the integer part, pushed one away from zero
    /// when the decimal part's magnitude reaches half a degree.
    pub fn nearest_integer(&self) -> (r: i16)
        requires
            self.wf(),
        ensures
            r == self.spec_integer() + (if self.spec_decimal() >= 0 {
                self.spec_decimal() / 8
            } else {
                -((-self.spec_decimal()) / 8)
            }),
    {
        let d: i32 = self.decimal as i32;
        let adjust: i32 = if d >= 0 {
            d / 8
        } else {
            -((-d) / 8)
        };
        (self.integer as i32 + adjust) as i16
    }
}

/// The stations of one temperature read, in protocol order: reset and
/// address every device, start a conversion, wait it out, reset and
/// address again, ask for the scratchpad, and collect its nine bytes.
#[derive(Debug, PartialEq, Eq, Structural, Clone, Copy)]
pub enum TemperatureReadStep {
    ResetForConversion,
    AddressForConversion,
    StartConversion,
    AwaitConversion,
    ResetForScratchpad,
    AddressForScratchpad,
    RequestScratchpad,
    CollectScratchpad,
}

/// What a front end must do at one station of a temperature read.
#[derive(Debug, PartialEq, Eq, Structural, Clone, Copy)]
pub enum BusAction {
    /// Drive the reset pulse and check the presence pulse.
    PulseReset,
    /// Write the given command byte, least significant bit first.
    WriteCommandByte(u8),
    /// Suspend for the given number of microseconds.
    Suspend(u64),
    /// Read the nine scratchpad bytes.
    SampleScratchpad,
}

impl TemperatureReadStep {
    /// The action a front end performs at this station. Everything it
    /// needs — which command byte, how long to wait — is decided here.
    pub fn action(self, resolution: ResolutionMode) -> (r: BusAction)
        ensures
            r == match self {
                TemperatureReadStep::ResetForConversion => BusAction::PulseReset,
                TemperatureReadStep::AddressForConversion => BusAction::WriteCommandByte(
                    RomCommand::Skip.spec_code(),
                ),
                TemperatureReadStep::StartConversion => BusAction::WriteCommandByte(
                    FunctionCommand::ConvertTemperature.spec_code(),
                ),
                TemperatureReadStep::AwaitConversion => BusAction::Suspend(
                    match resolution {
                        ResolutionMode::NineBit => 93_750u64,
                        ResolutionMode::TenBit => 187_500u64,
                        ResolutionMode::ElevenBit => 375_000u64,
                        ResolutionMode::TwelveBit => 750_000u64,
                    },
                ),
                TemperatureReadStep::ResetForScratchpad => BusAction::PulseReset,
                TemperatureReadStep::AddressForScratchpad => BusAction::WriteCommandByte(
                    RomCommand::Skip.spec_code(),
                ),
                TemperatureReadStep::RequestScratchpad => BusAction::WriteCommandByte(
                    FunctionCommand::ReadScratchpad.spec_code(),
                ),
                TemperatureReadStep::CollectScratchpad => BusAction::SampleScratchpad,
            },
    {
        match self {
            TemperatureReadStep::ResetForConversion => BusAction::PulseReset,
            TemperatureReadStep::AddressForConversion => BusAction::WriteCommandByte(
                RomCommand::Skip.code(),
            ),
            TemperatureReadStep::StartConversion => BusAction::WriteCommandByte(
                FunctionCommand::ConvertTemperature.code(),
            ),
            TemperatureReadStep::AwaitConversion => BusAction::Suspend(
                resolution.get_conversion_time_us(),
            ),
            TemperatureReadStep::ResetForScratchpad => BusAction::PulseReset,
            TemperatureReadStep::AddressForScratchpad => BusAction::WriteCommandByte(
                RomCommand::Skip.code(),
            ),
            TemperatureReadStep::RequestScratchpad => BusAction::WriteCommandByte(
                FunctionCommand::ReadScratchpad.code(),
            ),
            TemperatureReadStep::CollectScratchpad => BusAction::SampleScratchpad,
        }
    }

    /// The station that follows this one, or none after the last.
    pub fn next(self) -> (r: Option<TemperatureReadStep>)
        ensures
            r == match self {
                TemperatureReadStep::ResetForConversion => Some(
                    TemperatureReadStep::AddressForConversion,
                ),
                TemperatureReadStep::AddressForConversion => Some(
                    TemperatureReadStep::StartConversion,
                ),
                TemperatureReadStep::StartConversion => Some(
                    TemperatureReadStep::AwaitConversion,
                ),
                TemperatureReadStep::AwaitConversion => Some(
                    TemperatureReadStep::ResetForScratchpad,
                ),
                TemperatureReadStep::ResetForScratchpad => Some(
                    TemperatureReadStep::AddressForScratchpad,
                ),
                TemperatureReadStep::AddressForScratchpad => Some(
                    TemperatureReadStep::RequestScratchpad,
                ),
                TemperatureReadStep::RequestScratchpad => Some(
                    TemperatureReadStep::CollectScratchpad,
                ),
                TemperatureReadStep::CollectScratchpad => None,
            },
    {
        match self {
            TemperatureReadStep::ResetForConversion => Some(
                TemperatureReadStep::AddressForConversion,
            ),
            TemperatureReadStep::AddressForConversion => Some(
                TemperatureReadStep::StartConversion,
            ),
            TemperatureReadStep::StartConversion => Some(TemperatureReadStep::AwaitConversion),
            TemperatureReadStep::AwaitConversion => Some(TemperatureReadStep::ResetForScratchpad),
            TemperatureReadStep::ResetForScratchpad => Some(
                TemperatureReadStep::AddressForScratchpad,
            ),
            TemperatureReadStep::AddressForScratchpad => Some(
                TemperatureReadStep::RequestScratchpad,
            ),
            TemperatureReadStep::RequestScratchpad => Some(
                TemperatureReadStep::CollectScratchpad,
            ),
            TemperatureReadStep::CollectScratchpad => None,
        }
    }
}

/// Validates a nine-byte scratchpad and decodes its temperature: the
/// last byte must be the CRC of the first eight, and the first two are
/// the temperature register. A scratchpad that fails its CRC is
/// rejected as bad data.
pub fn decode_scratchpad(data: &[u8; 9]) -> (r: Result<Temperature, Error>)
    ensures
        if crc_of_bytes(data@, 8) == data[8] {
            &&& r is Ok
            &&& r.unwrap().wf()
            &&& r.unwrap().spec_integer() * 16 + r.unwrap().spec_decimal()
                == spec_raw_temperature(data[0], data[1])
            &&& (data[1] < 0x80 ==> 0 <= r.unwrap().spec_decimal() <= 15)
            &&& (data[1] >= 0x80 ==> -16 <= r.unwrap().spec_decimal() <= -1)
        } else {
            r == Err::<Temperature, Error>(Error::BadData)
        },
{
    let crc = compute_crc(data.as_slice(), 8);
    if crc != data[8] {
        return Err(Error::BadData);
    }
    Ok(Temperature::from_bytes(data[0], data[1]))
}

} // verus!
