//! Request encoding and response decoding for a family of synchronous
//! multi-channel analog-to-digital converters.
//!
//! A read is one fixed-format three-byte full-duplex transfer: a start
//! bit, a mode bit, three channel-select bits, then the device answers
//! with a null bit and a ten-bit result. The transfer itself is plain
//! bus I/O and lives in a front end; the request bytes, the channel
//! validation and the bit-exact extraction of the result are here.

use vstd::prelude::*;

verus! {

/// The maximum bus clock speed when the supply is five volts.
pub const MAX_CLOCK_AT_5V: u32 = 3_600_000;

/// The maximum bus clock speed when the supply is two point seven
/// volts.
pub const MAX_CLOCK_AT_2_7V: u32 = 1_350_000;

/// The number of addressable channels on the four-channel device.
pub const NUM_CHANNELS_MCP3004: u8 = 4;

/// The number of addressable channels on the eight-channel device.
pub const NUM_CHANNELS_MCP3008: u8 = 8;

/// What can go wrong during a read.
#[derive(Debug, PartialEq, Eq, Structural, Clone, Copy)]
pub enum Error {
    /// Wrapped error from the bus driver.
    Wrapped,
    /// Invalid argument was provided: the request addresses a channel
    /// the device does not have.
    InvalidArgument,
    /// Bad data was read: the null bit that must precede the result was
    /// missing, so the read cannot be trusted.
    BadData,
}

/// Which channels to read the voltage difference between.
#[derive(Debug, PartialEq, Eq, Structural, Clone, Copy)]
pub enum DifferentialMode {
    /// Channel zero minus channel one.
    ZeroMinusOne,
    /// Channel one minus channel zero.
    OneMinusZero,
    /// Channel two minus channel three.
    TwoMinusThree,
    /// Channel three minus channel two.
    ThreeMinusTwo,
    /// Channel four minus channel five. Eight-channel device only.
    FourMinusFive,
    /// Channel five minus channel four. Eight-channel device only.
    FiveMinusFour,
    /// Channel six minus channel seven. Eight-channel device only.
    SixMinusSeven,
    /// Channel seven minus channel six. Eight-channel device only.
    SevenMinusSix,
}

impl DifferentialMode {
    /// The mode's three channel-select bits.
    pub open spec fn spec_index(self) -> u8 {
        match self {
            DifferentialMode::ZeroMinusOne => 0,
            DifferentialMode::OneMinusZero => 1,
            DifferentialMode::TwoMinusThree => 2,
            DifferentialMode::ThreeMinusTwo => 3,
            DifferentialMode::FourMinusFive => 4,
            DifferentialMode::FiveMinusFour => 5,
            DifferentialMode::SixMinusSeven => 6,
            DifferentialMode::SevenMinusSix => 7,
        }
    }

    /// The mode's three channel-select bits.
    pub fn index(self) -> (r: u8)
        ensures
            r == self.spec_index(),
    {
        match self {
            DifferentialMode::ZeroMinusOne => 0,
            DifferentialMode::OneMinusZero => 1,
            DifferentialMode::TwoMinusThree => 2,
            DifferentialMode::ThreeMinusTwo => 3,
            DifferentialMode::FourMinusFive => 4,
            DifferentialMode::FiveMinusFour => 5,
            DifferentialMode::SixMinusSeven => 6,
            DifferentialMode::SevenMinusSix => 7,
        }
    }
}

/// The type of read to make from the device.
#[derive(Debug, PartialEq, Eq, Structural, Clone, Copy)]
pub enum Request {
    /// Read one channel's voltage against the reference range. The
    /// channel must be below the device's channel count.
    SingleEnded(u8),
    /// Read the voltage difference of an input pair against the
    /// reference range.
    Differential(DifferentialMode),
}

impl Request {
    /// The request's four low bits: the single-ended/differential flag
    /// above the three channel-select bits. The start bit that every
    /// request begins with is not included.
    pub open spec fn spec_to_bits(self) -> u8 {
        match self {
            Request::SingleEnded(channel) => 0b1000u8 | channel,
            Request::Differential(mode) => mode.spec_index(),
        }
    }

    /// The request's four low bits, as sent to the device.
    pub fn to_bits(&self) -> (r: u8)
        ensures
            r == self.spec_to_bits(),
    {
        match self {
            Request::SingleEnded(channel) => 0b1000u8 | *channel,
            Request::Differential(mode) => mode.index(),
        }
    }

    /// Whether the four-channel device can serve the request.
    pub open spec fn spec_valid_for_mcp3004(self) -> bool {
        match self {
            Request::SingleEnded(channel) => channel < NUM_CHANNELS_MCP3004,
            Request::Differential(mode) => mode.spec_index() <= 3,
        }
    }

    /// Whether the four-channel device can serve the request.
    pub fn valid_for_mcp3004(&self) -> (r: bool)
        ensures
            r == self.spec_valid_for_mcp3004(),
    {
        match self {
            Request::SingleEnded(channel) => *channel < NUM_CHANNELS_MCP3004,
            Request::Differential(mode) => mode.index() <= 3,
        }
    }

    /// Whether the eight-channel device can serve the request.
    pub open spec fn spec_valid_for_mcp3008(self) -> bool {
        match self {
            Request::SingleEnded(channel) => channel < NUM_CHANNELS_MCP3008,
            Request::Differential(_) => true,
        }
    }

    /// Whether the eight-channel device can serve the request.
    pub fn valid_for_mcp3008(&self) -> (r: bool)
        ensures
            r == self.spec_valid_for_mcp3008(),
    {
        match self {
            Request::SingleEnded(channel) => *channel < NUM_CHANNELS_MCP3008,
            Request::Differential(_) => true,
        }
    }
}

/// The three bytes a valid request sends, aligned so that the answer
/// can be read in whole bytes: the start bit alone, then the request
/// bits in the high nibble, then a padding byte.
pub fn encode_request(request: &Request) -> (r: [u8; 3])
    requires
        request.spec_valid_for_mcp3008(),
    ensures
        r@[0] == 1,
        r@[1] == request.spec_to_bits() * 16,
        r@[2] == 0,
{
    let bits = request.to_bits();
    assert(bits < 16 ==> (bits << 4u8) == bits * 16) by (bit_vector);
    assert(request.spec_to_bits() < 16) by {
        if let Request::SingleEnded(channel) = *request {
            assert(channel < 8 ==> (0b1000u8 | channel) < 16) by (bit_vector);
        }
    }
    [0x1, bits << 4u8, 0x0]
}

/// The ten-bit result carried by a three-byte answer: the low two bits
/// of the middle byte above the whole last byte.
pub open spec fn spec_result_bits(rx: Seq<u8>) -> int
    recommends
        rx.len() == 3,
{
    (rx[1] & 3) * 256 + rx[2]
}

/// Extracts the ten-bit result from the answer to a read, first
/// checking the null bit that the device drives right before the
/// result: when that bit is missing the read cannot be trusted and is
/// rejected as bad data.
pub fn decode_transfer(rx: &[u8; 3]) -> (r: Result<u16, Error>)
    ensures
        if rx[1] & 0b100 != 0 {
            r == Err::<u16, Error>(Error::BadData)
        } else {
            r == Ok::<u16, Error>(spec_result_bits(rx@) as u16) && spec_result_bits(rx@) < 1024
        },
{
    let b1 = rx[1];
    if (b1 & 0b100) != 0 {
        return Err(Error::BadData);
    }
    let hi = b1 & 0b11;
    assert(b1 & 0b11 < 4) by (bit_vector);
    Ok(hi as u16 * 256 + rx[2] as u16)
}

} // verus!
