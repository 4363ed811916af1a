//! Request encoding and response decoding for the eight-channel
//! analog-to-digital converter, as a stand-alone device interface.
//!
//! This is the device-specific counterpart of the generalised family
//! module: the same three-byte transfer, but without the null-bit
//! check on the answer. The transfer itself is plain bus I/O and lives
//! in a front end; the request bytes, the channel validation and the
//! extraction of the ten-bit result are here.

use vstd::prelude::*;

verus! {

/// The maximum bus clock speed when the supply is five volts.
pub const MAX_CLK_AT_5V: u32 = 3_600_000;

/// The maximum bus clock speed when the supply is two point seven
/// volts.
pub const MAX_CLK_AT_2_7V: u32 = 1_350_000;

/// How many channels the device has.
pub const NUM_CHANNELS: u8 = 8;

/// What can go wrong during a read.
#[derive(Debug, PartialEq, Eq, Structural, Clone, Copy)]
pub enum Error {
    /// Wrapped error from the bus driver.
    Wrapped,
    /// Invalid argument was provided: the request addresses a channel
    /// the device does not have.
    InvalidArgument,
}

/// Which channels to read the voltage difference between.
#[derive(Debug, PartialEq, Eq, Structural, Clone, Copy)]
pub enum DifferentialMode {
    /// Channel zero minus channel one.
    ZeroMinusOne,
    /// Channel one minus channel zero.
    OneMinusZero,
    /// Channel two minus channel three.
    TwoMinusThree,
    /// Channel three minus channel two.
    ThreeMinusTwo,
    /// Channel four minus channel five.
    FourMinusFive,
    /// Channel five minus channel four.
    FiveMinusFour,
    /// Channel six minus channel seven.
    SixMinusSeven,
    /// Channel seven minus channel six.
    SevenMinusSix,
}

impl DifferentialMode {
    /// The mode's three channel-select bits.
    pub open spec fn spec_index(self) -> u8 {
        match self {
            DifferentialMode::ZeroMinusOne => 0,
            DifferentialMode::OneMinusZero => 1,
            DifferentialMode::TwoMinusThree => 2,
            DifferentialMode::ThreeMinusTwo => 3,
            DifferentialMode::FourMinusFive => 4,
            DifferentialMode::FiveMinusFour => 5,
            DifferentialMode::SixMinusSeven => 6,
            DifferentialMode::SevenMinusSix => 7,
        }
    }

    /// The mode's three channel-select bits.
    pub fn index(self) -> (r: u8)
        ensures
            r == self.spec_index(),
    {
        match self {
            DifferentialMode::ZeroMinusOne => 0,
            DifferentialMode::OneMinusZero => 1,
            DifferentialMode::TwoMinusThree => 2,
            DifferentialMode::ThreeMinusTwo => 3,
            DifferentialMode::FourMinusFive => 4,
            DifferentialMode::FiveMinusFour => 5,
            DifferentialMode::SixMinusSeven => 6,
            DifferentialMode::SevenMinusSix => 7,
        }
    }
}

/// The type of read to make from the device.
#[derive(Debug, PartialEq, Eq, Structural, Clone, Copy)]
pub enum Mcp3008Request {
    /// Read one channel's voltage against the reference range. The
    /// channel must be in the inclusive range from zero to seven.
    SingleEnded(u8),
    /// Read the voltage difference of an input pair against the
    /// reference range.
    Differential(DifferentialMode),
}

impl Mcp3008Request {
    /// The request's four low bits: the single-ended/differential flag
    /// above the three channel-select bits. The start bit that every
    /// request begins with is not included.
    pub open spec fn spec_to_bits(self) -> u8 {
        match self {
            Mcp3008Request::SingleEnded(channel) => 0b1000u8 | channel,
            Mcp3008Request::Differential(mode) => mode.spec_index(),
        }
    }

    /// The request's four low bits, as sent to the device.
    pub fn to_bits(&self) -> (r: u8)
        ensures
            r == self.spec_to_bits(),
    {
        match self {
            Mcp3008Request::SingleEnded(channel) => 0b1000u8 | *channel,
            Mcp3008Request::Differential(mode) => mode.index(),
        }
    }

    /// Whether the device can serve the request.
    pub open spec fn spec_valid(self) -> bool {
        match self {
            Mcp3008Request::SingleEnded(channel) => channel < NUM_CHANNELS,
            Mcp3008Request::Differential(_) => true,
        }
    }

    /// Whether the device can serve the request.
    pub fn is_valid(&self) -> (r: bool)
        ensures
            r == self.spec_valid(),
    {
        match self {
            Mcp3008Request::SingleEnded(channel) => *channel < NUM_CHANNELS,
            Mcp3008Request::Differential(_) => true,
        }
    }
}

/// A ten-bit reading: the channel voltage scaled into the range from
/// zero to one thousand twenty-three.
#[derive(Debug, PartialEq, Eq, Structural, Clone, Copy)]
pub struct Mcp3008Response(pub u16);

/// The three bytes a valid request sends, aligned so that the answer
/// can be read in whole bytes: the start bit alone, then the request
/// bits in the high nibble, then a padding byte.
pub fn encode_request(request: &Mcp3008Request) -> (r: [u8; 3])
    requires
        request.spec_valid(),
    ensures
        r@[0] == 1,
        r@[1] == request.spec_to_bits() * 16,
        r@[2] == 0,
{
    let bits = request.to_bits();
    assert(bits < 16 ==> (bits << 4u8) == bits * 16) by (bit_vector);
    assert(request.spec_to_bits() < 16) by {
        if let Mcp3008Request::SingleEnded(channel) = *request {
            assert(channel < 8 ==> (0b1000u8 | channel) < 16) by (bit_vector);
        }
    }
    [0x1, bits << 4u8, 0x0]
}

/// Extracts the ten-bit result from the answer to a read: the low two
/// bits of the middle byte above the whole last byte.
pub fn decode_transfer(rx: &[u8; 3]) -> (r: Mcp3008Response)
    ensures
        r.0 == (rx[1] & 3) * 256 + rx[2],
        r.0 < 1024,
{
    let b1 = rx[1];
    let hi = b1 & 0b11;
    assert(b1 & 0b11 < 4) by (bit_vector);
    Mcp3008Response(hi as u16 * 256 + rx[2] as u16)
}

} // verus!
