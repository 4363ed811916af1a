//! A self-contained driver for the coarse humidity/temperature sensor.
//!
//! This driver reads the same forty-bit frame as the generic family
//! drivers, but with the coarse sensor's own quirks: the humidity
//! decimal byte is always zero, so it is hard-coded rather than parsed,
//! and only the low four bits of the temperature decimal byte carry
//! data, so the rest are masked off. Both choices reduce the impact of
//! timing errors. There is no retry policy and no plausibility check:
//! a frame either matches its parity byte or is rejected.

use vstd::prelude::*;

use crate::clock::SimClock;
use crate::frame::checksum_byte;
use crate::frame::parse_byte;
use crate::frame::spec_parse_byte;
use crate::line::InputLine;
use crate::line::OutputLine;
use crate::pulse::ack_outcome;
use crate::pulse::bits_outcome;
use crate::pulse::read_ack;
use crate::pulse::sample_bits;
use crate::threshold::determine_tick_threshold;
use crate::threshold::spec_threshold;

verus! {

/// What can go wrong while configuring this driver or reading a frame.
#[derive(Debug, PartialEq, Eq, Structural, Clone, Copy)]
pub enum Error {
    /// A propagated hardware failure: the line rejected an operation.
    /// The simulated line cannot fail, so this driver never produces
    /// it; it completes the protocol's error taxonomy for front ends
    /// that drive real hardware.
    Wrapped,
    /// Invalid argument was provided.
    InvalidArgument,
    /// The parity byte did not match the payload.
    BadParity,
    /// Synchronisation with the device was lost: it never completed the
    /// handshake, or a bit outlived the timeout budget.
    Timeout,
}

/// The sensor's minimum interval between reads, in microseconds.
pub const MINIMUM_READ_INTERVAL: u64 = 1_000_000;

/// Request pulse length, in microseconds.
pub const PING_DURATION: u64 = 18_000;

/// A byte reinterpreted as a signed two's-complement value.
pub open spec fn as_signed_byte(b: int) -> int {
    if b < 128 {
        b
    } else {
        b - 256
    }
}

/// Data read from the sensor.
#[derive(Debug, PartialEq, Eq, Structural, Clone, Copy)]
pub struct DhtResponse {
    pub humidity: u8,
    pub humidity_decimal: u8,
    pub temperature: i8,
    pub temperature_decimal: u8,
}

impl DhtResponse {
    /// Assembles a reading from the four payload bytes; the temperature
    /// byte is reinterpreted as signed.
    pub fn from_raw_bytes(bytes: &[u8; 4]) -> (r: DhtResponse)
        ensures
            r.humidity == bytes[0],
            r.humidity_decimal == bytes[1],
            r.temperature == as_signed_byte(bytes[2] as int),
            r.temperature_decimal == bytes[3],
    {
        let t = bytes[2];
        let temperature: i8 = if t < 128 {
            t as i8
        } else {
            ((t as i16) - 256) as i8
        };
        DhtResponse {
            humidity: bytes[0],
            humidity_decimal: bytes[1],
            temperature,
            temperature_decimal: bytes[3],
        }
    }
}

/// The outcome of one read over the replayed line with the replay at
/// `from`. The humidity decimal byte is zero by construction and the
/// temperature decimal byte keeps only its low four bits; the frame is
/// accepted exactly when its parity byte matches the sum of the four
/// payload bytes so read.
pub open spec fn coarse_attempt_result(levels: Seq<bool>, default: bool, from: int) -> Result<
    DhtResponse,
    Error,
> {
    match ack_outcome(levels, default, from) {
        None => Err(Error::Timeout),
        Some(a) => {
            let timeout = 4 * a.0;
            match bits_outcome(levels, default, a.1, timeout, 40) {
                None => Err(Error::Timeout),
                Some(bo) => {
                    let ticks = bo.0;
                    let thr = spec_threshold(ticks);
                    let b0 = spec_parse_byte(ticks, thr, 0);
                    let b2 = spec_parse_byte(ticks, thr, 16);
                    let b3 = spec_parse_byte(ticks, thr, 24) % 16;
                    let parity = spec_parse_byte(ticks, thr, 32);
                    if parity != (b0 + b2 + b3) % 256 {
                        Err(Error::BadParity)
                    } else {
                        Ok(
                            DhtResponse {
                                humidity: b0 as u8,
                                humidity_decimal: 0,
                                temperature: as_signed_byte(b2) as i8,
                                temperature_decimal: b3 as u8,
                            },
                        )
                    }
                },
            }
        },
    }
}

/// A driver for one coarse sensor on its own line.
pub struct Dht11 {
    line: Option<OutputLine>,
    minimum_read_interval: u64,
    last_read_time: u64,
}

impl Dht11 {
    /// The recorded samples of the owned line.
    pub closed spec fn levels(self) -> Seq<bool> {
        self.line.unwrap().levels()
    }

    /// How many samples of the recording have been consumed.
    pub closed spec fn cursor(self) -> int {
        self.line.unwrap().cursor()
    }

    /// The level the owned line settles at once its recording ends.
    pub closed spec fn default_level(self) -> bool {
        self.line.unwrap().default_level()
    }

    /// The instant of the last return to output-idle.
    pub closed spec fn last_read_time(self) -> int {
        self.last_read_time as int
    }

    /// The level the driver is driving on the line, high between calls.
    pub closed spec fn line_level(self) -> bool {
        self.line.unwrap().level()
    }

    /// The enforced minimum interval between reads, in microseconds.
    pub closed spec fn minimum_read_interval(self) -> int {
        self.minimum_read_interval as int
    }

    /// The driver holds its line in output mode between calls, and the
    /// interval was validated.
    pub open spec fn wf(self) -> bool {
        self.minimum_read_interval() >= MINIMUM_READ_INTERVAL && self.line_wf()
    }

    /// The line-ownership part of well-formedness.
    pub closed spec fn line_wf(self) -> bool {
        self.line is Some && self.line.unwrap().wf()
    }

    /// Constructs a driver that reads from the given line and uses the
    /// default minimum read interval of one second.
    pub fn new(line: OutputLine, clock: &SimClock) -> (r: Result<Dht11, Error>)
        requires
            line.wf(),
        ensures
            r is Ok,
            ({
                let d = r.unwrap();
                &&& d.wf()
                &&& d.levels() == line.levels()
                &&& d.cursor() == line.cursor()
                &&& d.default_level() == line.default_level()
                &&& d.line_level() == line.level()
                &&& d.last_read_time() == clock.now()
                &&& d.minimum_read_interval() == MINIMUM_READ_INTERVAL
            }),
    {
        Ok(
            Dht11 {
                line: Some(line),
                minimum_read_interval: MINIMUM_READ_INTERVAL,
                last_read_time: clock.current_time(),
            },
        )
    }

    /// Raises the minimum read interval. An interval below the sensor's
    /// own minimum of one second is rejected and nothing changes.
    pub fn set_minimum_read_interval(&mut self, read_interval: u64) -> (r: Result<(), Error>)
        requires
            old(self).wf(),
        ensures
            final(self).wf(),
            final(self).levels() == old(self).levels(),
            final(self).cursor() == old(self).cursor(),
            final(self).default_level() == old(self).default_level(),
            final(self).last_read_time() == old(self).last_read_time(),
            if read_interval < MINIMUM_READ_INTERVAL {
                r == Err::<(), Error>(Error::InvalidArgument) && final(self).minimum_read_interval()
                    == old(self).minimum_read_interval()
            } else {
                r is Ok && final(self).minimum_read_interval() == read_interval
            },
    {
        if read_interval < MINIMUM_READ_INTERVAL {
            return Err(Error::InvalidArgument);
        }
        self.minimum_read_interval = read_interval;
        Ok(())
    }

    /// Reads one frame, enforcing the minimum read interval through the
    /// injected clock. When a wait is needed, the delay capability is
    /// invoked with exactly the remaining wait, then with the request
    /// pulse length. The line is returned to output mode, driven high,
    /// on every exit path.
    pub fn read(&mut self, clock: &mut SimClock) -> (r: Result<DhtResponse, Error>)
        requires
            old(self).wf(),
            old(self).last_read_time() <= old(clock).now(),
        ensures
            final(self).wf(),
            final(self).minimum_read_interval() == old(self).minimum_read_interval(),
            final(self).levels() == old(self).levels(),
            final(self).default_level() == old(self).default_level(),
            old(self).cursor() <= final(self).cursor() <= old(self).levels().len(),
            final(self).line_level() == true,
            final(self).last_read_time() == final(clock).now(),
            final(clock).delays() == if old(clock).now() - old(self).last_read_time() < old(
                self,
            ).minimum_read_interval() {
                old(clock).delays().push(
                    (old(self).minimum_read_interval() - (old(clock).now() - old(
                        self,
                    ).last_read_time())) as u64,
                ).push(PING_DURATION)
            } else {
                old(clock).delays().push(PING_DURATION)
            },
            r == coarse_attempt_result(
                old(self).levels(),
                old(self).default_level(),
                old(self).cursor(),
            ),
    {
        let elapsed_since_last_read = clock.elapsed_since(self.last_read_time);
        if elapsed_since_last_read < self.minimum_read_interval {
            let to_wait = self.minimum_read_interval - elapsed_since_last_read;
            clock.delay(to_wait);
        }
        self.request_data(clock);
        self.receive_data(clock)
    }

    /// Drives the request pulse: the line is pulled low for the ping
    /// duration, through the injected delay.
    fn request_data(&mut self, clock: &mut SimClock)
        requires
            old(self).wf(),
        ensures
            final(self).wf(),
            final(self).minimum_read_interval() == old(self).minimum_read_interval(),
            final(self).levels() == old(self).levels(),
            final(self).cursor() == old(self).cursor(),
            final(self).default_level() == old(self).default_level(),
            final(self).line_level() == false,
            final(self).last_read_time() == old(self).last_read_time(),
            final(clock).delays() == old(clock).delays().push(PING_DURATION),
            old(clock).now() <= final(clock).now(),
    {
        let line = self.line.as_mut().unwrap();
        line.set_level(false);
        clock.delay(PING_DURATION);
    }

    /// One receive phase: switch the line to input, read the handshake,
    /// sample the forty bits, switch back to output-idle on every path,
    /// then decode with the coarse sensor's masking and check parity.
    fn receive_data(&mut self, clock: &SimClock) -> (r: Result<DhtResponse, Error>)
        requires
            old(self).wf(),
        ensures
            final(self).wf(),
            final(self).minimum_read_interval() == old(self).minimum_read_interval(),
            final(self).levels() == old(self).levels(),
            final(self).default_level() == old(self).default_level(),
            old(self).cursor() <= final(self).cursor() <= old(self).levels().len(),
            final(self).line_level() == true,
            final(self).last_read_time() == clock.now(),
            r == coarse_attempt_result(
                old(self).levels(),
                old(self).default_level(),
                old(self).cursor(),
            ),
    {
        let out = self.line.take().unwrap();
        let mut input = out.into_input();

        // Block for the handshake, and use its length to bound the
        // per-bit busy loops.
        let ack_counter = match read_ack(&mut input) {
            None => {
                self.swap_to_output_mode(input, clock);
                return Err(Error::Timeout);
            },
            Some(c) => c,
        };
        let bit_timeout = ack_counter * 4;

        let bit_ticks = match sample_bits(&mut input, bit_timeout) {
            None => {
                self.swap_to_output_mode(input, clock);
                return Err(Error::Timeout);
            },
            Some(t) => t,
        };

        self.swap_to_output_mode(input, clock);

        let threshold = determine_tick_threshold(&bit_ticks);
        let high_humidity = parse_byte(&bit_ticks, 0, threshold);
        // This sensor always sends zero for the humidity decimal byte:
        // hard-coding it reduces timing errors.
        let low_humidity: u8 = 0;
        let high_temp = parse_byte(&bit_ticks, 16, threshold);
        // This sensor only uses the low four bits of the temperature
        // decimal byte: masking the rest reduces timing errors.
        let low_temp = parse_byte(&bit_ticks, 24, threshold) % 16;
        let parity = parse_byte(&bit_ticks, 32, threshold);

        let expected_parity = checksum_byte(high_humidity, low_humidity, high_temp, low_temp);
        if parity != expected_parity {
            return Err(Error::BadParity);
        }

        let bytes = [high_humidity, low_humidity, high_temp, low_temp];
        Ok(DhtResponse::from_raw_bytes(&bytes))
    }

    /// Returns the line to output-idle (driven high) and remembers the
    /// instant, as every exit path from a read must.
    fn swap_to_output_mode(&mut self, input: InputLine, clock: &SimClock)
        requires
            old(self).minimum_read_interval() >= MINIMUM_READ_INTERVAL,
        ensures
            final(self).wf() == input.wf(),
            final(self).minimum_read_interval() == old(self).minimum_read_interval(),
            final(self).levels() == input.levels(),
            final(self).cursor() == input.cursor(),
            final(self).default_level() == input.default_level(),
            final(self).line_level() == true,
            final(self).last_read_time() == clock.now(),
    {
        self.line = Some(input.into_output(true));
        self.last_read_time = clock.current_time();
    }
}

} // verus!
