//! Drivers for the two-variant humidity/temperature sensor family.
//!
//! Both variants share one protocol: a request pulse, a high/low/high
//! handshake, forty timing-encoded data bits, a reserved end pulse and
//! an additive checksum. They differ in the response layout, the
//! plausibility bounds, the request pulse length and the minimum
//! interval between reads, so one generic orchestrator drives both,
//! parameterised by a response format.
//!
//! The orchestrator enforces the minimum interval through the injected
//! clock, retries corrupted frames up to the configured attempt budget,
//! gives up at once when no device answers, and returns the line to
//! output-idle on every exit path.

use vstd::prelude::*;

use crate::clock::SimClock;
use crate::frame::decode_frame_bytes;
use crate::frame::spec_frame_bytes;
use crate::line::InputLine;
use crate::line::OutputLine;
use crate::pulse::ack_outcome;
use crate::pulse::bits_fail_cursor;
use crate::pulse::bits_outcome;
use crate::pulse::read_ack;
use crate::pulse::read_end_with_timeout;
use crate::pulse::run_end;
use crate::pulse::sample_bits;
use crate::threshold::spec_threshold;

verus! {

/// What can go wrong while constructing a driver or reading a frame.
#[derive(Debug, PartialEq, Eq, Structural, Clone, Copy)]
pub enum Error {
    /// A propagated hardware failure: the line rejected an operation.
    /// Always fatal and never retried. The simulated line cannot fail,
    /// so the drivers here never produce it; it completes the protocol's
    /// error taxonomy for front ends that drive real hardware.
    Wrapped,
    /// Invalid argument was provided at construction. No line access is
    /// attempted.
    InvalidArgument,
    /// Invalid data was read on every attempt: synchronisation was lost
    /// mid-frame, the checksum or end pulse did not check out, or the
    /// decoded values were implausible. Retryable.
    BadData,
    /// No response was received: the device never completed the
    /// handshake. Immediately fatal even under a retry budget, since an
    /// absent device will not appear by retrying within the same call.
    NoResponse,
}

/// The minimum read interval of the coarse variant, in microseconds.
///
/// This can vary a bit by device; doubling it can help when error rates
/// are high.
pub const MIN_DHT11_READ_INTERVAL: u64 = 1_000_000;

/// The minimum read interval of the signed-fraction variant, in
/// microseconds.
///
/// This can vary a bit by device; doubling it can help when error rates
/// are high.
pub const MIN_DHT22_READ_INTERVAL: u64 = 2_000_000;

/// Request pulse length of the coarse variant, in microseconds.
pub const DHT11_PING_DURATION: u64 = 18_000;

/// Request pulse length of the signed-fraction variant, in microseconds.
pub const DHT22_PING_DURATION: u64 = 1_000;

/// Options to modify the behavior of a driver.
#[derive(Debug, PartialEq, Eq, Structural, Clone, Copy)]
pub struct Options {
    /// The minimum time that must pass between reads, in microseconds.
    /// Cannot be below the sensor's absolute minimum read interval,
    /// [`MIN_DHT11_READ_INTERVAL`] or [`MIN_DHT22_READ_INTERVAL`].
    pub min_read_interval: u64,
    /// The maximum number of read attempts for any one call to `read`.
    /// Must be at least one. Each retry waits out the minimum read
    /// interval again, so a large budget makes a failing read slow.
    pub max_attempts: u8,
}

/// The options a coarse-variant driver is built with when none are
/// given: the sensor's own minimum interval and a single attempt.
pub fn default_dht11_options() -> (r: Options)
    ensures
        r == (Options { min_read_interval: MIN_DHT11_READ_INTERVAL, max_attempts: 1 }),
{
    Options { min_read_interval: MIN_DHT11_READ_INTERVAL, max_attempts: 1 }
}

/// The options a signed-fraction-variant driver is built with when none
/// are given: the sensor's own minimum interval and a single attempt.
pub fn default_dht22_options() -> (r: Options)
    ensures
        r == (Options { min_read_interval: MIN_DHT22_READ_INTERVAL, max_attempts: 1 }),
{
    Options { min_read_interval: MIN_DHT22_READ_INTERVAL, max_attempts: 1 }
}

/// A response format: how four payload bytes become a reading, and when
/// a reading is plausible. Validation must fail closed, so a frame whose
/// checksum passes is still rejected when its values are out of range.
pub trait ResponseFormat: Sized {
    /// The reading the four payload bytes decode to.
    spec fn spec_from_bytes(b0: u8, b1: u8, b2: u8, b3: u8) -> Self;

    /// Whether the reading lies within the variant's physical bounds.
    spec fn spec_valid(self) -> bool;

    /// Decodes four payload bytes.
    fn from_raw_bytes(bytes: [u8; 4]) -> (r: Self)
        ensures
            r == Self::spec_from_bytes(bytes[0], bytes[1], bytes[2], bytes[3]),
    ;

    /// Applies the variant's plausibility bounds.
    fn is_valid(&self) -> (b: bool)
        ensures
            b == self.spec_valid(),
    ;
}

/// Data read from the coarse variant: integer and decimal parts of
/// humidity and temperature, the decimal parts in tenths.
#[derive(Debug, PartialEq, Eq, Structural, Clone, Copy)]
pub struct Dht11Response {
    pub humidity: u8,
    pub humidity_decimal: u8,
    pub temperature: u8,
    pub temperature_decimal: u8,
}

impl ResponseFormat for Dht11Response {
    open spec fn spec_from_bytes(b0: u8, b1: u8, b2: u8, b3: u8) -> Dht11Response {
        Dht11Response { humidity: b0, humidity_decimal: b1, temperature: b2, temperature_decimal: b3 }
    }

    /// The sensor reads humidity up to one hundred percent and
    /// temperatures up to seventy-five degrees (the datasheet bound plus
    /// headroom), with decimal parts below ten and exactly zero at the
    /// upper bounds.
    open spec fn spec_valid(self) -> bool {
        &&& (self.humidity < 100 && self.humidity_decimal < 10) || (self.humidity == 100
            && self.humidity_decimal == 0)
        &&& (self.temperature < 75 && self.temperature_decimal < 10) || (self.temperature == 75
            && self.temperature_decimal == 0)
    }

    fn from_raw_bytes(bytes: [u8; 4]) -> (r: Dht11Response) {
        Dht11Response {
            humidity: bytes[0],
            humidity_decimal: bytes[1],
            temperature: bytes[2],
            temperature_decimal: bytes[3],
        }
    }

    fn is_valid(&self) -> (b: bool) {
        ((self.humidity < 100 && self.humidity_decimal < 10) || (self.humidity == 100
            && self.humidity_decimal == 0)) && ((self.temperature < 75 && self.temperature_decimal
            < 10) || (self.temperature == 75 && self.temperature_decimal == 0))
    }
}

/// Data read from the signed-fraction variant: humidity and temperature
/// in tenths; bit fifteen of the temperature is its sign, the low
/// fifteen bits its magnitude.
#[derive(Debug, PartialEq, Eq, Structural, Clone, Copy)]
pub struct Dht22Response {
    pub humidity_x10: u16,
    pub temperature_x10: u16,
}

impl ResponseFormat for Dht22Response {
    open spec fn spec_from_bytes(b0: u8, b1: u8, b2: u8, b3: u8) -> Dht22Response {
        Dht22Response {
            humidity_x10: (b0 * 256 + b1) as u16,
            temperature_x10: (b2 * 256 + b3) as u16,
        }
    }

    /// The sensor reads humidity up to one hundred percent and
    /// temperatures from forty below to one hundred twenty-five degrees
    /// (the datasheet bounds plus headroom), all in tenths: the
    /// magnitude must stay strictly below six hundred when negative and
    /// the value strictly below fifteen hundred when non-negative.
    open spec fn spec_valid(self) -> bool {
        &&& self.humidity_x10 <= 1000
        &&& if self.temperature_x10 >= 0x8000 {
            self.temperature_x10 % 0x8000 < 600
        } else {
            self.temperature_x10 < 1500
        }
    }

    fn from_raw_bytes(bytes: [u8; 4]) -> (r: Dht22Response) {
        Dht22Response {
            humidity_x10: bytes[0] as u16 * 256 + bytes[1] as u16,
            temperature_x10: bytes[2] as u16 * 256 + bytes[3] as u16,
        }
    }

    fn is_valid(&self) -> (b: bool) {
        let temp_is_negative = self.temperature_x10 >= 0x8000;
        let temp_is_valid = (temp_is_negative && self.temperature_x10 % 0x8000 < 600) || (
        !temp_is_negative && self.temperature_x10 < 1500);
        self.humidity_x10 <= 1000 && temp_is_valid
    }
}

/// The line holds one level now and forever from `from` on: it will
/// never toggle again.
pub open spec fn stuck_line(levels: Seq<bool>, default: bool, from: int) -> bool {
    ||| (default == true && forall|i: int| from <= i < levels.len() ==> levels[i] == true)
    ||| (default == false && forall|i: int| from <= i < levels.len() ==> levels[i] == false)
}

/// A run awaited at the level the line is stuck at never ends.
proof fn lemma_stuck_run_none(levels: Seq<bool>, default: bool, from: int, lv: bool)
    requires
        0 <= from <= levels.len(),
        default == lv,
        forall|i: int| from <= i < levels.len() ==> levels[i] == lv,
    ensures
        run_end(levels, default, from, lv) is None,
    decreases levels.len() - from,
{
    if from < levels.len() {
        lemma_stuck_run_none(levels, default, from + 1, lv);
    }
}

/// A line that never toggles never completes the handshake.
pub proof fn lemma_stuck_no_ack(levels: Seq<bool>, default: bool, from: int)
    requires
        0 <= from <= levels.len(),
        stuck_line(levels, default, from),
    ensures
        ack_outcome(levels, default, from) is None,
{
    if default == true && forall|i: int| from <= i < levels.len() ==> levels[i] == true {
        lemma_stuck_run_none(levels, default, from, true);
    } else {
        // Stuck low: the first high wait ends immediately, then the low
        // wait never ends.
        let e1 = run_end(levels, default, from, true);
        assert(e1 == Some(from));
        let f1 = crate::pulse::after_run(levels, from);
        assert(from <= f1 <= levels.len());
        lemma_stuck_run_none(levels, default, f1, false);
    }
}

/// The full outcome of one read attempt over the replayed line, started
/// with the replay at `from`: the handshake seeds the bit timeout, the
/// forty bits and the end pulse are sampled, the frame is decoded
/// against its own threshold, and the checksum, the end pulse and the
/// plausibility bounds are all checked. A failed handshake reports an
/// absent device; everything else that goes wrong is bad data.
pub open spec fn attempt_result<R: ResponseFormat>(
    levels: Seq<bool>,
    default: bool,
    from: int,
) -> Result<R, Error> {
    match ack_outcome(levels, default, from) {
        None => Err(Error::NoResponse),
        Some(a) => {
            let timeout = 4 * a.0;
            match bits_outcome(levels, default, a.1, timeout, 40) {
                None => Err(Error::BadData),
                Some(bo) => match run_end(levels, default, bo.1, false) {
                    None => Err(Error::BadData),
                    Some(e) => {
                        if e - bo.1 > timeout {
                            Err(Error::BadData)
                        } else {
                            let ticks = bo.0;
                            let end_ticks = e - bo.1;
                            let thr = spec_threshold(ticks);
                            let b = spec_frame_bytes(ticks);
                            let resp = R::spec_from_bytes(
                                b.0 as u8,
                                b.1 as u8,
                                b.2 as u8,
                                b.3 as u8,
                            );
                            if b.4 != (b.0 + b.1 + b.2 + b.3) % 256 || end_ticks > thr
                                || !resp.spec_valid() {
                                Err(Error::BadData)
                            } else {
                                Ok(resp)
                            }
                        }
                    },
                },
            }
        },
    }
}

/// Where the replay stands after one attempt, whatever its outcome: a
/// failed handshake drains the recording, a mid-frame loss of
/// synchronisation consumes samples until the budget is spent, and a
/// fully sampled frame — accepted or rejected in decode — consumes the
/// handshake, the forty bits and the end pulse exactly.
pub open spec fn attempt_cursor(levels: Seq<bool>, default: bool, from: int) -> int {
    match ack_outcome(levels, default, from) {
        None => levels.len() as int,
        Some(a) => {
            let timeout = 4 * a.0;
            match bits_outcome(levels, default, a.1, timeout, 40) {
                None => bits_fail_cursor(levels, default, a.1, timeout, 40),
                Some(bo) => match run_end(levels, default, bo.1, false) {
                    None => vstd::math::min(levels.len() as int, bo.1 + timeout + 1),
                    Some(e) => if e - bo.1 > timeout {
                        bo.1 + timeout + 1
                    } else {
                        crate::pulse::after_run(levels, e)
                    },
                },
            }
        },
    }
}

/// The whole retry policy as one function of the replayed line: the
/// attempts run in sequence, each starting where the previous one left
/// the replay; the first success or absent-device outcome ends the
/// sequence at once, only bad data is retried, and when the budget runs
/// out the result is the last attempt's error. The result is the
/// triple of the returned value, the replay position after the call,
/// and how many attempts were made.
pub open spec fn retry_outcome<R: ResponseFormat>(
    levels: Seq<bool>,
    default: bool,
    from: int,
    attempts: int,
) -> (Result<R, Error>, int, int)
    decreases attempts,
{
    let r = attempt_result::<R>(levels, default, from);
    let cur = attempt_cursor(levels, default, from);
    if attempts <= 1 || r is Ok || r == Err::<R, Error>(Error::NoResponse) {
        (r, cur, 1)
    } else {
        let rest = retry_outcome::<R>(levels, default, cur, attempts - 1);
        (rest.0, rest.1, rest.2 + 1)
    }
}

/// A successful attempt always carries a plausible reading, and a failed
/// one reports either bad data or an absent device.
proof fn lemma_attempt_result_cases<R: ResponseFormat>(levels: Seq<bool>, default: bool, from: int)
    ensures
        attempt_result::<R>(levels, default, from) is Ok ==> attempt_result::<R>(
            levels,
            default,
            from,
        ).unwrap().spec_valid(),
        attempt_result::<R>(levels, default, from) is Err ==> (attempt_result::<R>(
            levels,
            default,
            from,
        ) == Err::<R, Error>(Error::BadData) || attempt_result::<R>(levels, default, from)
            == Err::<R, Error>(Error::NoResponse)),
{
}

/// State shared by every driver of this sensor family: the owned line
/// and the instant of the last return to output-idle.
struct DhtBase {
    line: Option<OutputLine>,
    last_read_time: u64,
}

impl DhtBase {
    spec fn levels(self) -> Seq<bool> {
        self.line.unwrap().levels()
    }

    spec fn cursor(self) -> int {
        self.line.unwrap().cursor()
    }

    spec fn default_level(self) -> bool {
        self.line.unwrap().default_level()
    }

    spec fn last_time(self) -> int {
        self.last_read_time as int
    }

    /// The level currently driven on the line (meaningful between
    /// calls, when the line is held in output mode).
    spec fn line_level(self) -> bool {
        self.line.unwrap().level()
    }

    /// Between calls the line is always held in output mode.
    spec fn wf(self) -> bool {
        self.line is Some && self.line.unwrap().wf()
    }

    fn new(line: OutputLine, clock: &SimClock) -> (r: DhtBase)
        requires
            line.wf(),
        ensures
            r.wf(),
            r.levels() == line.levels(),
            r.cursor() == line.cursor(),
            r.default_level() == line.default_level(),
            r.line_level() == line.level(),
            r.last_time() == clock.now(),
    {
        DhtBase { line: Some(line), last_read_time: clock.current_time() }
    }

    /// Returns the line to output-idle (driven high) and remembers the
    /// instant, as every exit path from a read must.
    fn swap_to_output_mode(&mut self, input: InputLine, clock: &SimClock)
        ensures
            final(self).wf() == input.wf(),
            final(self).levels() == input.levels(),
            final(self).cursor() == input.cursor(),
            final(self).default_level() == input.default_level(),
            final(self).line_level() == true,
            final(self).last_time() == clock.now(),
    {
        self.line = Some(input.into_output(true));
        self.last_read_time = clock.current_time();
    }

    /// Drives the request pulse: the line is pulled low for the
    /// variant's ping duration, through the injected delay.
    fn request_data(&mut self, ping_duration: u64, clock: &mut SimClock)
        requires
            old(self).wf(),
        ensures
            final(self).wf(),
            final(self).levels() == old(self).levels(),
            final(self).cursor() == old(self).cursor(),
            final(self).default_level() == old(self).default_level(),
            final(self).line_level() == false,
            final(self).last_time() == old(self).last_time(),
            final(clock).delays() == old(clock).delays().push(ping_duration),
            old(clock).now() <= final(clock).now(),
    {
        let line = self.line.as_mut().unwrap();
        line.set_level(false);
        clock.delay(ping_duration);
    }

    /// One receive phase: switch the line to input, read the handshake,
    /// sample the forty bits and the end pulse, switch back to
    /// output-idle on every path, then decode and validate.
    fn receive_data<R: ResponseFormat>(&mut self, clock: &SimClock) -> (r: Result<R, Error>)
        requires
            old(self).wf(),
        ensures
            final(self).wf(),
            final(self).levels() == old(self).levels(),
            final(self).default_level() == old(self).default_level(),
            old(self).cursor() <= final(self).cursor() <= old(self).levels().len(),
            final(self).line_level() == true,
            final(self).last_time() == clock.now(),
            r == attempt_result::<R>(
                old(self).levels(),
                old(self).default_level(),
                old(self).cursor(),
            ),
            final(self).cursor() == attempt_cursor(
                old(self).levels(),
                old(self).default_level(),
                old(self).cursor(),
            ),
    {
        let out = self.line.take().unwrap();
        let mut input = out.into_input();

        // Block for the handshake, and use its length to bound the
        // per-bit busy loops.
        let ack_counter = match read_ack(&mut input) {
            None => {
                self.swap_to_output_mode(input, clock);
                return Err(Error::NoResponse);
            },
            Some(c) => c,
        };
        let bit_timeout = ack_counter * 4;

        let bit_ticks = match sample_bits(&mut input, bit_timeout) {
            None => {
                self.swap_to_output_mode(input, clock);
                return Err(Error::BadData);
            },
            Some(t) => t,
        };
        let end_ticks = match read_end_with_timeout(&mut input, bit_timeout) {
            None => {
                self.swap_to_output_mode(input, clock);
                return Err(Error::BadData);
            },
            Some(t) => t,
        };

        self.swap_to_output_mode(input, clock);

        let decoded = decode_frame_bytes(&bit_ticks);
        let bytes = decoded.0;
        let parity = decoded.1;
        let threshold = decoded.2;
        let expected_parity = crate::frame::checksum_byte(bytes[0], bytes[1], bytes[2], bytes[3]);
        let end_bit_long = end_ticks > threshold;
        if parity != expected_parity || end_bit_long {
            return Err(Error::BadData);
        }
        let result = R::from_raw_bytes(bytes);
        if !result.is_valid() {
            return Err(Error::BadData);
        }
        Ok(result)
    }

    /// One full attempt: wait out the remainder of the minimum read
    /// interval, drive the request pulse, and receive. The delay
    /// capability is invoked for exactly the remaining wait, never the
    /// full interval.
    fn read<R: ResponseFormat>(
        &mut self,
        ping_duration: u64,
        min_read_interval: u64,
        clock: &mut SimClock,
    ) -> (r: Result<R, Error>)
        requires
            old(self).wf(),
            old(self).last_time() <= old(clock).now(),
        ensures
            final(self).wf(),
            final(self).levels() == old(self).levels(),
            final(self).default_level() == old(self).default_level(),
            old(self).cursor() <= final(self).cursor() <= old(self).levels().len(),
            final(self).line_level() == true,
            final(self).last_time() == final(clock).now(),
            final(self).cursor() == attempt_cursor(
                old(self).levels(),
                old(self).default_level(),
                old(self).cursor(),
            ),
            final(clock).delays() == if old(clock).now() - old(self).last_time()
                < min_read_interval {
                old(clock).delays().push(
                    (min_read_interval - (old(clock).now() - old(self).last_time())) as u64,
                ).push(ping_duration)
            } else {
                old(clock).delays().push(ping_duration)
            },
            r == attempt_result::<R>(
                old(self).levels(),
                old(self).default_level(),
                old(self).cursor(),
            ),
    {
        let elapsed_since_last_read = clock.elapsed_since(self.last_read_time);
        if elapsed_since_last_read < min_read_interval {
            let to_wait = min_read_interval - elapsed_since_last_read;
            clock.delay(to_wait);
        }
        self.request_data(ping_duration, clock);
        self.receive_data::<R>(clock)
    }
}

/// The retry policy, shared by both variants: up to `max_attempts`
/// attempts, each waiting out the minimum read interval; bad data is
/// retried, an absent device aborts at once, and after the budget is
/// spent the last error is returned. `attempts` counts every request
/// pulse driven. The returned value, the replay position and the
/// attempt count are exactly those of [`retry_outcome`].
#[verifier::loop_isolation(false)]
fn read_with_retries<R: ResponseFormat>(
    base: &mut DhtBase,
    options: Options,
    ping_duration: u64,
    attempts: &mut u64,
    clock: &mut SimClock,
) -> (r: Result<R, Error>)
    requires
        old(base).wf(),
        old(base).last_time() <= old(clock).now(),
        options.max_attempts >= 1,
        *old(attempts) + options.max_attempts <= u64::MAX,
    ensures
        final(base).wf(),
        final(base).levels() == old(base).levels(),
        final(base).default_level() == old(base).default_level(),
        old(base).cursor() <= final(base).cursor() <= old(base).levels().len(),
        final(base).line_level() == true,
        final(base).last_time() == final(clock).now(),
        *old(attempts) + 1 <= *final(attempts) <= *old(attempts) + options.max_attempts,
        r is Ok ==> r.unwrap().spec_valid(),
        r is Err ==> r == Err::<R, Error>(Error::BadData) || r == Err::<R, Error>(
            Error::NoResponse,
        ),
        ({
            let o = retry_outcome::<R>(
                old(base).levels(),
                old(base).default_level(),
                old(base).cursor(),
                options.max_attempts as int,
            );
            &&& r == o.0
            &&& final(base).cursor() == o.1
            &&& *final(attempts) == *old(attempts) + o.2
        }),
        stuck_line(old(base).levels(), old(base).default_level(), old(base).cursor()) ==> r
            == Err::<R, Error>(Error::NoResponse) && *final(attempts) == *old(attempts) + 1,
        old(clock).delays().len() < final(clock).delays().len(),
        final(clock).delays().subrange(0, old(clock).delays().len() as int) == old(clock).delays(),
        final(clock).delays()[old(clock).delays().len() as int] == if old(clock).now() - old(
            base,
        ).last_time() < options.min_read_interval {
            ((options.min_read_interval - (old(clock).now() - old(base).last_time())) as u64)
        } else {
            ping_duration
        },
        old(clock).now() - old(base).last_time() < options.min_read_interval ==> old(
            clock,
        ).delays().len() + 1 < final(clock).delays().len() && final(clock).delays()[old(
            clock,
        ).delays().len() as int + 1] == ping_duration,
{
    let ghost l = old(base).levels();
    let ghost d = old(base).default_level();
    let ghost c0 = old(base).cursor();
    let ghost max = options.max_attempts as int;
    let ghost full = retry_outcome::<R>(l, d, c0, max);
    proof {
        if stuck_line(l, d, c0) {
            lemma_stuck_no_ack(l, d, c0);
        }
    }
    let mut attempt: u8 = 0;
    loop
        invariant
            0 <= attempt < options.max_attempts,
            base.wf(),
            base.levels() == l,
            base.default_level() == d,
            c0 <= base.cursor() <= l.len(),
            base.last_time() <= clock.now(),
            *attempts == *old(attempts) + attempt,
            retry_outcome::<R>(l, d, base.cursor(), max - attempt) == (
                full.0,
                full.1,
                full.2 - attempt,
            ),
            attempt == 0 ==> clock.delays() == old(clock).delays() && clock.now() == old(
                clock,
            ).now() && base.last_time() == old(base).last_time() && base.cursor() == c0,
            attempt >= 1 ==> base.last_time() == clock.now() && base.line_level() == true,
            attempt >= 1 ==> old(clock).delays().len() < clock.delays().len() && clock.delays()
                .subrange(0, old(clock).delays().len() as int) == old(clock).delays() && clock
                .delays()[old(clock).delays().len() as int] == (if old(clock).now() - old(
                base,
            ).last_time() < options.min_read_interval {
                ((options.min_read_interval - (old(clock).now() - old(base).last_time())) as u64)
            } else {
                ping_duration
            }) && (old(clock).now() - old(base).last_time() < options.min_read_interval ==> old(
                clock,
            ).delays().len() + 1 < clock.delays().len() && clock.delays()[old(
                clock,
            ).delays().len() as int + 1] == ping_duration),
        decreases options.max_attempts - attempt,
    {
        let ghost cur = base.cursor();
        let ghost pre_delays = clock.delays();
        proof {
            lemma_attempt_result_cases::<R>(l, d, cur);
        }
        let outcome = base.read::<R>(ping_duration, options.min_read_interval, clock);
        *attempts = *attempts + 1;
        attempt = attempt + 1;
        proof {
            if attempt == 1 {
                assert(clock.delays().subrange(0, old(clock).delays().len() as int) =~= old(
                    clock,
                ).delays());
            } else {
                assert(clock.delays().subrange(0, old(clock).delays().len() as int) == old(
                    clock,
                ).delays()) by {
                    assert(pre_delays.subrange(0, old(clock).delays().len() as int) == old(
                        clock,
                    ).delays());
                    assert(forall|i: int|
                        0 <= i < pre_delays.len() ==> clock.delays()[i] == pre_delays[i]);
                    assert(clock.delays().subrange(0, old(clock).delays().len() as int)
                        =~= pre_delays.subrange(0, old(clock).delays().len() as int));
                }
            }
        }
        match outcome {
            Ok(resp) => {
                return Ok(resp);
            },
            Err(Error::NoResponse) => {
                return Err(Error::NoResponse);
            },
            Err(e) => {
                if attempt == options.max_attempts {
                    return Err(e);
                }
            },
        }
    }
}

/// A driver for one coarse-variant sensor on its own line.
pub struct Dht11 {
    base: DhtBase,
    options: Options,
    attempts: u64,
}

/// A driver for one signed-fraction-variant sensor on its own line.
pub struct Dht22 {
    base: DhtBase,
    options: Options,
    attempts: u64,
}

impl Dht11 {
    /// The recorded samples of the owned line.
    pub closed spec fn levels(self) -> Seq<bool> {
        self.base.levels()
    }

    /// How many samples of the recording have been consumed.
    pub closed spec fn cursor(self) -> int {
        self.base.cursor()
    }

    /// The level the owned line settles at once its recording ends.
    pub closed spec fn default_level(self) -> bool {
        self.base.default_level()
    }

    /// The instant of the last return to output-idle.
    pub closed spec fn last_read_time(self) -> int {
        self.base.last_time()
    }

    /// The level the driver is driving on the line, high between calls.
    pub closed spec fn line_level(self) -> bool {
        self.base.line_level()
    }

    /// The options the driver was built with.
    pub closed spec fn options(self) -> Options {
        self.options
    }

    /// How many request pulses this driver has driven.
    pub closed spec fn attempts_made(self) -> int {
        self.attempts as int
    }

    /// The driver holds its line in output mode between calls, and the
    /// options have been validated.
    pub open spec fn wf(self) -> bool {
        &&& self.options().min_read_interval >= MIN_DHT11_READ_INTERVAL
        &&& self.options().max_attempts >= 1
        &&& self.base_wf()
    }

    /// The line-ownership part of well-formedness.
    pub closed spec fn base_wf(self) -> bool {
        self.base.wf()
    }

    /// Constructs a driver that reads from the given line, checking the
    /// options first: an interval below the sensor's absolute minimum or
    /// an empty attempt budget is rejected without any line access. When
    /// no options are given the defaults are used.
    pub fn new(line: OutputLine, clock: &SimClock, options: Option<Options>) -> (r: Result<
        Dht11,
        Error,
    >)
        requires
            line.wf(),
        ensures
            match options {
                Some(o) => if o.min_read_interval < MIN_DHT11_READ_INTERVAL || o.max_attempts < 1 {
                    r == Err::<Dht11, Error>(Error::InvalidArgument)
                } else {
                    r is Ok && r.unwrap().options() == o
                },
                None => r is Ok && r.unwrap().options() == (Options {
                    min_read_interval: MIN_DHT11_READ_INTERVAL,
                    max_attempts: 1,
                }),
            },
            r is Ok ==> {
                let d = r.unwrap();
                &&& d.wf()
                &&& d.levels() == line.levels()
                &&& d.cursor() == line.cursor()
                &&& d.default_level() == line.default_level()
                &&& d.line_level() == line.level()
                &&& d.last_read_time() == clock.now()
                &&& d.attempts_made() == 0
            },
    {
        let opts = match options {
            None => default_dht11_options(),
            Some(o) => {
                if o.min_read_interval < MIN_DHT11_READ_INTERVAL || o.max_attempts < 1 {
                    return Err(Error::InvalidArgument);
                }
                o
            },
        };
        Ok(Dht11 { base: DhtBase::new(line, clock), options: opts, attempts: 0 })
    }

    /// Reads one frame, enforcing the minimum read interval through the
    /// injected clock and retrying bad data — and only bad data — up to
    /// the attempt budget; once the budget is spent the last observed
    /// error is returned. A device that never completes the handshake
    /// aborts at once, after exactly one attempt; in particular a line
    /// that never toggles is reported absent. The line is returned to
    /// output mode, driven high, on every exit path. When a wait is
    /// needed, the delay capability is invoked with exactly the
    /// remaining wait, then with the request pulse length.
    pub fn read(&mut self, clock: &mut SimClock) -> (r: Result<Dht11Response, Error>)
        requires
            old(self).wf(),
            old(self).last_read_time() <= old(clock).now(),
            old(self).attempts_made() + old(self).options().max_attempts <= u64::MAX,
        ensures
            final(self).wf(),
            final(self).options() == old(self).options(),
            final(self).levels() == old(self).levels(),
            final(self).default_level() == old(self).default_level(),
            old(self).cursor() <= final(self).cursor() <= old(self).levels().len(),
            final(self).line_level() == true,
            final(self).last_read_time() == final(clock).now(),
            old(self).attempts_made() + 1 <= final(self).attempts_made() <= old(
                self,
            ).attempts_made() + old(self).options().max_attempts,
            r is Ok ==> r.unwrap().spec_valid(),
            r is Err ==> r == Err::<Dht11Response, Error>(Error::BadData) || r == Err::<
                Dht11Response,
                Error,
            >(Error::NoResponse),
            ({
                let o = retry_outcome::<Dht11Response>(
                    old(self).levels(),
                    old(self).default_level(),
                    old(self).cursor(),
                    old(self).options().max_attempts as int,
                );
                &&& r == o.0
                &&& final(self).cursor() == o.1
                &&& final(self).attempts_made() == old(self).attempts_made() + o.2
            }),
            stuck_line(old(self).levels(), old(self).default_level(), old(self).cursor()) ==> r
                == Err::<Dht11Response, Error>(Error::NoResponse) && final(self).attempts_made()
                == old(self).attempts_made() + 1,
            old(clock).delays().len() < final(clock).delays().len(),
            final(clock).delays().subrange(0, old(clock).delays().len() as int) == old(
                clock,
            ).delays(),
            final(clock).delays()[old(clock).delays().len() as int] == if old(clock).now() - old(
                self,
            ).last_read_time() < old(self).options().min_read_interval {
                ((old(self).options().min_read_interval - (old(clock).now() - old(
                    self,
                ).last_read_time())) as u64)
            } else {
                DHT11_PING_DURATION
            },
            old(clock).now() - old(self).last_read_time() < old(self).options().min_read_interval
                ==> old(clock).delays().len() + 1 < final(clock).delays().len()
                && final(clock).delays()[old(clock).delays().len() as int + 1] == DHT11_PING_DURATION,
    {
        read_with_retries::<Dht11Response>(
            &mut self.base,
            self.options,
            DHT11_PING_DURATION,
            &mut self.attempts,
            clock,
        )
    }

    /// How many request pulses this driver has driven, over all reads.
    pub fn attempt_count(&self) -> (r: u64)
        ensures
            r == self.attempts_made(),
    {
        self.attempts
    }
}

impl Dht22 {
    /// The recorded samples of the owned line.
    pub closed spec fn levels(self) -> Seq<bool> {
        self.base.levels()
    }

    /// How many samples of the recording have been consumed.
    pub closed spec fn cursor(self) -> int {
        self.base.cursor()
    }

    /// The level the owned line settles at once its recording ends.
    pub closed spec fn default_level(self) -> bool {
        self.base.default_level()
    }

    /// The instant of the last return to output-idle.
    pub closed spec fn last_read_time(self) -> int {
        self.base.last_time()
    }

    /// The level the driver is driving on the line, high between calls.
    pub closed spec fn line_level(self) -> bool {
        self.base.line_level()
    }

    /// The options the driver was built with.
    pub closed spec fn options(self) -> Options {
        self.options
    }

    /// How many request pulses this driver has driven.
    pub closed spec fn attempts_made(self) -> int {
        self.attempts as int
    }

    /// The driver holds its line in output mode between calls, and the
    /// options have been validated.
    pub open spec fn wf(self) -> bool {
        &&& self.options().min_read_interval >= MIN_DHT22_READ_INTERVAL
        &&& self.options().max_attempts >= 1
        &&& self.base_wf()
    }

    /// The line-ownership part of well-formedness.
    pub closed spec fn base_wf(self) -> bool {
        self.base.wf()
    }

    /// Constructs a driver that reads from the given line, checking the
    /// options first: an interval below the sensor's absolute minimum or
    /// an empty attempt budget is rejected without any line access. When
    /// no options are given the defaults are used.
    pub fn new(line: OutputLine, clock: &SimClock, options: Option<Options>) -> (r: Result<
        Dht22,
        Error,
    >)
        requires
            line.wf(),
        ensures
            match options {
                Some(o) => if o.min_read_interval < MIN_DHT22_READ_INTERVAL || o.max_attempts < 1 {
                    r == Err::<Dht22, Error>(Error::InvalidArgument)
                } else {
                    r is Ok && r.unwrap().options() == o
                },
                None => r is Ok && r.unwrap().options() == (Options {
                    min_read_interval: MIN_DHT22_READ_INTERVAL,
                    max_attempts: 1,
                }),
            },
            r is Ok ==> {
                let d = r.unwrap();
                &&& d.wf()
                &&& d.levels() == line.levels()
                &&& d.cursor() == line.cursor()
                &&& d.default_level() == line.default_level()
                &&& d.line_level() == line.level()
                &&& d.last_read_time() == clock.now()
                &&& d.attempts_made() == 0
            },
    {
        let opts = match options {
            None => default_dht22_options(),
            Some(o) => {
                if o.min_read_interval < MIN_DHT22_READ_INTERVAL || o.max_attempts < 1 {
                    return Err(Error::InvalidArgument);
                }
                o
            },
        };
        Ok(Dht22 { base: DhtBase::new(line, clock), options: opts, attempts: 0 })
    }

    /// Reads one frame, enforcing the minimum read interval through the
    /// injected clock and retrying bad data — and only bad data — up to
    /// the attempt budget; once the budget is spent the last observed
    /// error is returned. A device that never completes the handshake
    /// aborts at once, after exactly one attempt; in particular a line
    /// that never toggles is reported absent. The line is returned to
    /// output mode, driven high, on every exit path. When a wait is
    /// needed, the delay capability is invoked with exactly the
    /// remaining wait, then with the request pulse length.
    pub fn read(&mut self, clock: &mut SimClock) -> (r: Result<Dht22Response, Error>)
        requires
            old(self).wf(),
            old(self).last_read_time() <= old(clock).now(),
            old(self).attempts_made() + old(self).options().max_attempts <= u64::MAX,
        ensures
            final(self).wf(),
            final(self).options() == old(self).options(),
            final(self).levels() == old(self).levels(),
            final(self).default_level() == old(self).default_level(),
            old(self).cursor() <= final(self).cursor() <= old(self).levels().len(),
            final(self).line_level() == true,
            final(self).last_read_time() == final(clock).now(),
            old(self).attempts_made() + 1 <= final(self).attempts_made() <= old(
                self,
            ).attempts_made() + old(self).options().max_attempts,
            r is Ok ==> r.unwrap().spec_valid(),
            r is Err ==> r == Err::<Dht22Response, Error>(Error::BadData) || r == Err::<
                Dht22Response,
                Error,
            >(Error::NoResponse),
            ({
                let o = retry_outcome::<Dht22Response>(
                    old(self).levels(),
                    old(self).default_level(),
                    old(self).cursor(),
                    old(self).options().max_attempts as int,
                );
                &&& r == o.0
                &&& final(self).cursor() == o.1
                &&& final(self).attempts_made() == old(self).attempts_made() + o.2
            }),
            stuck_line(old(self).levels(), old(self).default_level(), old(self).cursor()) ==> r
                == Err::<Dht22Response, Error>(Error::NoResponse) && final(self).attempts_made()
                == old(self).attempts_made() + 1,
            old(clock).delays().len() < final(clock).delays().len(),
            final(clock).delays().subrange(0, old(clock).delays().len() as int) == old(
                clock,
            ).delays(),
            final(clock).delays()[old(clock).delays().len() as int] == if old(clock).now() - old(
                self,
            ).last_read_time() < old(self).options().min_read_interval {
                ((old(self).options().min_read_interval - (old(clock).now() - old(
                    self,
                ).last_read_time())) as u64)
            } else {
                DHT22_PING_DURATION
            },
            old(clock).now() - old(self).last_read_time() < old(self).options().min_read_interval
                ==> old(clock).delays().len() + 1 < final(clock).delays().len()
                && final(clock).delays()[old(clock).delays().len() as int + 1] == DHT22_PING_DURATION,
    {
        read_with_retries::<Dht22Response>(
            &mut self.base,
            self.options,
            DHT22_PING_DURATION,
            &mut self.attempts,
            clock,
        )
    }

    /// How many request pulses this driver has driven, over all reads.
    pub fn attempt_count(&self) -> (r: u64)
        ensures
            r == self.attempts_made(),
    {
        self.attempts
    }
}

} // verus!

