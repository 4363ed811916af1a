use simple_sensors::clock::SimClock;
use simple_sensors::dhtxx::{
    Dht11, Dht11Response, Dht22, Dht22Response, Error, Options, ResponseFormat,
    MIN_DHT11_READ_INTERVAL, MIN_DHT22_READ_INTERVAL,
};
use simple_sensors::line::OutputLine;

fn create_data_vec(bits: [u8; 40]) -> Vec<u8> {
    // Start with the handshake.
    let mut data: Vec<u8> = vec![1, 1, 0, 0, 1, 1];
    for bit in bits.iter() {
        match bit {
            0 => data.extend_from_slice(&[0, 0, 1, 1]),
            1 => data.extend_from_slice(&[0, 0, 1, 1, 1]),
            _ => panic!("Must provide bits as 0s and 1s."),
        }
    }
    // Add the end pulse.
    data.extend_from_slice(&[0, 0, 1, 1]);
    data
}

fn line_from(data: &[u8], default_high: bool) -> OutputLine {
    let levels: Vec<bool> = data.iter().map(|v| *v > 0).collect();
    OutputLine::new(levels, default_high)
}

#[test]
fn dht11_invalid_min_interval() {
    let clock = SimClock::new();
    let result = Dht11::new(
        line_from(&[], false),
        &clock,
        Some(Options { min_read_interval: MIN_DHT11_READ_INTERVAL - 1, max_attempts: 1 }),
    );
    assert!(result.is_err());
    assert_eq!(result.map(|_| ()).unwrap_err(), Error::InvalidArgument);
}

#[test]
fn dht22_invalid_min_interval() {
    let clock = SimClock::new();
    let result = Dht22::new(
        line_from(&[], false),
        &clock,
        Some(Options { min_read_interval: MIN_DHT22_READ_INTERVAL - 1, max_attempts: 1 }),
    );
    assert!(result.is_err());
    assert_eq!(result.map(|_| ()).unwrap_err(), Error::InvalidArgument);
}

#[test]
fn dht11_invalid_max_attempts() {
    let clock = SimClock::new();
    let result = Dht11::new(
        line_from(&[], false),
        &clock,
        Some(Options { min_read_interval: MIN_DHT11_READ_INTERVAL, max_attempts: 0 }),
    );
    assert!(result.is_err());
    assert_eq!(result.map(|_| ()).unwrap_err(), Error::InvalidArgument);
}

#[test]
fn dht22_invalid_max_attempts() {
    let clock = SimClock::new();
    let result = Dht22::new(
        line_from(&[], false),
        &clock,
        Some(Options { min_read_interval: MIN_DHT22_READ_INTERVAL, max_attempts: 0 }),
    );
    assert!(result.is_err());
    assert_eq!(result.map(|_| ()).unwrap_err(), Error::InvalidArgument);
}

#[test]
fn dhtxx_test_read_all_zeros_succeeds() {
    let data = create_data_vec([
        0, 0, 0, 0, 0, 0, 0, 0, /*0x00*/
        0, 0, 0, 0, 0, 0, 0, 0, /*0x00*/
        0, 0, 0, 0, 0, 0, 0, 0, /*0x00*/
        0, 0, 0, 0, 0, 0, 0, 0, /*0x00*/
        0, 0, 0, 0, 0, 0, 0, 0, /*0x00*/
    ]);
    let mut clock = SimClock::new();
    let mut sensor = Dht11::new(line_from(&data, false), &clock, None).unwrap();

    let result = sensor.read(&mut clock).unwrap();
    assert_eq!(
        result,
        Dht11Response { humidity: 0, humidity_decimal: 0, temperature: 0, temperature_decimal: 0 }
    );
}

#[test]
fn dht11_read_with_valid_data() {
    let data = create_data_vec([
        0, 0, 0, 1, 0, 0, 0, 1, /*0x11*/
        0, 0, 0, 0, 0, 1, 0, 0, /*0x04*/
        0, 0, 0, 0, 1, 1, 1, 1, /*0x0F*/
        0, 0, 0, 0, 0, 0, 0, 0, /*0x00*/
        0, 0, 1, 0, 0, 1, 0, 0, /*0x24*/
    ]);
    let mut clock = SimClock::new();
    let mut sensor = Dht11::new(line_from(&data, false), &clock, None).unwrap();

    let result = sensor.read(&mut clock).unwrap();
    assert_eq!(
        result,
        Dht11Response {
            humidity: 0x11,
            humidity_decimal: 0x04,
            temperature: 0x0F,
            temperature_decimal: 0
        }
    );
}

#[test]
fn dht22_read_with_valid_data() {
    let data = create_data_vec([
        0, 0, 0, 0, 0, 0, 1, 0, /*0x02*/
        1, 0, 0, 0, 0, 0, 0, 0, /*0x80*/
        0, 0, 0, 0, 0, 0, 0, 1, /*0x01*/
        0, 0, 0, 0, 0, 1, 0, 0, /*0x04*/
        1, 0, 0, 0, 0, 1, 1, 1, /*0x87*/
    ]);
    let mut clock = SimClock::new();
    let mut sensor = Dht22::new(line_from(&data, false), &clock, None).unwrap();

    let result = sensor.read(&mut clock).unwrap();
    assert_eq!(result, Dht22Response { humidity_x10: 0x0280, temperature_x10: 0x0104 });
}

#[test]
fn read_with_negative_temperature_dht22_succeeds() {
    let data = create_data_vec([
        0, 0, 0, 0, 0, 0, 0, 1, /* byte 0 = 0x01 */
        0, 0, 0, 0, 0, 0, 0, 0, /* byte 1 = 0x00 */
        1, 0, 0, 0, 0, 0, 0, 1, /* byte 2 = 0x81 */
        0, 0, 0, 0, 0, 0, 0, 1, /* byte 3 = 0x01 */
        1, 0, 0, 0, 0, 0, 1, 1, /* parity = 0x83 */
    ]);
    let mut clock = SimClock::new();
    let mut sensor = Dht22::new(line_from(&data, false), &clock, None).unwrap();

    let result = sensor.read(&mut clock).unwrap();
    assert_eq!(result.temperature_x10, 0x8101);
    let temperature = -((result.temperature_x10 & 0x7FFF) as f32 * 0.1);
    assert_eq!(temperature, -25.7f32);
}

#[test]
fn dhtxx_test_read_with_imperfect_timing_succeeds() {
    let data: Vec<u8> = vec![
        /* handshake */
        1, 1, 0, 0, 1, 1, /* byte 0 = 0x11 */
        0, 0, 1, 1, 1, 0, 0, 1, 1, 0, 0, 1, 1, 0, 0, 1, 1, 1, 1, 1, 1, 1, 0, 0, 1, 1, 0, 0, 1, 1,
        0, 0, 1, 1, 0, 0, 1, 1, 1, 1, 1, 1, /* byte 1 = 0x00 */
        0, 0, 1, 1, 0, 0, 1, 1, 0, 0, 1, 1, 1, 1, 1, 0, 0, 1, 1, 0, 0, 1, 1, 0, 0, 1, 1, 0, 0, 1,
        1, 0, 0, 1, 1, /* byte 2 = 0x0F */
        0, 0, 1, 1, 0, 0, 1, 0, 0, 1, 1, 1, 0, 0, 1, 1, 0, 0, 1, 1, 1, 1, 1, 1, 1, 0, 0, 1, 1, 1,
        1, 1, 1, 1, 1, 0, 0, 1, 1, 1, 1, 1, 1, 1, 1, 0, 0, 1, 1, 1, 1, 1, 1, 1, 1, 1, 1,
        /* byte 3 = 0x00 */
        0, 0, 1, 1, 0, 0, 1, 1, 0, 0, 1, 1, 0, 0, 1, 1, 1, 0, 0, 1, 1, 0, 0, 1, 1, 0, 0, 1, 1, 1,
        1, 0, 0, 1, 1, 1, /* parity = 0x20 */
        0, 0, 1, 1, 0, 0, 1, 1, 0, 0, 1, 1, 1, 1, 1, 1, 1, 1, 0, 0, 1, 1, 0, 0, 1, 1, 0, 0, 1, 1,
        0, 0, 1, 1, 0, 0, 1, 1, /* end */
        0, 0, 1, 1,
    ];
    let mut clock = SimClock::new();
    let mut sensor = Dht11::new(line_from(&data, false), &clock, None).unwrap();

    let result = sensor.read(&mut clock).unwrap();
    assert_eq!(
        result,
        Dht11Response {
            humidity: 0x11,
            humidity_decimal: 0,
            temperature: 0x0F,
            temperature_decimal: 0
        }
    );
}

#[test]
fn read_with_bit_timeout_fails() {
    let data: Vec<u8> = vec![
        /* handshake */
        1, 1, 0, 0, 1, 1, /* byte 0 = 0x11 */
        0, 0, 1, 1, 1, 0, 0, 1, 1, 0, 0, 1, 1, 0, 0, 1, 1, 1, 1, 1, 1, 1, 0, 0, 1, 1, 0, 0, 1, 1,
        0, 0, 1, 1, 0, 0, 1, 1, 1, 1, 1, 1, /* byte 1 = stuck high */
        0, 0, 1, 1, 0, 0, 1, 1, 0, 0, 1, 1, 1, 1, 1, 1, 1, 1, 1, 1, 1, 1, 1, 1, 1, 1, 1, 1, 1, 1,
        1, 1, 1, 1, 1, 1, 1, 1, 1, 1, 1, 1, 1, 1, 1,
    ];
    let mut clock = SimClock::new();
    let mut sensor = Dht11::new(line_from(&data, false), &clock, None).unwrap();

    let result = sensor.read(&mut clock);
    assert!(result.is_err());
    assert_eq!(result.unwrap_err(), Error::BadData);
}

#[test]
fn read_with_no_response_fails() {
    let mut clock = SimClock::new();
    let mut sensor = Dht11::new(line_from(&[], true), &clock, None).unwrap();

    let result = sensor.read(&mut clock);
    assert!(result.is_err());
    assert_eq!(result.unwrap_err(), Error::NoResponse);
}

#[test]
fn dh11_retry_success() {
    // First frame carries a wrong parity byte, the second is all-zero
    // and valid: with two attempts the read succeeds on the retry.
    let mut data = create_data_vec([
        0, 0, 0, 0, 0, 0, 0, 0, /*0x00*/
        0, 0, 0, 0, 0, 0, 0, 0, /*0x00*/
        0, 0, 0, 0, 0, 0, 0, 0, /*0x00*/
        0, 0, 0, 0, 0, 0, 0, 0, /*0x00*/
        0, 0, 0, 0, 0, 0, 0, 1, /*0x01*/
    ]);
    data.append(&mut create_data_vec([
        0, 0, 0, 0, 0, 0, 0, 0, /*0x00*/
        0, 0, 0, 0, 0, 0, 0, 0, /*0x00*/
        0, 0, 0, 0, 0, 0, 0, 0, /*0x00*/
        0, 0, 0, 0, 0, 0, 0, 0, /*0x00*/
        0, 0, 0, 0, 0, 0, 0, 0, /*0x00*/
    ]));
    let mut clock = SimClock::new();
    let mut sensor = Dht11::new(
        line_from(&data, false),
        &clock,
        Some(Options { min_read_interval: MIN_DHT22_READ_INTERVAL, max_attempts: 2 }),
    )
    .unwrap();

    let result = sensor.read(&mut clock).unwrap();
    assert_eq!(
        result,
        Dht11Response { humidity: 0, humidity_decimal: 0, temperature: 0, temperature_decimal: 0 }
    );
    assert_eq!(sensor.attempt_count(), 2);
}

#[test]
fn dh22_retry_success() {
    let mut data = create_data_vec([
        0, 0, 0, 0, 0, 0, 0, 0, /*0x00*/
        0, 0, 0, 0, 0, 0, 0, 0, /*0x00*/
        0, 0, 0, 0, 0, 0, 0, 0, /*0x00*/
        0, 0, 0, 0, 0, 0, 0, 0, /*0x00*/
        0, 0, 0, 0, 0, 0, 0, 1, /*0x01*/
    ]);
    data.append(&mut create_data_vec([
        0, 0, 0, 0, 0, 0, 0, 0, /*0x00*/
        0, 0, 0, 0, 0, 0, 0, 0, /*0x00*/
        0, 0, 0, 0, 0, 0, 0, 0, /*0x00*/
        0, 0, 0, 0, 0, 0, 0, 0, /*0x00*/
        0, 0, 0, 0, 0, 0, 0, 0, /*0x00*/
    ]));
    let mut clock = SimClock::new();
    let mut sensor = Dht22::new(
        line_from(&data, false),
        &clock,
        Some(Options { min_read_interval: MIN_DHT22_READ_INTERVAL, max_attempts: 2 }),
    )
    .unwrap();

    let result = sensor.read(&mut clock).unwrap();
    assert_eq!(result, Dht22Response { humidity_x10: 0, temperature_x10: 0 });
    assert_eq!(sensor.attempt_count(), 2);
}

#[test]
fn dh11_retry_bad_data() {
    // Two frames with wrong parity bytes: the budget runs out and the
    // last error comes back.
    let mut data = create_data_vec([
        0, 0, 0, 0, 0, 0, 0, 0, /*0x00*/
        0, 0, 0, 0, 0, 0, 0, 0, /*0x00*/
        0, 0, 0, 0, 0, 0, 0, 0, /*0x00*/
        0, 0, 0, 0, 0, 0, 0, 0, /*0x00*/
        0, 0, 0, 0, 0, 0, 0, 1, /*0x01*/
    ]);
    data.append(&mut create_data_vec([
        0, 0, 0, 0, 0, 0, 0, 0, /*0x00*/
        0, 0, 0, 0, 0, 0, 0, 0, /*0x00*/
        0, 0, 0, 0, 0, 0, 0, 0, /*0x00*/
        0, 0, 0, 0, 0, 0, 0, 0, /*0x00*/
        0, 0, 0, 0, 0, 0, 0, 1, /*0x01*/
    ]));
    let mut clock = SimClock::new();
    let mut sensor = Dht11::new(
        line_from(&data, false),
        &clock,
        Some(Options { min_read_interval: MIN_DHT11_READ_INTERVAL, max_attempts: 2 }),
    )
    .unwrap();

    let result = sensor.read(&mut clock);
    assert!(result.is_err());
    assert_eq!(result.unwrap_err(), Error::BadData);
    assert_eq!(sensor.attempt_count(), 2);
}

#[test]
fn dht11_retry_fail_on_no_response() {
    // A line stuck high never completes the handshake: the read aborts
    // at once, making exactly one attempt despite the budget of two.
    let mut clock = SimClock::new();
    let mut sensor = Dht11::new(
        line_from(&[], true),
        &clock,
        Some(Options { min_read_interval: MIN_DHT11_READ_INTERVAL, max_attempts: 2 }),
    )
    .unwrap();

    let result = sensor.read(&mut clock);
    assert!(result.is_err());
    assert_eq!(result.unwrap_err(), Error::NoResponse);
    assert_eq!(sensor.attempt_count(), 1);
}

#[test]
fn dht22_retry_fail_on_no_response() {
    // The same with a line stuck low.
    let mut clock = SimClock::new();
    let mut sensor = Dht22::new(
        line_from(&[], false),
        &clock,
        Some(Options { min_read_interval: MIN_DHT22_READ_INTERVAL, max_attempts: 2 }),
    )
    .unwrap();

    let result = sensor.read(&mut clock);
    assert!(result.is_err());
    assert_eq!(result.unwrap_err(), Error::NoResponse);
    assert_eq!(sensor.attempt_count(), 1);
}

#[test]
fn read_waits_remaining_interval() {
    // A second read issued early must suspend for exactly the remaining
    // wait, not the full interval.
    let data = create_data_vec([
        0, 0, 0, 0, 0, 0, 0, 0, /*0x00*/
        0, 0, 0, 0, 0, 0, 0, 0, /*0x00*/
        0, 0, 0, 0, 0, 0, 0, 0, /*0x00*/
        0, 0, 0, 0, 0, 0, 0, 0, /*0x00*/
        0, 0, 0, 0, 0, 0, 0, 0, /*0x00*/
    ]);
    let mut clock = SimClock::new();
    clock.advance(300_000);
    let mut sensor = Dht11::new(line_from(&data, false), &clock, None).unwrap();
    clock.advance(250_000);

    sensor.read(&mut clock).unwrap();
    // The first delay is the remainder of the one-second interval, the
    // second the request pulse.
    assert_eq!(clock.delay_count(), 2);
    assert_eq!(clock.delay_at(0), 1_000_000 - 250_000);
    assert_eq!(clock.delay_at(1), 18_000);
}

#[test]
fn elapsed_interval_skips_wait() {
    // When the interval has already passed, the only delay issued is
    // the request pulse itself.
    let data = create_data_vec([
        0, 0, 0, 0, 0, 0, 0, 0, /*0x00*/
        0, 0, 0, 0, 0, 0, 0, 0, /*0x00*/
        0, 0, 0, 0, 0, 0, 0, 0, /*0x00*/
        0, 0, 0, 0, 0, 0, 0, 0, /*0x00*/
        0, 0, 0, 0, 0, 0, 0, 0, /*0x00*/
    ]);
    let mut clock = SimClock::new();
    let mut sensor = Dht11::new(line_from(&data, false), &clock, None).unwrap();
    clock.advance(1_500_000);

    sensor.read(&mut clock).unwrap();
    assert_eq!(clock.delay_count(), 1);
    assert_eq!(clock.delay_at(0), 18_000);
}

#[test]
fn dht11_is_valid_upper_bound() {
    assert!(Dht11Response::from_raw_bytes([100, 0, 75, 0]).is_valid());
}

#[test]
fn dht11_is_valid_decimal_upper_bound() {
    assert!(Dht11Response::from_raw_bytes([99, 9, 74, 9]).is_valid());
}

#[test]
fn dht11_is_valid_lower_bound() {
    assert!(Dht11Response::from_raw_bytes([0, 0, 0, 0]).is_valid());
}

#[test]
fn dht11_is_valid_humidity_too_high() {
    assert!(!Dht11Response::from_raw_bytes([101, 0, 0, 0]).is_valid());
}

#[test]
fn dht11_is_valid_humidity_decimal_too_high() {
    assert!(!Dht11Response::from_raw_bytes([100, 1, 0, 0]).is_valid());
}

#[test]
fn dht11_is_valid_temperature_too_high() {
    assert!(!Dht11Response::from_raw_bytes([0, 0, 76, 0]).is_valid());
}

#[test]
fn dht22_is_valid_upper_bound() {
    let r = Dht22Response::from_raw_bytes([
        1000u16.to_be_bytes()[0],
        1000u16.to_be_bytes()[1],
        1499u16.to_be_bytes()[0],
        1499u16.to_be_bytes()[1],
    ]);
    assert!(r.is_valid());
}

#[test]
fn dht22_is_valid_lower_bound() {
    let r = Dht22Response::from_raw_bytes([
        0,
        0,
        599u16.to_be_bytes()[0] | 0x80,
        599u16.to_be_bytes()[1],
    ]);
    assert!(r.is_valid());
}

#[test]
fn dht22_is_valid_humidity_too_high() {
    let r = Dht22Response::from_raw_bytes([1001u16.to_be_bytes()[0], 1001u16.to_be_bytes()[1], 0, 0]);
    assert!(!r.is_valid());
}

#[test]
fn dht22_is_valid_temperature_too_low() {
    let r = Dht22Response::from_raw_bytes([
        0,
        0,
        600u16.to_be_bytes()[0] | 0x80,
        600u16.to_be_bytes()[1],
    ]);
    assert!(!r.is_valid());
}

#[test]
fn dht22_is_valid_temperature_too_high() {
    let r = Dht22Response::from_raw_bytes([0, 0, 1500u16.to_be_bytes()[0], 1500u16.to_be_bytes()[1]]);
    assert!(!r.is_valid());
}

#[test]
fn dht11_read_with_invalid_temperature_fails() {
    // Checksum is consistent, but 0xBB degrees is implausible for the
    // coarse sensor: validation must fail closed.
    let data = create_data_vec([
        0, 0, 0, 1, 0, 0, 0, 1, /* byte 0 = 0x11 */
        0, 0, 0, 0, 0, 0, 0, 0, /* byte 1 = 0x00 */
        1, 0, 1, 1, 1, 0, 1, 1, /* byte 2 = 0xBB */
        0, 0, 0, 0, 0, 0, 0, 1, /* byte 3 = 0x01 */
        1, 1, 0, 0, 1, 1, 0, 1, /* parity = 0xCD */
    ]);
    let mut clock = SimClock::new();
    let mut sensor = Dht11::new(line_from(&data, false), &clock, None).unwrap();

    let result = sensor.read(&mut clock);
    assert!(result.is_err());
    assert_eq!(result.unwrap_err(), Error::BadData);
}

#[test]
fn dht22_read_with_invalid_humidity_fails() {
    // Checksum is consistent, but humidity 1002 tenths is implausible
    // for the signed-fraction sensor: validation must fail closed.
    let data = create_data_vec([
        0, 0, 0, 0, 0, 0, 1, 1, /* byte 0 = 0x03 */
        1, 1, 1, 0, 1, 0, 1, 0, /* byte 1 = 0xEA */
        0, 0, 0, 0, 0, 0, 0, 0, /* byte 2 = 0x00 */
        0, 0, 0, 0, 0, 0, 0, 0, /* byte 3 = 0x00 */
        1, 1, 1, 0, 1, 1, 0, 1, /* parity = 0xED */
    ]);
    let mut clock = SimClock::new();
    let mut sensor = Dht22::new(line_from(&data, false), &clock, None).unwrap();

    let result = sensor.read(&mut clock);
    assert!(result.is_err());
    assert_eq!(result.unwrap_err(), Error::BadData);
}
