use simple_sensors::clock::SimClock;
use simple_sensors::dht11::{Dht11, DhtResponse, Error};
use simple_sensors::line::OutputLine;

fn line_from(data: &[u8], default_high: bool) -> OutputLine {
    let levels: Vec<bool> = data.iter().map(|v| *v > 0).collect();
    OutputLine::new(levels, default_high)
}

#[test]
fn set_invalid_interval_fails() {
    let clock = SimClock::new();
    let mut sensor = Dht11::new(line_from(&[], false), &clock).unwrap();

    let result = sensor.set_minimum_read_interval(1);
    assert!(result.is_err());
    assert_eq!(result.unwrap_err(), Error::InvalidArgument);
}

#[test]
fn dht11_test_read_all_zeros_succeeds() {
    let mut data: Vec<u8> = vec![1, 1, 0, 0, 1, 1];
    for _ in 0..40 {
        data.extend_from_slice(&[0, 0, 1, 1]);
    }
    let mut clock = SimClock::new();
    let mut sensor = Dht11::new(line_from(&data, false), &clock).unwrap();

    let result = sensor.read(&mut clock).unwrap();
    assert_eq!(
        result,
        DhtResponse { humidity: 0, humidity_decimal: 0, temperature: 0, temperature_decimal: 0 }
    );
}

#[test]
fn read_with_valid_data() {
    let data: Vec<u8> = vec![
        /* handshake */
        1, 1, 0, 0, 1, 1, /* byte 0 = 0x11 */
        0, 0, 1, 1, 0, 0, 1, 1, 0, 0, 1, 1, 0, 0, 1, 1, 1, 0, 0, 1, 1, 0, 0, 1, 1, 0, 0, 1, 1, 0,
        0, 1, 1, 1, /* byte 1 = 0x00 */
        0, 0, 1, 1, 0, 0, 1, 1, 0, 0, 1, 1, 0, 0, 1, 1, 0, 0, 1, 1, 0, 0, 1, 1, 0, 0, 1, 1, 0, 0,
        1, 1, /* byte 2 = 0x0F */
        0, 0, 1, 1, 0, 0, 1, 1, 0, 0, 1, 1, 0, 0, 1, 1, 0, 0, 1, 1, 1, 0, 0, 1, 1, 1, 0, 0, 1, 1,
        1, 0, 0, 1, 1, 1, /* byte 3 = 0x00 */
        0, 0, 1, 1, 0, 0, 1, 1, 0, 0, 1, 1, 0, 0, 1, 1, 0, 0, 1, 1, 0, 0, 1, 1, 0, 0, 1, 1, 0, 0,
        1, 1, /* parity = 0x20 */
        0, 0, 1, 1, 0, 0, 1, 1, 0, 0, 1, 1, 1, 0, 0, 1, 1, 0, 0, 1, 1, 0, 0, 1, 1, 0, 0, 1, 1, 0,
        0, 1, 1, /* end */
        0, 0, 1, 1,
    ];
    let mut clock = SimClock::new();
    let mut sensor = Dht11::new(line_from(&data, false), &clock).unwrap();

    let result = sensor.read(&mut clock).unwrap();
    assert_eq!(
        result,
        DhtResponse {
            humidity: 0x11,
            humidity_decimal: 0,
            temperature: 0x0F,
            temperature_decimal: 0
        }
    );
}

#[test]
fn read_bad_parity_fails() {
    let data: Vec<u8> = vec![
        /* handshake */
        1, 1, 0, 0, 1, 1, /* byte 0 = 0x11 */
        0, 0, 1, 1, 0, 0, 1, 1, 0, 0, 1, 1, 0, 0, 1, 1, 1, 0, 0, 1, 1, 0, 0, 1, 1, 0, 0, 1, 1, 0,
        0, 1, 1, 1, /* byte 1 = 0x00 */
        0, 0, 1, 1, 0, 0, 1, 1, 0, 0, 1, 1, 0, 0, 1, 1, 0, 0, 1, 1, 0, 0, 1, 1, 0, 0, 1, 1, 0, 0,
        1, 1, /* byte 2 = 0x0F */
        0, 0, 1, 1, 0, 0, 1, 1, 0, 0, 1, 1, 0, 0, 1, 1, 0, 0, 1, 1, 1, 0, 0, 1, 1, 1, 0, 0, 1, 1,
        1, 0, 0, 1, 1, 1, /* byte 3 = 0x00 */
        0, 0, 1, 1, 0, 0, 1, 1, 0, 0, 1, 1, 0, 0, 1, 1, 0, 0, 1, 1, 0, 0, 1, 1, 0, 0, 1, 1, 0, 0,
        1, 1, /* parity = 0x21 */
        0, 0, 1, 1, 0, 0, 1, 1, 0, 0, 1, 1, 1, 0, 0, 1, 1, 0, 0, 1, 1, 0, 0, 1, 1, 0, 0, 1, 1, 0,
        0, 1, 1, 1, /* end */
        0, 0, 1, 1,
    ];
    let mut clock = SimClock::new();
    let mut sensor = Dht11::new(line_from(&data, false), &clock).unwrap();

    let result = sensor.read(&mut clock);
    assert!(result.is_err());
    assert_eq!(result.unwrap_err(), Error::BadParity);
}

#[test]
fn dht11_test_read_with_imperfect_timing_succeeds() {
    let data: Vec<u8> = vec![
        /* handshake */
        1, 1, 0, 0, 1, 1, /* byte 0 = 0x11 */
        0, 0, 1, 1, 1, 0, 0, 1, 1, 0, 0, 1, 1, 0, 0, 1, 1, 1, 1, 1, 1, 1, 0, 0, 1, 1, 0, 0, 1, 1,
        0, 0, 1, 1, 0, 0, 1, 1, 1, 1, 1, 1, /* byte 1 = 0x00 */
        0, 0, 1, 1, 0, 0, 1, 1, 0, 0, 1, 1, 1, 1, 1, 0, 0, 1, 1, 0, 0, 1, 1, 0, 0, 1, 1, 0, 0, 1,
        1, 0, 0, 1, 1, /* byte 2 = 0x0F */
        0, 0, 1, 1, 0, 0, 1, 0, 0, 1, 1, 1, 0, 0, 1, 1, 0, 0, 1, 1, 1, 1, 1, 1, 1, 0, 0, 1, 1, 1,
        1, 1, 1, 1, 1, 0, 0, 1, 1, 1, 1, 1, 1, 1, 1, 0, 0, 1, 1, 1, 1, 1, 1, 1, 1, 1, 1,
        /* byte 3 = 0x00 */
        0, 0, 1, 1, 0, 0, 1, 1, 0, 0, 1, 1, 0, 0, 1, 1, 1, 0, 0, 1, 1, 0, 0, 1, 1, 0, 0, 1, 1, 1,
        1, 0, 0, 1, 1, 1, /* parity = 0x20 */
        0, 0, 1, 1, 0, 0, 1, 1, 0, 0, 1, 1, 1, 1, 1, 1, 1, 1, 0, 0, 1, 1, 0, 0, 1, 1, 0, 0, 1, 1,
        0, 0, 1, 1, 0, 0, 1, 1, /* end */
        0, 0, 1, 1,
    ];
    let mut clock = SimClock::new();
    let mut sensor = Dht11::new(line_from(&data, false), &clock).unwrap();

    let result = sensor.read(&mut clock).unwrap();
    assert_eq!(
        result,
        DhtResponse {
            humidity: 0x11,
            humidity_decimal: 0,
            temperature: 0x0F,
            temperature_decimal: 0
        }
    );
}

#[test]
fn read_with_timeout_fails() {
    let data: Vec<u8> = vec![
        /* handshake */
        1, 1, 0, 0, 1, 1, /* byte 0 = 0x11 */
        0, 0, 1, 1, 1, 0, 0, 1, 1, 0, 0, 1, 1, 0, 0, 1, 1, 1, 1, 1, 1, 1, 0, 0, 1, 1, 0, 0, 1, 1,
        0, 0, 1, 1, 0, 0, 1, 1, 1, 1, 1, 1, /* byte 1 = stuck high */
        0, 0, 1, 1, 0, 0, 1, 1, 0, 0, 1, 1, 1, 1, 1, 1, 1, 1, 1, 1, 1, 1, 1, 1, 1, 1, 1, 1, 1, 1,
        1, 1, 1, 1, 1, 1, 1, 1, 1, 1, 1, 1, 1, 1, 1,
    ];
    let mut clock = SimClock::new();
    let mut sensor = Dht11::new(line_from(&data, false), &clock).unwrap();

    let result = sensor.read(&mut clock);
    assert!(result.is_err());
    assert_eq!(result.unwrap_err(), Error::Timeout);
}
