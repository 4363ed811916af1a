use simple_sensors::mcp3008;
use simple_sensors::mcp300x;

#[test]
fn single_edge_0() {
    assert_eq!(mcp300x::Request::SingleEnded(0).to_bits(), 0b1000);
}

#[test]
fn single_edge_7() {
    assert_eq!(mcp300x::Request::SingleEnded(7).to_bits(), 0b1111);
}

#[test]
fn differential_0_minus_1() {
    assert_eq!(
        mcp300x::Request::Differential(mcp300x::DifferentialMode::ZeroMinusOne).to_bits(),
        0b0000
    );
}

#[test]
fn differential_7_minus_6() {
    assert_eq!(
        mcp300x::Request::Differential(mcp300x::DifferentialMode::SevenMinusSix).to_bits(),
        0b0111
    );
}

#[test]
fn read_ignores_noise() {
    // Only the null bit and the ten data bits of the answer matter.
    let rx: [u8; 3] = [0xFF, 0xFB, 0x44];
    assert_eq!(mcp300x::decode_transfer(&rx), Ok(0x344));
}

#[test]
fn read_missing_preceding_null_fails() {
    let rx: [u8; 3] = [0xFF, 0xFF, 0x0];
    assert_eq!(mcp300x::decode_transfer(&rx), Err(mcp300x::Error::BadData));
}

#[test]
fn sends_expected_request() {
    let tx = mcp300x::encode_request(&mcp300x::Request::SingleEnded(1));
    assert_eq!(tx, [0x1, 0x90, 0x0]);
}

#[test]
fn mcp3004_channel_bounds() {
    assert!(mcp300x::Request::SingleEnded(3).valid_for_mcp3004());
    assert!(!mcp300x::Request::SingleEnded(4).valid_for_mcp3004());
    assert!(
        mcp300x::Request::Differential(mcp300x::DifferentialMode::ThreeMinusTwo)
            .valid_for_mcp3004()
    );
    assert!(
        !mcp300x::Request::Differential(mcp300x::DifferentialMode::FourMinusFive)
            .valid_for_mcp3004()
    );
}

#[test]
fn mcp3008_channel_bounds() {
    assert!(mcp300x::Request::SingleEnded(7).valid_for_mcp3008());
    assert!(!mcp300x::Request::SingleEnded(8).valid_for_mcp3008());
}

#[test]
fn mcp3008_test_read_synchronous() {
    let rx: [u8; 3] = [0, 1, 0xFF];
    assert_eq!(mcp3008::decode_transfer(&rx), mcp3008::Mcp3008Response(0x1FF));
}

#[test]
fn expected_request_sent() {
    let tx = mcp3008::encode_request(&mcp3008::Mcp3008Request::SingleEnded(1));
    assert_eq!(tx, [0x1, 0x90, 0x0]);
}

#[test]
fn read_invalid_channel_fails() {
    assert!(!mcp3008::Mcp3008Request::SingleEnded(8).is_valid());
    assert!(mcp3008::Mcp3008Request::SingleEnded(7).is_valid());
}

#[test]
fn mcp3008_request_to_bits() {
    assert_eq!(mcp3008::Mcp3008Request::SingleEnded(5).to_bits(), 0b1101);
    assert_eq!(
        mcp3008::Mcp3008Request::Differential(mcp3008::DifferentialMode::FiveMinusFour).to_bits(),
        0b0101
    );
}
