use simple_sensors::ds18b20::{
    byte_from_lsb_bits, compute_crc, decode_scratchpad, presence_detected, send_bit,
    shift_crc_bit, write_slot_low_us, write_slot_post_us, BusAction, DeviceId, Error,
    FunctionCommand, ResolutionMode, RomCommand, Temperature, TemperatureReadStep,
};

#[test]
fn temp_integer_part() {
    let temperature = Temperature::from_bytes(0xF9, 0x12);

    assert_eq!(temperature.integer_part(), 0x12F);
}

#[test]
fn temp_negative_integer_part() {
    let temperature = Temperature::from_bytes(0x6E, 0xFE);

    assert_eq!(temperature.integer_part(), -25);
}

#[test]
fn temp_negative_zero_integer_part() {
    let temperature = Temperature::from_bytes(0xF0, 0xFF);

    assert_eq!(temperature.integer_part(), 0);
}

#[test]
fn temp_decimal_part() {
    let temperature = Temperature::from_bytes(0xF9, 0x12);

    assert_eq!(temperature.decimal_part(), 0x9);
}

#[test]
fn temp_negative_decimal_part() {
    let temperature = Temperature::from_bytes(0x6E, 0xFE);

    assert_eq!(temperature.decimal_part(), -2);
}

#[test]
fn temp_negative_zero_decimal_part() {
    let temperature = Temperature::from_bytes(0xF1, 0xFF);

    assert_eq!(temperature.decimal_part(), -15);
}

#[test]
fn temp_nearest_integer_rounds_up() {
    let temperature = Temperature::from_bytes(0xF8, 0x12);

    assert_eq!(temperature.nearest_integer(), 0x130);
}

#[test]
fn temp_nearest_integer_rounds_down() {
    let temperature = Temperature::from_bytes(0xF7, 0x12);

    assert_eq!(temperature.nearest_integer(), 0x12F);
}

#[test]
fn temp_negative_nearest_integer_rounds_towards_zero() {
    let temperature = Temperature::from_bytes(0x6E, 0xFE);

    assert_eq!(temperature.nearest_integer(), -25);
}

#[test]
fn temp_negative_nearest_integer_rounds_away_from_zero() {
    let temperature = Temperature::from_bytes(0x68, 0xFE);

    assert_eq!(temperature.nearest_integer(), -26);
}

// The published example identity of this device family: family code
// 0x02, serial 0x00000001B81C, CRC 0xA2.
#[test]
fn crc_matches_published_rom_example() {
    let data: [u8; 7] = [0x02, 0x1C, 0xB8, 0x01, 0x00, 0x00, 0x00];
    assert_eq!(compute_crc(&data, 7), 0xA2);
}

#[test]
fn crc_of_single_byte() {
    let data: [u8; 1] = [0x01];
    assert_eq!(compute_crc(&data, 1), 0x5E);
    assert_eq!(compute_crc(&data, 0), 0x00);
}

#[test]
fn crc_bit_steps_compose() {
    // Folding the byte 0x01 in bit by bit matches the whole-byte CRC.
    let mut crc: u8 = 0;
    for k in 0..8u8 {
        crc = shift_crc_bit(crc, (0x01 >> k) & 1 == 1);
    }
    assert_eq!(crc, 0x5E);
}

#[test]
fn device_id_parts() {
    let id = DeviceId([0x02, 0x1C, 0xB8, 0x01, 0x00, 0x00, 0x00, 0xA2]);
    assert_eq!(id.family_code(), 0x02);
    assert_eq!(id.serial(), 0x0000_0000_0001_B81C);
    assert_eq!(id.crc(), 0xA2);
    assert_eq!(id.calculated_crc(), 0xA2);
}

#[test]
fn device_id_corrupted_crc_detected() {
    let id = DeviceId([0x02, 0x1C, 0xB8, 0x01, 0x00, 0x01, 0x00, 0xA2]);
    assert_ne!(id.calculated_crc(), id.crc());
}

#[test]
fn scratchpad_decodes_with_good_crc() {
    // 25.0625 degrees: register 0x0191, with the standard power-up
    // alarm and configuration bytes.
    let data: [u8; 9] = [0x91, 0x01, 0x4B, 0x46, 0x7F, 0xFF, 0x00, 0x10, 0x3D];
    let temperature = decode_scratchpad(&data).unwrap();
    assert_eq!(temperature.integer_part(), 25);
    assert_eq!(temperature.decimal_part(), 1);
}

#[test]
fn scratchpad_bad_crc_rejected() {
    let data: [u8; 9] = [0x90, 0x01, 0x4B, 0x46, 0x7F, 0xFF, 0x00, 0x10, 0x3D];
    assert_eq!(decode_scratchpad(&data), Err(Error::BadData));
}

#[test]
fn rom_command_codes() {
    assert_eq!(RomCommand::Search.code(), 0xF0);
    assert_eq!(RomCommand::Read.code(), 0x33);
    assert_eq!(RomCommand::Match.code(), 0x55);
    assert_eq!(RomCommand::Skip.code(), 0xCC);
    assert_eq!(RomCommand::AlarmSearch.code(), 0xEC);
}

#[test]
fn function_command_codes() {
    assert_eq!(FunctionCommand::ConvertTemperature.code(), 0x44);
    assert_eq!(FunctionCommand::WriteScratchpad.code(), 0x4E);
    assert_eq!(FunctionCommand::ReadScratchpad.code(), 0xBE);
    assert_eq!(FunctionCommand::CopyScratchpad.code(), 0x48);
    assert_eq!(FunctionCommand::RecallEeprom.code(), 0xB8);
    assert_eq!(FunctionCommand::ReadPowerSupply.code(), 0xB4);
}

#[test]
fn resolution_configuration_bytes() {
    assert_eq!(ResolutionMode::NineBit.get_configuration_byte(), 0x0F);
    assert_eq!(ResolutionMode::TenBit.get_configuration_byte(), 0x2F);
    assert_eq!(ResolutionMode::ElevenBit.get_configuration_byte(), 0x4F);
    assert_eq!(ResolutionMode::TwelveBit.get_configuration_byte(), 0x6F);
}

#[test]
fn resolution_conversion_times() {
    assert_eq!(ResolutionMode::NineBit.get_conversion_time_us(), 93_750);
    assert_eq!(ResolutionMode::TenBit.get_conversion_time_us(), 187_500);
    assert_eq!(ResolutionMode::ElevenBit.get_conversion_time_us(), 375_000);
    assert_eq!(ResolutionMode::TwelveBit.get_conversion_time_us(), 750_000);
}

#[test]
fn bytes_travel_least_significant_bit_first() {
    // 0xBE on the wire: 0,1,1,1,1,1,0,1 from bit zero up.
    let expected = [false, true, true, true, true, true, false, true];
    for k in 0..8u8 {
        assert_eq!(send_bit(0xBE, k), expected[k as usize]);
    }
    assert_eq!(byte_from_lsb_bits(&expected), 0xBE);
}

#[test]
fn write_slot_timing_plan() {
    assert_eq!(write_slot_low_us(false), 60);
    assert_eq!(write_slot_low_us(true), 1);
    assert_eq!(write_slot_post_us(true), 59);
    assert_eq!(write_slot_post_us(false), 0);
}

#[test]
fn presence_pulse_at_either_sample() {
    assert!(presence_detected(true, false));
    assert!(presence_detected(false, true));
    assert!(presence_detected(true, true));
    assert!(!presence_detected(false, false));
}

#[test]
fn temperature_read_plan() {
    let mut actions: Vec<BusAction> = Vec::new();
    let mut step = Some(TemperatureReadStep::ResetForConversion);
    while let Some(station) = step {
        actions.push(station.action(ResolutionMode::TwelveBit));
        step = station.next();
    }
    assert_eq!(
        actions,
        vec![
            BusAction::PulseReset,
            BusAction::WriteCommandByte(0xCC),
            BusAction::WriteCommandByte(0x44),
            BusAction::Suspend(750_000),
            BusAction::PulseReset,
            BusAction::WriteCommandByte(0xCC),
            BusAction::WriteCommandByte(0xBE),
            BusAction::SampleScratchpad,
        ]
    );
}
